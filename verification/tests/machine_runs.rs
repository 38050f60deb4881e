//! Runs of the inner machine on small hand-assembled RISC-V images.

use ckb_vm_interpreter::guest::guest_run;
use ckb_vm_interpreter::guest::GuestError;
use ckb_vm_interpreter::machine::DebugSyscall;
use ckb_vm_interpreter::machine::ExecStrategy;
use ckb_vm_interpreter::machine::InnerMachineAdapter;
use ckb_vm_interpreter::machine::LoadError;
use ckb_vm_interpreter::machine::MachineConfig;
use ckb_vm_interpreter::machine::RunError;
use ckb_vm_interpreter::outputs::decode_record;

/// A minimal 64-bit RISC-V executable: it sets the exit system-call number,
/// puts `exit_code` into the argument register, and traps.
fn minimal_elf(exit_code: u8) -> Vec<u8> {
    let code: Vec<u8> = [
        0x05d00893u32,                            // addi a7, zero, 93
        0x00000513u32 + ((exit_code as u32) << 20), // addi a0, zero, exit_code
        0x00000073u32,                            // ecall
    ]
    .iter()
    .flat_map(|w| w.to_le_bytes())
    .collect();
    elf_with_code(&code)
}

/// An executable whose code is not decodable: running it must fault.
fn undecodable_elf() -> Vec<u8> {
    elf_with_code(&[0u8; 12])
}

/// An executable whose first instructions store into their own code page:
/// the machine's write-xor-execute memory must fault the store.
fn self_writing_elf() -> Vec<u8> {
    let code: Vec<u8> = [
        0x000102b7u32, // lui t0, 0x10
        0x0002a023u32, // sw zero, 0(t0)
        0x05d00893u32, // addi a7, zero, 93
        0x00000513u32, // addi a0, zero, 0
        0x00000073u32, // ecall
    ]
    .iter()
    .flat_map(|w| w.to_le_bytes())
    .collect();
    elf_with_code(&code)
}

fn elf_with_code(code: &[u8]) -> Vec<u8> {
    let mut e: Vec<u8> = Vec::new();
    // ELF header: 64-bit, little-endian, RISC-V, entry 0x10000.
    e.extend_from_slice(&[0x7f, b'E', b'L', b'F', 2, 1, 1, 0, 0, 0, 0, 0, 0, 0, 0, 0]);
    e.extend_from_slice(&2u16.to_le_bytes());
    e.extend_from_slice(&243u16.to_le_bytes());
    e.extend_from_slice(&1u32.to_le_bytes());
    e.extend_from_slice(&0x10000u64.to_le_bytes());
    e.extend_from_slice(&64u64.to_le_bytes());
    e.extend_from_slice(&0u64.to_le_bytes());
    e.extend_from_slice(&0u32.to_le_bytes());
    e.extend_from_slice(&64u16.to_le_bytes());
    e.extend_from_slice(&56u16.to_le_bytes());
    e.extend_from_slice(&1u16.to_le_bytes());
    e.extend_from_slice(&0u16.to_le_bytes());
    e.extend_from_slice(&0u16.to_le_bytes());
    e.extend_from_slice(&0u16.to_le_bytes());
    // One readable, executable load segment at 0x10000.
    e.extend_from_slice(&1u32.to_le_bytes());
    e.extend_from_slice(&5u32.to_le_bytes());
    e.extend_from_slice(&120u64.to_le_bytes());
    e.extend_from_slice(&0x10000u64.to_le_bytes());
    e.extend_from_slice(&0x10000u64.to_le_bytes());
    e.extend_from_slice(&(code.len() as u64).to_le_bytes());
    e.extend_from_slice(&(code.len() as u64).to_le_bytes());
    e.extend_from_slice(&0x1000u64.to_le_bytes());
    e.extend_from_slice(code);
    e
}

#[test]
fn adapter_runs_exit_zero() {
    let config = MachineConfig::standard(ExecStrategy::Portable);
    let mut adapter = InnerMachineAdapter::construct(config);
    adapter.load(minimal_elf(0), Vec::new()).expect("load");
    let exit_code = adapter.run().expect("run");
    assert_eq!(exit_code, 0);
    assert!(adapter.cycles() > 0);
}

#[test]
fn nonzero_exit_is_not_a_fault() {
    let config = MachineConfig::standard(ExecStrategy::Portable);
    let mut adapter = InnerMachineAdapter::construct(config);
    adapter.load(minimal_elf(7), Vec::new()).expect("load");
    let exit_code = adapter.run().expect("run");
    assert_eq!(exit_code, 7);
}

#[test]
fn undecodable_code_faults() {
    let config = MachineConfig::standard(ExecStrategy::Portable);
    let mut adapter = InnerMachineAdapter::construct(config);
    adapter.load(undecodable_elf(), Vec::new()).expect("load");
    assert_eq!(adapter.run(), Err(RunError::MachineFault));
}

#[test]
fn truncated_image_is_rejected_by_load() {
    let mut image = minimal_elf(0);
    image.truncate(30);
    let config = MachineConfig::standard(ExecStrategy::Portable);
    let mut adapter = InnerMachineAdapter::construct(config);
    assert_eq!(adapter.load(image, Vec::new()), Err(LoadError::ImageRejected));
}

#[test]
fn truncated_image_produces_no_record() {
    let mut image = minimal_elf(0);
    image.truncate(100);
    let r = guest_run(&image, ExecStrategy::Portable);
    assert!(matches!(r, Err(GuestError::Load(LoadError::ImageRejected))));
}

#[test]
fn empty_image_produces_no_record() {
    let image: Vec<u8> = Vec::new();
    let r = guest_run(&image, ExecStrategy::Portable);
    assert!(matches!(r, Err(GuestError::Load(LoadError::ImageRejected))));
}

#[test]
fn guest_commits_exit_code_then_cycles() {
    let image = minimal_elf(0);
    let record_bytes = guest_run(&image, ExecStrategy::Portable).expect("guest run");
    assert_eq!(record_bytes.len(), 9);
    let record = decode_record(&record_bytes).expect("decode");
    assert_eq!(record.exit_code, 0);
    // Two one-cycle register instructions, then the 500-cycle trap.
    assert_eq!(record.cycle_count, 502);
}

#[test]
fn repeated_runs_are_deterministic() {
    let image = minimal_elf(3);
    let first = guest_run(&image, ExecStrategy::Portable).expect("first run");
    let second = guest_run(&image, ExecStrategy::Portable).expect("second run");
    assert_eq!(first, second);
}

#[test]
fn strategies_agree_on_exit_code_and_cycles() {
    let image = minimal_elf(0);
    let portable = guest_run(&image, ExecStrategy::Portable).expect("portable run");
    let accelerated = guest_run(&image, ExecStrategy::Accelerated).expect("accelerated run");
    assert_eq!(portable, accelerated);
}

#[test]
fn strategies_agree_on_faults() {
    let image = undecodable_elf();
    let portable = guest_run(&image, ExecStrategy::Portable);
    let accelerated = guest_run(&image, ExecStrategy::Accelerated);
    assert_eq!(portable, Err(GuestError::Run(RunError::MachineFault)));
    assert_eq!(accelerated, Err(GuestError::Run(RunError::MachineFault)));
}

#[test]
fn non_exit_system_calls_fault() {
    // No system-call handler is registered on the machine: only the exit
    // call ends a run, any other system call is a machine fault.
    let code: Vec<u8> = [
        0x3e700893u32, // addi a7, zero, 999
        0x00000073u32, // ecall
        0x05d00893u32, // addi a7, zero, 93
        0x00000513u32, // addi a0, zero, 0
        0x00000073u32, // ecall
    ]
    .iter()
    .flat_map(|w| w.to_le_bytes())
    .collect();
    let image = elf_with_code(&code);
    let r = guest_run(&image, ExecStrategy::Portable);
    assert_eq!(r, Err(GuestError::Run(RunError::MachineFault)));
}

#[test]
fn writes_into_code_pages_fault_under_both_strategies() {
    // The instruction stream cannot change under either runner, so the
    // accelerated runner's decoded-ahead cache can never go stale.
    let image = self_writing_elf();
    let portable = guest_run(&image, ExecStrategy::Portable);
    let accelerated = guest_run(&image, ExecStrategy::Accelerated);
    assert_eq!(portable, Err(GuestError::Run(RunError::MachineFault)));
    assert_eq!(accelerated, Err(GuestError::Run(RunError::MachineFault)));
}

#[test]
fn debug_syscall_never_fails() {
    let mut syscall = DebugSyscall {};
    assert_eq!(syscall.initialize(), Ok(()));
    assert_eq!(syscall.ecall(), Ok(true));
}

#[test]
fn failed_load_abandons_the_instance() {
    let config = MachineConfig::standard(ExecStrategy::Portable);
    let mut adapter = InnerMachineAdapter::construct(config);
    assert!(adapter.load(vec![1, 2, 3], Vec::new()).is_err());
}
