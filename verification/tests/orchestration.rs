//! Mode selection, record validation and report figures of the
//! orchestrator.

use ckb_vm_interpreter::orchestrator::millions_parts;
use ckb_vm_interpreter::orchestrator::outer_cycles;
use ckb_vm_interpreter::orchestrator::record_width;
use ckb_vm_interpreter::orchestrator::select_mode;
use ckb_vm_interpreter::orchestrator::summarize_minimal_run;
use ckb_vm_interpreter::orchestrator::summarize_run;
use ckb_vm_interpreter::orchestrator::ProgramVariant;
use ckb_vm_interpreter::orchestrator::RunMode;
use ckb_vm_interpreter::orchestrator::UsageError;
use ckb_vm_interpreter::orchestrator::ValidationError;

#[test]
fn exactly_one_flag_selects_its_mode() {
    assert_eq!(select_mode(true, false, false), Ok(RunMode::Execute));
    assert_eq!(select_mode(false, true, false), Ok(RunMode::Prove));
    assert_eq!(select_mode(false, false, true), Ok(RunMode::MinimalExecute));
}

#[test]
fn zero_flags_are_a_usage_error() {
    assert_eq!(select_mode(false, false, false), Err(UsageError::ModeFlags));
}

#[test]
fn two_or_more_flags_are_a_usage_error() {
    assert_eq!(select_mode(true, true, false), Err(UsageError::ModeFlags));
    assert_eq!(select_mode(true, false, true), Err(UsageError::ModeFlags));
    assert_eq!(select_mode(false, true, true), Err(UsageError::ModeFlags));
    assert_eq!(select_mode(true, true, true), Err(UsageError::ModeFlags));
}

#[test]
fn record_widths_per_variant() {
    assert_eq!(record_width(ProgramVariant::Native), 1);
    assert_eq!(record_width(ProgramVariant::Vm), 9);
}

#[test]
fn vm_summary_reports_exit_and_cycles() {
    // Exit code 0, cycle count 994360 little-endian.
    let mut public_values = vec![0u8];
    public_values.extend_from_slice(&994360u64.to_le_bytes());
    let image = vec![1u8, 2, 3];
    let summary =
        summarize_run(ProgramVariant::Vm, &public_values, &image).expect("valid record");
    assert_eq!(summary.exit_code, 0);
    assert_eq!(summary.inner_cycles, Some(994360));
    assert_eq!(summary.digest_hex.len(), 64);
}

#[test]
fn native_summary_has_no_cycle_count() {
    let public_values = vec![0u8];
    let image = vec![9u8];
    let summary =
        summarize_run(ProgramVariant::Native, &public_values, &image).expect("valid record");
    assert_eq!(summary.exit_code, 0);
    assert_eq!(summary.inner_cycles, None);
}

#[test]
fn nonzero_exit_fails_validation() {
    let mut public_values = vec![1u8];
    public_values.extend_from_slice(&[0u8; 8]);
    let image = vec![];
    let r = summarize_run(ProgramVariant::Vm, &public_values, &image);
    assert_eq!(r.err(), Some(ValidationError::InnerExitNonZero));
}

#[test]
fn truncated_record_fails_validation() {
    let public_values = vec![0u8; 5];
    let image = vec![];
    let r = summarize_run(ProgramVariant::Vm, &public_values, &image);
    assert_eq!(r.err(), Some(ValidationError::TruncatedRecord));
    let empty: Vec<u8> = Vec::new();
    let r = summarize_run(ProgramVariant::Native, &empty, &image);
    assert_eq!(r.err(), Some(ValidationError::TruncatedRecord));
}

#[test]
fn minimal_summary_checks_both_exit_codes() {
    let mut public_values = vec![0u8];
    public_values.extend_from_slice(&42u64.to_le_bytes());
    let good = summarize_minimal_run(ProgramVariant::Vm, &public_values, 1000, 77, 0)
        .expect("valid minimal run");
    assert_eq!(good.exit_code, 0);
    assert_eq!(good.inner_cycles, Some(42));
    assert_eq!(good.outer_steps, 1000);
    assert_eq!(good.total_gas, 77);

    let outer_bad = summarize_minimal_run(ProgramVariant::Vm, &public_values, 1000, 77, 3);
    assert_eq!(outer_bad.err(), Some(ValidationError::OuterExitNonZero));

    let mut bad_values = vec![5u8];
    bad_values.extend_from_slice(&42u64.to_le_bytes());
    let inner_bad = summarize_minimal_run(ProgramVariant::Vm, &bad_values, 1000, 77, 3);
    assert_eq!(inner_bad.err(), Some(ValidationError::InnerExitNonZero));
}

#[test]
fn outer_cycles_are_eight_per_instruction() {
    assert_eq!(outer_cycles(0), 0);
    assert_eq!(outer_cycles(5), 40);
    assert_eq!(outer_cycles(u64::MAX), (u64::MAX as u128) * 8);
}

#[test]
fn millions_parts_are_exact() {
    assert_eq!(millions_parts(0), (0, 0));
    assert_eq!(millions_parts(12_345_678), (12, 34));
    assert_eq!(millions_parts(999_999), (0, 99));
    assert_eq!(millions_parts(1_000_000), (1, 0));
}
