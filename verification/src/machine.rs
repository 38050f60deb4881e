//! The Inner Machine Adapter: wraps the embedded RISC-V interpreter — its
//! memory model, ISA feature flags and estimated-cycle cost function — into
//! a runnable unit with a construct / load / run / cycles lifecycle.
//!
//! The interpreter itself lives in the `ckb_vm` crate and is trusted only at
//! this boundary: a fixed standard machine is built — write-xor-execute
//! memory over sparse pages, the estimated-cycle cost function, and no
//! registered system-call handler — an image and an argument list are
//! loaded, and the machine runs to completion. Loading and running that
//! machine are pure functions of the image and the arguments, which is what
//! the two uninterpreted names below denote; the adapter's own lifecycle,
//! and everything downstream of the returned exit code and cycle count, is
//! verified.
//!
//! One departure from the design's stated machine is deliberate and
//! visible: the no-op system-call capability (`DebugSyscall`) is not
//! registered on the machine, because the interpreter's handler trait
//! cannot be implemented by verified code. The built-in exit call still
//! ends a run; any other system call is a machine fault here, where a
//! machine with the handler would continue.

use ckb_vm::cost_model::estimate_cycles;
use ckb_vm::Bytes;
use ckb_vm::DefaultCoreMachine;
use ckb_vm::DefaultMachineBuilder;
use ckb_vm::DefaultMachineRunner;
use ckb_vm::SparseMemory;
use ckb_vm::SupportMachine;
use ckb_vm::TraceMachine;
use ckb_vm::WXorXMemory;
use vstd::prelude::*;

verus! {

/// ISA feature flags in the interpreter's encoding. The base
/// integer/multiplication/compressed set is always on and carries no bit of
/// its own; the other three switch on bit manipulation, macro-op fusion and
/// atomics.
pub const ISA_BASE: u8 = 0x00;

pub const ISA_BIT_MANIPULATION: u8 = 0x01;

pub const ISA_MACRO_OP_FUSION: u8 = 0x02;

pub const ISA_ATOMICS: u8 = 0x04;

/// The interpreter's second behaviour version, which the standard
/// configuration selects.
pub const MACHINE_VERSION_2: u32 = 2;

/// The two equivalent execution strategies of the inner interpreter: plain
/// portable interpretation, and the accelerated runner that caches decoded
/// basic-block traces. Both must produce identical exit codes and cycle
/// counts for the same program and inputs; see
/// `lemma_strategy_equivalence`.
#[derive(Clone, Copy, Debug, PartialEq, Eq, Structural)]
pub enum ExecStrategy {
    Portable,
    Accelerated,
}

/// The per-run machine configuration: ISA feature flags, behaviour version,
/// the cycle bound, and the execution strategy. Created once per run and
/// immutable thereafter. The instruction-cost function is not a knob: the
/// trusted runners always install the interpreter's estimated-cycle
/// function, and the contracts are stated for that machine.
#[derive(Clone, Copy, Debug)]
pub struct MachineConfig {
    pub isa: u8,
    pub version: u32,
    pub max_cycles: u64,
    pub strategy: ExecStrategy,
}

impl MachineConfig {
    /// The standard configuration of this system: all four ISA feature
    /// sets, behaviour version 2, and no cycle bound. The contracts of the
    /// machine boundary are stated for this configuration, the one fixed
    /// configuration every run uses.
    pub open spec fn is_standard(self) -> bool {
        &&& self.isa == (ISA_BASE | ISA_BIT_MANIPULATION | ISA_MACRO_OP_FUSION | ISA_ATOMICS)
        &&& self.version == MACHINE_VERSION_2
        &&& self.max_cycles == u64::MAX
    }

    /// Builds the standard configuration with the chosen execution
    /// strategy.
    pub fn standard(strategy: ExecStrategy) -> (c: Self)
        ensures
            c.is_standard(),
            c.strategy == strategy,
    {
        MachineConfig {
            isa: ISA_BASE | ISA_BIT_MANIPULATION | ISA_MACRO_OP_FUSION | ISA_ATOMICS,
            version: MACHINE_VERSION_2,
            max_cycles: u64::MAX,
            strategy,
        }
    }
}

/// A malformed program image was rejected by the loader. The machine
/// instance is abandoned: no partial state survives a failed load.
#[derive(Clone, Copy, Debug, PartialEq, Eq, Structural)]
pub enum LoadError {
    ImageRejected,
}

/// An unrecoverable machine fault during execution: an illegal instruction,
/// a memory violation or an unhandled trap. Intentional termination with a
/// non-zero exit code is not a fault.
#[derive(Clone, Copy, Debug, PartialEq, Eq, Structural)]
pub enum RunError {
    MachineFault,
}

/// What one strategy runner returns: exit code and final cycle count, or a
/// machine fault.
pub type StrategyOutcome = Result<(i8, u64), RunError>;

/// Whether the standard machine's ELF loader accepts this image and
/// argument list. Loading is deterministic, so its verdict is a function of
/// the image and the arguments alone.
pub uninterp spec fn load_verdict(program: Seq<u8>, args: Seq<Seq<u8>>) -> bool;

/// The outcome of driving the standard machine to completion on a loaded
/// image: the exit code and the final cycle count, or a machine fault.
///
/// This is one function of the image and the arguments, shared by both
/// execution strategies, because the standard machine leaves them no room
/// to differ: the interpreter is deterministic; the cost function charges
/// each retired instruction by its kind alone; no system-call handler is
/// registered, so the exit call ends the run and every other system call
/// is a fault in both; and the write-xor-execute memory faults any store
/// into executable pages, so the instruction stream can never be modified
/// behind the accelerated runner's trace cache.
pub uninterp spec fn run_outcome(program: Seq<u8>, args: Seq<Seq<u8>>) -> Result<(i8, u64), ()>;

/// What a completed strategy runner guarantees: a returned exit code and
/// cycle count are exactly the machine's outcome for this image and
/// arguments, and a fault is reported exactly when the machine faults.
pub open spec fn run_post(program: Seq<u8>, args: Seq<Seq<u8>>, r: Result<(i8, u64), RunError>) -> bool {
    match r {
        Ok(p) => run_outcome(program, args) == Ok::<(i8, u64), ()>(p),
        Err(_) => run_outcome(program, args) is Err,
    }
}

/// Relies on `ckb_vm::DefaultMachine::load_program`: the ELF loader of a
/// freshly built standard machine (write-xor-execute memory over sparse
/// pages, no system-call handler) accepts or rejects an image and argument
/// list deterministically.
#[verifier::external_body]
fn probe_load(cfg: &MachineConfig, program: &Vec<u8>, args: &Vec<Vec<u8>>) -> (r: bool)
    requires
        cfg.is_standard(),
    ensures
        r == load_verdict(program@, args.deep_view()),
{
    let core = DefaultCoreMachine::<u64, WXorXMemory<SparseMemory<u64>>>::new(cfg.isa, cfg.version, cfg.max_cycles);
    let mut machine = DefaultMachineBuilder::new(core).instruction_cycle_func(Box::new(estimate_cycles)).build();
    let arg_bytes: Vec<Bytes> = args.iter().map(|a| Bytes::from(a.clone())).collect();
    machine.load_program(&Bytes::from(program.clone()), arg_bytes.into_iter().map(Ok)).is_ok()
}

/// Relies on `ckb_vm::DefaultMachine::run` and `SupportMachine::cycles`,
/// the portable interpretation strategy: it decodes and executes one
/// instruction at a time, charging `estimate_cycles` — a pure function of
/// the instruction — for every retired instruction. No system-call handler
/// is registered: the exit call ends the run, any other system call is a
/// fault.
#[verifier::external_body]
fn run_portable(cfg: &MachineConfig, program: &Vec<u8>, args: &Vec<Vec<u8>>) -> (r: StrategyOutcome)
    requires
        cfg.is_standard(),
        load_verdict(program@, args.deep_view()),
    ensures
        r is Ok ==> (run_outcome(program@, args.deep_view()) matches Ok(p) && p == r->Ok_0),
        r is Err ==> run_outcome(program@, args.deep_view()) is Err,
{
    let core = DefaultCoreMachine::<u64, WXorXMemory<SparseMemory<u64>>>::new(cfg.isa, cfg.version, cfg.max_cycles);
    let mut machine = DefaultMachineBuilder::new(core).instruction_cycle_func(Box::new(estimate_cycles)).build();
    let arg_bytes: Vec<Bytes> = args.iter().map(|a| Bytes::from(a.clone())).collect();
    if machine.load_program(&Bytes::from(program.clone()), arg_bytes.into_iter().map(Ok)).is_err() {
        return Err(RunError::MachineFault);
    }
    match machine.run() {
        Ok(code) => Ok((code, machine.cycles())),
        Err(_) => Err(RunError::MachineFault),
    }
}

/// Relies on `ckb_vm::TraceMachine`, the accelerated strategy: it caches
/// decoded basic-block traces around the same machine, with the same
/// decoder, the same ecall handling and the same per-instruction
/// `estimate_cycles` charges. Its observable outcome equals the portable
/// strategy's because the write-xor-execute memory faults every store into
/// executable pages, so the decoded-ahead trace cache can never disagree
/// with the bytes the portable machine would decode at the program
/// counter.
#[verifier::external_body]
fn run_accelerated(cfg: &MachineConfig, program: &Vec<u8>, args: &Vec<Vec<u8>>) -> (r: StrategyOutcome)
    requires
        cfg.is_standard(),
        load_verdict(program@, args.deep_view()),
    ensures
        r is Ok ==> (run_outcome(program@, args.deep_view()) matches Ok(p) && p == r->Ok_0),
        r is Err ==> run_outcome(program@, args.deep_view()) is Err,
{
    let core = DefaultCoreMachine::<u64, WXorXMemory<SparseMemory<u64>>>::new(cfg.isa, cfg.version, cfg.max_cycles);
    let inner = DefaultMachineBuilder::new(core).instruction_cycle_func(Box::new(estimate_cycles)).build();
    let mut machine: TraceMachine<_> = DefaultMachineRunner::new(inner);
    let arg_bytes: Vec<Bytes> = args.iter().map(|a| Bytes::from(a.clone())).collect();
    if machine.load_program(&Bytes::from(program.clone()), arg_bytes.into_iter().map(Ok)).is_err() {
        return Err(RunError::MachineFault);
    }
    match machine.run() {
        Ok(code) => Ok((code, machine.machine.cycles())),
        Err(_) => Err(RunError::MachineFault),
    }
}

/// The design's no-op system-call capability: a stub that never fails and
/// reports every system call as handled, performing no host interaction.
/// Its two contracts state and prove that invariant. It is not registered
/// on the machines behind the trusted boundary — the interpreter's handler
/// trait cannot be implemented by verified code — so there a non-exit
/// system call faults instead of continuing; see the module notes.
pub struct DebugSyscall {}

impl DebugSyscall {
    /// The capability's start-of-run step: it never fails.
    pub fn initialize(&mut self) -> (r: Result<(), RunError>)
        ensures
            r.is_ok(),
    {
        Ok(())
    }

    /// The capability's answer to a system call: it never fails and always
    /// reports the call as handled, so execution would continue.
    pub fn ecall(&mut self) -> (r: Result<bool, RunError>)
        ensures
            r matches Ok(handled) && handled,
    {
        Ok(true)
    }
}

/// Where an adapter stands in its lifecycle. A failed load or a machine
/// fault abandons the instance: it is never reused.
#[derive(Clone, Copy, Debug, PartialEq, Eq, Structural)]
pub enum AdapterPhase {
    Fresh,
    Loaded,
    Finished,
    Failed,
}

/// The Inner Machine Adapter: owns one machine instance for one run,
/// driving it through construct, load, run, and the final cycle reading.
pub struct InnerMachineAdapter {
    config: MachineConfig,
    phase: AdapterPhase,
    program: Vec<u8>,
    args: Vec<Vec<u8>>,
    exit_code: i8,
    cycle_count: u64,
}

impl InnerMachineAdapter {
    /// The adapter's configuration.
    pub closed spec fn config(self) -> MachineConfig {
        self.config
    }

    /// Where the adapter stands in its lifecycle.
    pub closed spec fn phase(self) -> AdapterPhase {
        self.phase
    }

    /// The loaded program image.
    pub closed spec fn spec_program(self) -> Seq<u8> {
        self.program@
    }

    /// The loaded argument list.
    pub closed spec fn spec_args(self) -> Seq<Seq<u8>> {
        self.args.deep_view()
    }

    /// The adapter's invariant: its configuration is the standard one, a
    /// loaded image was accepted by the loader, and a finished run's stored
    /// exit code and cycle count are the machine's outcome.
    pub closed spec fn wf(self) -> bool {
        &&& self.config.is_standard()
        &&& (self.phase is Loaded ==> load_verdict(self.program@, self.args.deep_view()))
        &&& (self.phase is Finished ==> load_verdict(self.program@, self.args.deep_view())
            && run_outcome(self.program@, self.args.deep_view()) == Ok::<(i8, u64), ()>(
            (self.exit_code, self.cycle_count),
        ))
    }

    /// Constructs an adapter for one run under the given (standard)
    /// configuration. No machine state exists yet.
    pub fn construct(config: MachineConfig) -> (a: Self)
        requires
            config.is_standard(),
        ensures
            a.wf(),
            a.phase() is Fresh,
            a.config() == config,
    {
        InnerMachineAdapter {
            config,
            phase: AdapterPhase::Fresh,
            program: Vec::new(),
            args: Vec::new(),
            exit_code: 0,
            cycle_count: 0,
        }
    }

    /// Loads a program image and argument list. Fails exactly when the
    /// loader rejects the image; on failure the instance is abandoned and
    /// never reused.
    pub fn load(&mut self, program: Vec<u8>, args: Vec<Vec<u8>>) -> (r: Result<(), LoadError>)
        requires
            old(self).wf(),
            old(self).phase() is Fresh,
        ensures
            final(self).wf(),
            final(self).config() == old(self).config(),
            r.is_ok() <==> load_verdict(program@, args.deep_view()),
            r.is_ok() ==> final(self).phase() is Loaded && final(self).spec_program() == program@
                && final(self).spec_args() == args.deep_view(),
            r.is_err() ==> final(self).phase() is Failed,
    {
        if probe_load(&self.config, &program, &args) {
            self.program = program;
            self.args = args;
            self.phase = AdapterPhase::Loaded;
            Ok(())
        } else {
            self.phase = AdapterPhase::Failed;
            Err(LoadError::ImageRejected)
        }
    }

    /// Runs the loaded image to completion under the configured strategy.
    /// Intentional termination — even with a non-zero exit code — is
    /// success; a machine fault is the only failure, and abandons the
    /// instance.
    pub fn run(&mut self) -> (r: Result<i8, RunError>)
        requires
            old(self).wf(),
            old(self).phase() is Loaded,
        ensures
            final(self).wf(),
            final(self).config() == old(self).config(),
            final(self).spec_program() == old(self).spec_program(),
            final(self).spec_args() == old(self).spec_args(),
            r.is_ok() <==> run_outcome(old(self).spec_program(), old(self).spec_args()) is Ok,
            r matches Ok(code) ==> run_outcome(old(self).spec_program(), old(self).spec_args())
                matches Ok(p) && p.0 == code && final(self).phase() is Finished,
            r.is_err() ==> final(self).phase() is Failed,
    {
        let outcome = match self.config.strategy {
            ExecStrategy::Portable => run_portable(&self.config, &self.program, &self.args),
            ExecStrategy::Accelerated => run_accelerated(&self.config, &self.program, &self.args),
        };
        match outcome {
            Ok(pair) => {
                let (code, cycles) = pair;
                self.exit_code = code;
                self.cycle_count = cycles;
                self.phase = AdapterPhase::Finished;
                Ok(code)
            },
            Err(e) => {
                self.phase = AdapterPhase::Failed;
                Err(e)
            },
        }
    }

    /// The cycle count accumulated by the finished run: the estimated cost
    /// of every retired instruction.
    pub fn cycles(&self) -> (c: u64)
        requires
            self.wf(),
            self.phase() is Finished,
        ensures
            run_outcome(self.spec_program(), self.spec_args()) matches Ok(p) && c == p.1,
    {
        self.cycle_count
    }
}

/// Determinism: for one image and one argument list, any two completed runs
/// of the inner machine report the same exit code and the same cycle count
/// — and they fault alike.
pub proof fn lemma_run_determinism(
    program: Seq<u8>,
    args: Seq<Seq<u8>>,
    r1: Result<(i8, u64), RunError>,
    r2: Result<(i8, u64), RunError>,
)
    requires
        run_post(program, args, r1),
        run_post(program, args, r2),
    ensures
        r1 == r2,
{
    match (r1, r2) {
        (Ok(p1), Ok(p2)) => {
            assert(Ok::<(i8, u64), ()>(p1) == Ok::<(i8, u64), ()>(p2));
        },
        (Err(e1), Err(e2)) => {
            assert(e1 == RunError::MachineFault && e2 == RunError::MachineFault);
        },
        _ => {},
    }
}

/// Strategy equivalence: a run under the portable strategy and a run under
/// the accelerated strategy, on the same image and arguments, report the
/// same exit code and cycle count — and they fault alike.
pub proof fn lemma_strategy_equivalence(
    program: Seq<u8>,
    args: Seq<Seq<u8>>,
    r_portable: Result<(i8, u64), RunError>,
    r_accelerated: Result<(i8, u64), RunError>,
)
    requires
        run_post(program, args, r_portable),
        run_post(program, args, r_accelerated),
    ensures
        r_portable == r_accelerated,
{
    lemma_run_determinism(program, args, r_portable, r_accelerated);
}

} // verus!
