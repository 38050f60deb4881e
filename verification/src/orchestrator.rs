//! The Outer Orchestrator's decisions: mode selection over mutually
//! exclusive flags, the choice of program image variant, positional reading
//! of the guest's public record, and the validation of every exit code.
//! The host process around these decisions only performs I/O and reporting;
//! every rule it applies is here.

use crate::hashing::image_digest_hex;
use crate::hashing::sha256_of;
use crate::hexcodec::hex_bytes;
use crate::outputs::PublicOutputRecord;
use crate::outputs::read_i8_at;
use crate::outputs::read_u64_le_at;
use crate::outputs::spec_decode_record;
use vstd::bytes::spec_u64_from_le_bytes;
use vstd::prelude::*;

verus! {

/// The three modes of one orchestrator invocation, selected by mutually
/// exclusive flags.
#[derive(Clone, Copy, Debug, PartialEq, Eq, Structural)]
pub enum RunMode {
    /// Run the guest through the outer environment's fast execution path,
    /// without a proof.
    Execute,
    /// Run the full setup, prove and verify pipeline.
    Prove,
    /// Estimate the run's cost in chunks, without proof machinery.
    MinimalExecute,
}

/// A usage error, detected before any execution begins.
#[derive(Clone, Copy, Debug, PartialEq, Eq, Structural)]
pub enum UsageError {
    /// Zero, two or three of the mode flags were set; exactly one must be.
    ModeFlags,
}

/// How many mode flags are set.
pub open spec fn flags_set(execute: bool, prove: bool, minimal_execute: bool) -> int {
    (if execute {
        1int
    } else {
        0int
    }) + (if prove {
        1int
    } else {
        0int
    }) + (if minimal_execute {
        1int
    } else {
        0int
    })
}

/// Selects the run mode from the three flags. Exactly one must be set;
/// with zero or with two or more the invocation is rejected before any
/// execution side effect.
pub fn select_mode(execute: bool, prove: bool, minimal_execute: bool) -> (r: Result<
    RunMode,
    UsageError,
>)
    ensures
        r.is_ok() <==> flags_set(execute, prove, minimal_execute) == 1,
        r matches Ok(m) ==> (m is Execute <==> execute),
        r matches Ok(m) ==> (m is Prove <==> prove),
        r matches Ok(m) ==> (m is MinimalExecute <==> minimal_execute),
{
    match (execute, prove, minimal_execute) {
        (true, false, false) => Ok(RunMode::Execute),
        (false, true, false) => Ok(RunMode::Prove),
        (false, false, true) => Ok(RunMode::MinimalExecute),
        _ => Err(UsageError::ModeFlags),
    }
}

/// The two program image variants the orchestrator can drive. Only the
/// image and its label differ between them; the orchestration logic never
/// assumes which program is loaded.
#[derive(Clone, Copy, Debug, PartialEq, Eq, Structural)]
pub enum ProgramVariant {
    /// The target program runs directly in the outer environment.
    Native,
    /// The target program runs inside the embedded interpreter, which the
    /// outer environment executes.
    Vm,
}

/// The width of the public record a variant commits: the native variant
/// commits only the exit-code byte, the vm variant follows it with the
/// eight-byte cycle count.
pub open spec fn spec_record_width(variant: ProgramVariant) -> int {
    match variant {
        ProgramVariant::Native => 1,
        ProgramVariant::Vm => 9,
    }
}

/// The record width of a variant.
pub fn record_width(variant: ProgramVariant) -> (w: usize)
    ensures
        w == spec_record_width(variant),
{
    match variant {
        ProgramVariant::Native => 1,
        ProgramVariant::Vm => 9,
    }
}

/// A validation failure after a run completed: a correctness check that is
/// reported and never retried.
#[derive(Clone, Copy, Debug, PartialEq, Eq, Structural)]
pub enum ValidationError {
    /// The public-values stream holds less than the variant's record.
    TruncatedRecord,
    /// The guest's exit code is not the success value zero.
    InnerExitNonZero,
    /// The outer environment's own exit code is not the success value zero.
    OuterExitNonZero,
}

/// What one validated execution reports: the guest's exit code, its cycle
/// count where the variant commits one, and the image digest that ties the
/// result to the binary.
pub struct RunSummary {
    pub variant: ProgramVariant,
    pub exit_code: i8,
    pub inner_cycles: Option<u64>,
    pub digest_hex: Vec<u8>,
}

/// Reads the guest's public record positionally — the exit code from byte
/// 0, then, for the vm variant, the cycle count from the eight bytes after
/// it — validates that the exit code is zero, and renders the image
/// digest. Fails exactly when the record is truncated or the exit code is
/// non-zero.
pub fn summarize_run(variant: ProgramVariant, public_values: &Vec<u8>, image: &Vec<u8>) -> (r:
    Result<RunSummary, ValidationError>)
    ensures
        r.is_ok() <==> (public_values@.len() >= spec_record_width(variant) && public_values@[0]
            as i8 == 0),
        r matches Ok(s) ==> s.variant == variant && s.exit_code == 0 && s.digest_hex@ == hex_bytes(
            sha256_of(image@),
        ),
        r matches Ok(s) ==> (variant is Vm ==> (s.inner_cycles matches Some(c) && c
            == spec_u64_from_le_bytes(public_values@.subrange(1, 9)))),
        r matches Ok(s) ==> (variant is Native ==> s.inner_cycles is None),
        (r matches Err(e) && e is TruncatedRecord) <==> public_values@.len() < spec_record_width(
            variant,
        ),
        (r matches Err(e) && e is InnerExitNonZero) <==> (public_values@.len()
            >= spec_record_width(variant) && public_values@[0] as i8 != 0),
{
    let width = record_width(variant);
    if public_values.len() < width {
        return Err(ValidationError::TruncatedRecord);
    }
    let exit_code = match read_i8_at(public_values, 0) {
        Ok(v) => v,
        Err(_) => {
            return Err(ValidationError::TruncatedRecord);
        },
    };
    let inner_cycles = match variant {
        ProgramVariant::Native => None,
        ProgramVariant::Vm => {
            match read_u64_le_at(public_values, 1) {
                Ok(c) => Some(c),
                Err(_) => {
                    return Err(ValidationError::TruncatedRecord);
                },
            }
        },
    };
    if exit_code != 0 {
        return Err(ValidationError::InnerExitNonZero);
    }
    let digest_hex = image_digest_hex(image);
    Ok(RunSummary { variant, exit_code, inner_cycles, digest_hex })
}

/// What one validated minimal execution reports: the guest's record, and
/// the outer environment's own step count and accumulated gas total.
pub struct MinimalSummary {
    pub variant: ProgramVariant,
    pub exit_code: i8,
    pub inner_cycles: Option<u64>,
    pub outer_steps: u64,
    pub total_gas: u64,
}

/// Validates a completed minimal execution: reads the guest's record
/// positionally, then checks the guest's exit code and the outer
/// environment's own exit code, both of which must be the success value
/// zero. The guest's code is checked first.
pub fn summarize_minimal_run(
    variant: ProgramVariant,
    public_values: &Vec<u8>,
    outer_steps: u64,
    total_gas: u64,
    outer_exit: u32,
) -> (r: Result<MinimalSummary, ValidationError>)
    ensures
        r.is_ok() <==> (public_values@.len() >= spec_record_width(variant) && public_values@[0]
            as i8 == 0 && outer_exit == 0),
        r matches Ok(s) ==> s.variant == variant && s.exit_code == 0 && s.outer_steps == outer_steps
            && s.total_gas == total_gas,
        r matches Ok(s) ==> (variant is Vm ==> (s.inner_cycles matches Some(c) && c
            == spec_u64_from_le_bytes(public_values@.subrange(1, 9)))),
        r matches Ok(s) ==> (variant is Native ==> s.inner_cycles is None),
        (r matches Err(e) && e is TruncatedRecord) <==> public_values@.len() < spec_record_width(
            variant,
        ),
        (r matches Err(e) && e is InnerExitNonZero) <==> (public_values@.len()
            >= spec_record_width(variant) && public_values@[0] as i8 != 0),
        (r matches Err(e) && e is OuterExitNonZero) <==> (public_values@.len()
            >= spec_record_width(variant) && public_values@[0] as i8 == 0 && outer_exit != 0),
{
    let width = record_width(variant);
    if public_values.len() < width {
        return Err(ValidationError::TruncatedRecord);
    }
    let exit_code = match read_i8_at(public_values, 0) {
        Ok(v) => v,
        Err(_) => {
            return Err(ValidationError::TruncatedRecord);
        },
    };
    let inner_cycles = match variant {
        ProgramVariant::Native => None,
        ProgramVariant::Vm => {
            match read_u64_le_at(public_values, 1) {
                Ok(c) => Some(c),
                Err(_) => {
                    return Err(ValidationError::TruncatedRecord);
                },
            }
        },
    };
    if exit_code != 0 {
        return Err(ValidationError::InnerExitNonZero);
    }
    if outer_exit != 0 {
        return Err(ValidationError::OuterExitNonZero);
    }
    Ok(MinimalSummary { variant, exit_code, inner_cycles, outer_steps, total_gas })
}

/// The outer environment's cycle count: eight cycles for every executed
/// instruction.
pub fn outer_cycles(instructions: u64) -> (c: u128)
    ensures
        c == instructions * 8,
{
    (instructions as u128) * 8
}

/// Splits a figure into whole millions and hundredths of a million, for
/// reporting large instruction and cycle counts exactly, without rounding
/// drift.
pub fn millions_parts(v: u128) -> (p: (u128, u128))
    ensures
        p.0 == v / 1000000,
        p.1 == (v % 1000000) / 10000,
{
    (v / 1000000, (v % 1000000) / 10000)
}

} // verus!
