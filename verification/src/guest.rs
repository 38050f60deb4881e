//! The Guest Entry Point: the program running inside the outer proof
//! environment. It constructs the Inner Machine Adapter under the standard
//! configuration, loads the fixed program image with an empty argument list,
//! runs it to completion, and commits exactly two values in order — the exit
//! code, then the cycle count — as the run's Public Output Record. A load or
//! run failure aborts the whole guest run: no partial record is ever
//! produced.

use crate::machine::ExecStrategy;
use crate::machine::InnerMachineAdapter;
use crate::machine::LoadError;
use crate::machine::MachineConfig;
use crate::machine::RunError;
use crate::machine::load_verdict;
use crate::machine::run_outcome;
use crate::outputs::PublicOutputRecord;
use crate::outputs::encode_record;
use crate::outputs::record_bytes;
use vstd::prelude::*;

verus! {

/// Why a guest run aborted: the image was rejected by the loader, or the
/// machine faulted. Either way, nothing was committed.
#[derive(Clone, Copy, Debug, PartialEq, Eq, Structural)]
pub enum GuestError {
    Load(LoadError),
    Run(RunError),
}

/// The record a guest run commits for an image, if it commits at all: the
/// wire form of (exit code, cycle count), in that order, for the machine's
/// outcome on the image with an empty argument list.
pub open spec fn guest_record(image: Seq<u8>) -> Option<Seq<u8>> {
    if load_verdict(image, Seq::empty()) {
        match run_outcome(image, Seq::empty()) {
            Ok(p) => Some(record_bytes(p.0, p.1)),
            Err(_) => None,
        }
    } else {
        None
    }
}

/// One whole guest run: construct the adapter, load the image with no
/// arguments, run to completion, and commit the exit code followed by the
/// cycle count. Fails — committing nothing — exactly when the loader
/// rejects the image or the machine faults.
pub fn guest_run(image: &Vec<u8>, strategy: ExecStrategy) -> (r: Result<Vec<u8>, GuestError>)
    ensures
        r is Ok <==> guest_record(image@) is Some,
        r matches Ok(out) ==> guest_record(image@) == Some(out@),
        (r matches Err(e) && e matches GuestError::Load(_)) <==> !load_verdict(
            image@,
            Seq::empty(),
        ),
        (r matches Err(e) && e matches GuestError::Run(_)) <==> (load_verdict(image@, Seq::empty())
            && run_outcome(image@, Seq::empty()) is Err),
{
    let config = MachineConfig::standard(strategy);
    let mut adapter = InnerMachineAdapter::construct(config);
    let args: Vec<Vec<u8>> = Vec::new();
    proof {
        assert(args.deep_view() =~= Seq::<Seq<u8>>::empty());
    }
    if let Err(e) = adapter.load(image.clone(), args) {
        return Err(GuestError::Load(e));
    }
    let exit_code = match adapter.run() {
        Ok(code) => code,
        Err(e) => {
            return Err(GuestError::Run(e));
        },
    };
    let cycle_count = adapter.cycles();
    let record = PublicOutputRecord { exit_code, cycle_count };
    Ok(encode_record(&record))
}

/// Determinism: for one image (and the fixed empty argument list), any two
/// guest runs that commit at all commit identical records.
pub proof fn lemma_guest_determinism(image: Seq<u8>, out1: Seq<u8>, out2: Seq<u8>)
    requires
        guest_record(image) == Some(out1),
        guest_record(image) == Some(out2),
    ensures
        out1 == out2,
{
}

} // verus!
