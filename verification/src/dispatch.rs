//! Completion of a dispatched invocation: how the host resolves the race
//! between the worker finishing and an external interrupt, and how a status
//! code returned across the foreign boundary is interpreted.

use vstd::prelude::*;
use crate::errors::LoadError;

verus! {

/// What the host observed while waiting on a backgrounded invocation: either
/// the worker's join completed, in one of three ways, or an external
/// interrupt won the race.
#[derive(Debug, Clone, Copy, PartialEq, Eq)]
pub enum WaitOutcome {
    /// The worker thread joined after the foreign call returned normally.
    Completed,
    /// The worker thread ended abnormally: the foreign call faulted.
    WorkerFault,
    /// The joining machinery itself failed before reporting the worker's end.
    JoinFailed,
    /// An external interrupt was observed first. The foreign call may still
    /// be running: no mechanism exists to terminate it safely across the
    /// boundary, so the interrupt only stops the waiting, never the call.
    Interrupted,
}

/// The workflow result each wait outcome earns. An interrupt is not an error
/// of the workflow: the host merely stops waiting and leaves the foreign
/// call's own shutdown handling responsible for eventually returning. Either
/// abnormal end of the worker is `ThreadJoinFailure`, distinct from a clean
/// failed return since no status code is available.
pub open spec fn spec_resolve_wait(outcome: WaitOutcome) -> Result<(), LoadError> {
    match outcome {
        WaitOutcome::Completed => Ok(()),
        WaitOutcome::WorkerFault => Err(LoadError::ThreadJoinFailure),
        WaitOutcome::JoinFailed => Err(LoadError::ThreadJoinFailure),
        WaitOutcome::Interrupted => Ok(()),
    }
}

/// Resolve the completion race between the worker and an external interrupt.
pub fn resolve_wait(outcome: WaitOutcome) -> (r: Result<(), LoadError>)
    ensures
        r == spec_resolve_wait(outcome),
        r is Ok <==> (outcome is Completed || outcome is Interrupted),
        (outcome is WorkerFault || outcome is JoinFailed) ==> (r matches Err(e)
            && e is ThreadJoinFailure),
{
    match outcome {
        WaitOutcome::Completed => Ok(()),
        WaitOutcome::WorkerFault => Err(LoadError::ThreadJoinFailure),
        WaitOutcome::JoinFailed => Err(LoadError::ThreadJoinFailure),
        WaitOutcome::Interrupted => Ok(()),
    }
}

/// Interpret a status code returned by a foreign entry point whose contract
/// defines a non-void return acting as a status: zero is success, any other
/// value is a foreign-reported failure carrying that code.
pub fn classify_foreign_status(status: i32) -> (r: Result<(), LoadError>)
    ensures
        status == 0 <==> r is Ok,
        status != 0 ==> (r matches Err(e) && e matches LoadError::ForeignCallFailure(c) && c
            == status),
{
    if status == 0 {
        Ok(())
    } else {
        Err(LoadError::ForeignCallFailure(status))
    }
}

/// Arguments for the foreign runtime are conveyed by the foreign side itself,
/// not set from the host; this step of the invocation protocol therefore has
/// nothing to do and always succeeds. Kept explicit so the call sequence
/// around the plain entry point reads as the protocol prescribes.
pub fn set_go_args() -> (r: Result<(), LoadError>)
    ensures
        r is Ok,
{
    Ok(())
}

} // verus!
