//! Failure taxonomy: how a job reacts to a failed remote call, instead of
//! treating every failure as fatal.

use vstd::prelude::*;

verus! {

/// How a remote call failed.
#[derive(Clone, Copy, Debug, PartialEq, Eq, Structural)]
pub enum FailureKind {
    /// A timeout or a refused connection: the operation may succeed later.
    Transient,
    /// A schema or validation failure, or a malformed action: retrying
    /// cannot help.
    Permanent,
    /// One of a tick's node dispatches failed; the others are unaffected.
    PartialDispatch,
}

/// What the job does about a failure.
#[derive(Clone, Copy, Debug, PartialEq, Eq, Structural)]
pub enum FailureResponse {
    /// Keep the job alive and retry the operation with backoff.
    Retry,
    /// Abort the job and surface the error to the invoking layer.
    AbortJob,
    /// Continue the tick's remaining dispatches and report the failed
    /// subset through the event sink.
    ContinueOthers,
}

/// The reaction to each kind of failure: transient failures are retried
/// with the job kept alive, permanent ones abort the job, and a failure of
/// one node's dispatch within a tick costs only that dispatch.
pub fn failure_response(kind: FailureKind) -> (r: FailureResponse)
    ensures
        kind is Transient ==> r == FailureResponse::Retry,
        kind is Permanent ==> r == FailureResponse::AbortJob,
        kind is PartialDispatch ==> r == FailureResponse::ContinueOthers,
{
    match kind {
        FailureKind::Transient => FailureResponse::Retry,
        FailureKind::Permanent => FailureResponse::AbortJob,
        FailureKind::PartialDispatch => FailureResponse::ContinueOthers,
    }
}

} // verus!
