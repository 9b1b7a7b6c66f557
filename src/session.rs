//! What a connection's worker does after each call it has processed.
use vstd::prelude::*;
use crate::status::{Error, TransportErrorKind};

verus! {

/// The next step of a connection's worker.
#[derive(Clone, Copy, Debug, PartialEq, Eq, Structural)]
pub enum WorkerStep {
    /// Read the next call.
    Continue,
    /// The peer closed the connection: stop, with nothing to report.
    Closed,
    /// The connection broke: stop and report the fault; other connections
    /// and the acceptor go on.
    Failed,
}

/// Whether a fault is the peer's clean end of the stream.
pub open spec fn is_end_of_stream(e: Error) -> bool {
    e matches Error::Transport { kind, .. } && kind == TransportErrorKind::EndOfFile
}

/// The worker's step after processing one call ended in `outcome`: go on
/// after a call that was answered, stop quietly at the end of the stream,
/// stop with an error on any other fault.
pub fn worker_step(outcome: &Result<(), Error>) -> (r: WorkerStep)
    ensures
        outcome is Ok ==> r == WorkerStep::Continue,
        outcome matches Err(e) && is_end_of_stream(*e) ==> r == WorkerStep::Closed,
        outcome matches Err(e) && !is_end_of_stream(*e) ==> r == WorkerStep::Failed,
{
    match outcome {
        Ok(()) => WorkerStep::Continue,
        Err(Error::Transport { kind: TransportErrorKind::EndOfFile, .. }) => WorkerStep::Closed,
        Err(_) => WorkerStep::Failed,
    }
}

} // verus!
