//! What the supervisor observes of the child, and the ways an observation
//! can go wrong.

use vstd::prelude::*;
use crate::status::ChildStatus;

verus! {

/// What one operation on the child reported.
#[derive(Clone, Copy, Debug, PartialEq, Eq, Structural)]
pub enum Event {
    /// A bounded wait elapsed and the child had not ended.
    StillRunning,
    /// A wait saw that the child has ended, with this status.
    Exited(ChildStatus),
    /// A signal was handed to the operating system for delivery.
    SignalSent,
    /// The operation itself failed.
    Failed,
}

/// Why a run ended in an internal error.
#[derive(Clone, Copy, Debug, PartialEq, Eq, Structural)]
pub enum Fault {
    /// Waiting for the child failed.
    WaitFailed,
    /// The child ended with a status that has no normalised code.
    UndecodableStatus,
    /// The cooperative termination signal could not be sent.
    TerminateFailed,
    /// The forced kill signal could not be sent.
    KillFailed,
    /// An event arrived that the pending operation cannot produce.
    UnexpectedEvent,
}

} // verus!
