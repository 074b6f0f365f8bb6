//! The handle of the supervised child process and the operations the
//! supervisor performs on it.
//!
//! The operations are calls into the `subprocess` crate. Their contracts are
//! taken from that crate's source and are not proved here; everything built
//! on them is.

use vstd::prelude::*;
use crate::status::ChildStatus;

verus! {

/// The parent's handle of a launched child process.
#[verifier::external_type_specification]
#[verifier::external_body]
pub struct ExPopen(subprocess::Popen);

/// The error that a wait on the child reports.
#[verifier::external_type_specification]
#[verifier::external_body]
pub struct ExPopenError(subprocess::PopenError);

/// The error that sending a signal to the child reports.
#[verifier::external_type_specification]
#[verifier::external_body]
pub struct ExIoError(std::io::Error);

/// The termination status that a handle has recorded for its child: `None`
/// while the child is, as far as the handle knows, still running. This is
/// what `subprocess::Popen::exit_status` returns.
pub uninterp spec fn recorded_status(child: subprocess::Popen) -> Option<ChildStatus>;

/// The longest bounded wait, in milliseconds, that the supervisor asks for:
/// `u32::MAX` seconds. A wait computes its deadline on the monotonic clock,
/// which cannot represent instants arbitrarily far in the future.
pub const MAX_WAIT_MILLIS: u64 = 4_294_967_295_000;

/// Calls `subprocess::Popen::wait_timeout` with a timeout of `millis`
/// milliseconds.
///
/// As that method's source shows: a status that was recorded before is
/// returned again and nothing changes; otherwise `Ok(Some(..))` comes with
/// the status now recorded in the handle, `Ok(None)` with a handle that has
/// still recorded none, and an error leaves the handle as it was. The method
/// adds the timeout to the current instant, which panics when the sum cannot
/// be represented: the bound on `millis` keeps away from that.
#[verifier::external_body]
pub(crate) fn wait_timeout(child: &mut subprocess::Popen, millis: u64) -> (polled: Result<
    Option<ChildStatus>,
    subprocess::PopenError,
>)
    requires
        millis <= MAX_WAIT_MILLIS,
    ensures
        polled matches Ok(seen) ==> recorded_status(*final(child)) == seen,
        polled is Err ==> recorded_status(*final(child)) == recorded_status(*old(child)),
        recorded_status(*old(child)) is Some ==> polled is Ok && recorded_status(*final(child))
            == recorded_status(*old(child)),
{
    match child.wait_timeout(std::time::Duration::from_millis(millis)) {
        Ok(Some(subprocess::ExitStatus::Exited(code))) => Ok(Some(ChildStatus::Exited(code))),
        Ok(Some(subprocess::ExitStatus::Signaled(signal))) => Ok(Some(ChildStatus::Signaled(signal))),
        Ok(Some(subprocess::ExitStatus::Other(raw))) => Ok(Some(ChildStatus::Other(raw))),
        Ok(Some(subprocess::ExitStatus::Undetermined)) => Ok(Some(ChildStatus::Undetermined)),
        Ok(None) => Ok(None),
        Err(error) => Err(error),
    }
}

/// Calls `subprocess::Popen::wait`, which blocks until the child has ended.
///
/// As that method's source shows: a status that was recorded before is
/// returned again and nothing changes; otherwise the status that is returned
/// is the one now recorded in the handle, and an error leaves the handle as
/// it was.
#[verifier::external_body]
pub(crate) fn wait(child: &mut subprocess::Popen) -> (waited: Result<
    ChildStatus,
    subprocess::PopenError,
>)
    ensures
        waited matches Ok(status) ==> recorded_status(*final(child)) == Some(status),
        waited is Err ==> recorded_status(*final(child)) == recorded_status(*old(child)),
        recorded_status(*old(child)) is Some ==> waited is Ok && recorded_status(*final(child))
            == recorded_status(*old(child)),
{
    match child.wait() {
        Ok(subprocess::ExitStatus::Exited(code)) => Ok(ChildStatus::Exited(code)),
        Ok(subprocess::ExitStatus::Signaled(signal)) => Ok(ChildStatus::Signaled(signal)),
        Ok(subprocess::ExitStatus::Other(raw)) => Ok(ChildStatus::Other(raw)),
        Ok(subprocess::ExitStatus::Undetermined) => Ok(ChildStatus::Undetermined),
        Err(error) => Err(error),
    }
}

/// Calls `subprocess::Popen::terminate`, which sends the child the
/// termination signal that it may catch.
///
/// As that method's source shows, nothing is sent to a child whose status
/// is recorded already: the call succeeds and the record stays.
#[verifier::external_body]
pub(crate) fn terminate(child: &mut subprocess::Popen) -> (sent: Result<(), std::io::Error>)
    ensures
        recorded_status(*old(child)) is Some ==> sent is Ok && recorded_status(*final(child))
            == recorded_status(*old(child)),
{
    child.terminate()
}

/// Calls `subprocess::Popen::kill`, which sends the child the kill signal
/// that it cannot catch.
///
/// As that method's source shows, nothing is sent to a child whose status
/// is recorded already: the call succeeds and the record stays.
#[verifier::external_body]
pub(crate) fn kill(child: &mut subprocess::Popen) -> (sent: Result<(), std::io::Error>)
    ensures
        recorded_status(*old(child)) is Some ==> sent is Ok && recorded_status(*final(child))
            == recorded_status(*old(child)),
{
    child.kill()
}

} // verus!
