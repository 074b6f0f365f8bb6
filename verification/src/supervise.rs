//! Supervision of a launched child: the monitoring loop and the shutdown,
//! carried out on the child's handle.
//!
//! Every decision is taken by the state machines of [`crate::monitor`] and
//! [`crate::shutdown`]; the functions here perform the operations that the
//! machines ask for and hand back what the operations reported.

use vstd::prelude::*;
use crate::child::{kill, recorded_status, terminate, wait, wait_timeout, MAX_WAIT_MILLIS};
use crate::config::Config;
use crate::event::{Event, Fault};
use crate::latch::SignalLatch;
use crate::monitor::{
    conclude,
    poll_verdict,
    timeout_poll,
    timeout_poll_is_first_to_reach_budget,
    timeout_poll_is_unique,
    timeout_poll_lies_beyond,
    StopCause,
    Tick,
    Verdict,
};
use crate::shutdown::{ShutdownAction, ShutdownStage, ShutdownStep};
use crate::status::{normalized_code, ChildStatus, ExitReason, SupervisionOutcome};

verus! {

/// What a wait may report of a child whose handle had recorded `before` and
/// has recorded `after` when the wait returns.
pub open spec fn wait_reported(
    before: Option<ChildStatus>,
    after: Option<ChildStatus>,
    event: Event,
) -> bool {
    &&& event != Event::SignalSent
    &&& event matches Event::Exited(status) ==> after == Some(status)
    &&& event == Event::StillRunning ==> after is None
    &&& event == Event::Failed ==> after == before
    &&& before is Some ==> event is Exited && after == before
}

/// What sending a signal may report of a child whose handle had recorded
/// `before` and has recorded `after` when the call returns.
pub open spec fn signal_reported(
    before: Option<ChildStatus>,
    after: Option<ChildStatus>,
    event: Event,
) -> bool {
    &&& event == Event::SignalSent || event == Event::Failed
    &&& before is Some ==> event == Event::SignalSent && after == before
}

/// Waits for the child, for at most `millis` milliseconds, and says what
/// the wait reported.
pub fn await_child(child: &mut subprocess::Popen, millis: u64) -> (event: Event)
    requires
        millis <= MAX_WAIT_MILLIS,
    ensures
        wait_reported(recorded_status(*old(child)), recorded_status(*final(child)), event),
{
    match wait_timeout(child, millis) {
        Ok(Some(status)) => Event::Exited(status),
        Ok(None) => Event::StillRunning,
        Err(_) => Event::Failed,
    }
}

/// Performs one operation of the shutdown protocol on the child and says
/// what it reported.
///
/// The kill signal is only for a child that is still running as far as its
/// handle knows: one that a wait has seen ended is never killed.
pub fn perform(child: &mut subprocess::Popen, action: ShutdownAction, grace_period_ms: u64) -> (event:
    Event)
    requires
        grace_period_ms <= MAX_WAIT_MILLIS,
        action == ShutdownAction::SendKill ==> recorded_status(*old(child)) is None,
    ensures
        match action {
            ShutdownAction::SendTerminate | ShutdownAction::SendKill => signal_reported(
                recorded_status(*old(child)),
                recorded_status(*final(child)),
                event,
            ),
            ShutdownAction::AwaitGrace => wait_reported(
                recorded_status(*old(child)),
                recorded_status(*final(child)),
                event,
            ),
            ShutdownAction::AwaitExit => event != Event::StillRunning && wait_reported(
                recorded_status(*old(child)),
                recorded_status(*final(child)),
                event,
            ),
        },
{
    match action {
        ShutdownAction::SendTerminate => match terminate(child) {
            Ok(_) => Event::SignalSent,
            Err(_) => Event::Failed,
        },
        ShutdownAction::AwaitGrace => await_child(child, grace_period_ms),
        ShutdownAction::SendKill => match kill(child) {
            Ok(_) => Event::SignalSent,
            Err(_) => Event::Failed,
        },
        ShutdownAction::AwaitExit => match wait(child) {
            Ok(status) => Event::Exited(status),
            Err(_) => Event::Failed,
        },
    }
}

/// What a shutdown returns for a child that had ended, with `status`,
/// before the shutdown began.
pub open spec fn shutdown_of_ended(status: ChildStatus) -> Result<u32, Fault> {
    match normalized_code(status) {
        Some(code) => Ok(code),
        None => Err(Fault::UndecodableStatus),
    }
}

/// Shuts the child down in two phases and returns its normalised exit code.
///
/// The child is sent the termination signal and given `grace_period_ms`
/// milliseconds to end. If it is still running after that it is killed.
/// Then its status is collected, which blocks until the child has ended.
/// The first operation that fails ends the shutdown with its fault; nothing
/// is retried.
///
/// Which of these happens depends on the child. Whatever happens, the kill
/// is sent only after the wait for the grace period has found the child
/// still running, an exit code is returned only for a child that is
/// confirmed terminated, and it is the normalised code of the status that
/// the handle has recorded. For a child that had ended before the call the
/// result is determined: no signal reaches it and its recorded status is
/// decoded.
pub fn graceful_shutdown(child: &mut subprocess::Popen, grace_period_ms: u64) -> (stopped: Result<
    u32,
    Fault,
>)
    requires
        grace_period_ms <= MAX_WAIT_MILLIS,
    ensures
        stopped matches Ok(code) ==> (recorded_status(*final(child)) matches Some(status)
            && normalized_code(status) == Some(code)),
        stopped == Err::<u32, Fault>(Fault::UndecodableStatus) ==> (recorded_status(
            *final(child),
        ) matches Some(status) && normalized_code(status) is None),
        stopped != Err::<u32, Fault>(Fault::UnexpectedEvent),
        recorded_status(*old(child)) matches Some(status) ==> stopped == shutdown_of_ended(status)
            && recorded_status(*final(child)) == Some(status),
{
    let mut stage = ShutdownStage::begin();
    loop
        invariant
            grace_period_ms <= MAX_WAIT_MILLIS,
            stage matches ShutdownStage::Stopped { code } ==> (recorded_status(*child) matches Some(
                status,
            ) && normalized_code(status) == Some(code)),
            stage == (ShutdownStage::Failed { fault: Fault::UndecodableStatus }) ==> (
            recorded_status(*child) matches Some(status) && normalized_code(status) is None),
            stage != (ShutdownStage::Failed { fault: Fault::UnexpectedEvent }),
            stage == ShutdownStage::Forced ==> recorded_status(*child) is None,
            recorded_status(*old(child)) matches Some(status) ==> {
                &&& recorded_status(*child) == Some(status)
                &&& stage.verdict() matches Some(verdict) ==> verdict == shutdown_of_ended(status)
            },
        decreases stage.steps_left(),
    {
        match stage.next() {
            ShutdownStep::Return(verdict) => {
                return verdict;
            },
            ShutdownStep::Perform(action) => {
                let event = perform(child, action, grace_period_ms);
                stage = stage.step(event);
            },
        }
    }
}

/// How the monitoring loop ended.
#[derive(Clone, Copy, Debug, PartialEq, Eq)]
pub struct Watch {
    /// The decision that ended the loop.
    pub verdict: Verdict,
    /// The number of bounded waits that the loop made.
    pub polls: u128,
}

/// The decision that ends the monitoring loop at once for a child that had
/// ended, with `status`, before the loop began.
pub open spec fn verdict_of_ended(status: ChildStatus) -> Verdict {
    match normalized_code(status) {
        Some(code) => Verdict::Finished { code },
        None => Verdict::Failed { fault: Fault::UndecodableStatus },
    }
}

/// Runs the monitoring loop on the child until a decision ends it.
///
/// The loop waits for the child one poll interval at a time and applies
/// [`poll_verdict`] after each wait, with the stop latch as read after the
/// wait, until the verdict is no longer to continue.
///
/// Which verdict ends the loop depends on the child and on the signals that
/// arrive. Whatever happens, the loop makes at least one wait and no more
/// than [`timeout_poll`] says; it ends for the timeout only in exactly that
/// iteration, and for a stop request only before it. A child reported as
/// finished is confirmed terminated, with the code of the status that the
/// handle has recorded; a child to be shut down has no status recorded.
pub fn watch(
    child: &mut subprocess::Popen,
    budget_ms: u128,
    poll_interval_ms: u64,
    latch: &SignalLatch,
) -> (watched: Watch)
    requires
        0 < poll_interval_ms <= MAX_WAIT_MILLIS,
    ensures
        1 <= watched.polls <= timeout_poll(budget_ms as nat, poll_interval_ms as nat),
        match watched.verdict {
            Verdict::Continue { .. } => false,
            Verdict::Finished { code } => recorded_status(*final(child)) matches Some(status)
                && normalized_code(status) == Some(code),
            Verdict::Escalate { cause } => {
                &&& recorded_status(*final(child)) is None
                &&& cause == StopCause::TimedOut ==> watched.polls == timeout_poll(
                    budget_ms as nat,
                    poll_interval_ms as nat,
                )
                &&& cause == StopCause::Signaled ==> watched.polls < timeout_poll(
                    budget_ms as nat,
                    poll_interval_ms as nat,
                )
            },
            Verdict::Failed { fault } => {
                &&& fault == Fault::WaitFailed || fault == Fault::UndecodableStatus
                &&& fault == Fault::UndecodableStatus ==> (recorded_status(
                    *final(child),
                ) matches Some(status) && normalized_code(status) is None)
            },
        },
        recorded_status(*old(child)) matches Some(status) ==> {
            &&& watched.polls == 1
            &&& watched.verdict == verdict_of_ended(status)
            &&& recorded_status(*final(child)) == Some(status)
        },
{
    let mut remaining_ms = budget_ms;
    let mut polls: u128 = 0;
    loop
        invariant
            0 < poll_interval_ms <= MAX_WAIT_MILLIS,
            remaining_ms == budget_ms - polls * poll_interval_ms,
            polls == 0 || polls * poll_interval_ms < budget_ms,
            recorded_status(*old(child)) is Some ==> polls == 0 && recorded_status(*child)
                == recorded_status(*old(child)),
        decreases remaining_ms,
    {
        proof {
            if polls > 0 {
                timeout_poll_lies_beyond(
                    budget_ms as nat,
                    poll_interval_ms as nat,
                    polls as nat,
                );
                assert(polls * poll_interval_ms >= polls) by (nonlinear_arith)
                    requires
                        poll_interval_ms >= 1,
                        polls >= 0,
                ;
            } else {
                timeout_poll_is_first_to_reach_budget(budget_ms as nat, poll_interval_ms as nat);
            }
            assert((polls + 1) * poll_interval_ms == polls * poll_interval_ms + poll_interval_ms)
                by (nonlinear_arith);
        }
        let event = await_child(child, poll_interval_ms);
        let tick = Tick { event, stop_requested: latch.is_set() };
        polls = polls + 1;
        match poll_verdict(remaining_ms, poll_interval_ms, tick) {
            Verdict::Continue { remaining_ms: left } => {
                remaining_ms = left;
            },
            verdict => {
                proof {
                    if verdict == (Verdict::Escalate { cause: StopCause::TimedOut }) {
                        timeout_poll_is_unique(
                            budget_ms as nat,
                            poll_interval_ms as nat,
                            polls as nat,
                        );
                    }
                    if verdict == (Verdict::Escalate { cause: StopCause::Signaled }) {
                        timeout_poll_lies_beyond(
                            budget_ms as nat,
                            poll_interval_ms as nat,
                            polls as nat,
                        );
                    }
                }
                return Watch { verdict, polls };
            },
        }
    }
}

/// Supervises a launched child until it has ended or had to be shut down.
///
/// The monitoring loop of [`watch`] runs with the configured run timeout
/// and poll interval. A child that it reports as finished is the outcome;
/// a timeout or a stop request shuts the child down with
/// [`graceful_shutdown`] and the configured grace period, and the outcome
/// is what [`conclude`] makes of the result. Any failure on the way ends
/// the run with an internal error and no exit code.
///
/// Which of these happens depends on the child and on the signals that
/// arrive. Whatever happens, the outcome carries an exit code exactly when
/// it is no internal error, and then the child is confirmed terminated and
/// the code is the normalised code of the status that the handle has
/// recorded. For a child that had ended before the call the outcome is
/// determined by its recorded status.
pub fn supervise(child: &mut subprocess::Popen, config: &Config, latch: &SignalLatch) -> (outcome:
    SupervisionOutcome)
    requires
        config.valid(),
    ensures
        outcome.wf(),
        outcome.child_exit_code matches Some(code) ==> (recorded_status(*final(child)) matches Some(
            status,
        ) && normalized_code(status) == Some(code)),
        recorded_status(*old(child)) matches Some(status) ==> outcome
            == SupervisionOutcome::of_status(status) && recorded_status(*final(child)) == Some(
            status,
        ),
{
    let watched = watch(child, config.run_budget_ms(), config.poll_interval_ms, latch);
    match watched.verdict {
        Verdict::Finished { code } => SupervisionOutcome {
            exit_reason: ExitReason::Finished,
            child_exit_code: Some(code),
        },
        Verdict::Escalate { cause } => conclude(
            cause,
            graceful_shutdown(child, config.grace_period_ms()),
        ),
        _ => SupervisionOutcome::failed(),
    }
}

} // verus!
