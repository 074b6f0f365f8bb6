//! The monitoring loop: after every bounded wait, decide whether the run
//! goes on, has finished, or must shut the child down.
//!
//! The child's exit is looked at first, then the run-timeout budget, then the
//! latched stop request. So a child that ends in the very wait after which
//! the budget runs out is reported as finished, and a timeout wins over a
//! stop request seen in the same iteration.

use vstd::prelude::*;
use crate::event::{Event, Fault};
use crate::shutdown::{shutdown_run, ShutdownStage};
use crate::status::{get_exit_code, normalized_code, ExitReason, SupervisionOutcome};

verus! {

/// Why the child is shut down before it ended on its own.
#[derive(Clone, Copy, Debug, PartialEq, Eq, Structural)]
pub enum StopCause {
    /// The run-timeout budget is used up.
    TimedOut,
    /// A termination signal was latched.
    Signaled,
}

impl StopCause {
    /// The exit reason reported after a shutdown for this cause.
    pub open spec fn reason_spec(self) -> ExitReason {
        match self {
            StopCause::TimedOut => ExitReason::TimedOut,
            StopCause::Signaled => ExitReason::SignaledToStop,
        }
    }

    /// The exit reason reported after a shutdown for this cause.
    pub fn reason(self) -> (reason: ExitReason)
        ensures
            reason == self.reason_spec(),
    {
        match self {
            StopCause::TimedOut => ExitReason::TimedOut,
            StopCause::Signaled => ExitReason::SignaledToStop,
        }
    }
}

/// What one iteration of the monitoring loop observes: the report of the
/// bounded wait, and the stop latch as read after it.
#[derive(Clone, Copy, Debug, PartialEq, Eq, Structural)]
pub struct Tick {
    pub event: Event,
    pub stop_requested: bool,
}

/// The decision of one iteration of the monitoring loop.
#[derive(Clone, Copy, Debug, PartialEq, Eq, Structural)]
pub enum Verdict {
    /// Keep monitoring, with this much of the run timeout left.
    Continue { remaining_ms: u128 },
    /// The child ended on its own, with this normalised exit code.
    Finished { code: u32 },
    /// Shut the child down.
    Escalate { cause: StopCause },
    /// Give up.
    Failed { fault: Fault },
}

/// The decision taken when `remaining_ms` of the run timeout are left before
/// a wait of `poll_interval_ms` that reported `tick`.
pub open spec fn verdict_of(remaining_ms: u128, poll_interval_ms: u64, tick: Tick) -> Verdict {
    match tick.event {
        Event::Exited(status) => match normalized_code(status) {
            Some(code) => Verdict::Finished { code },
            None => Verdict::Failed { fault: Fault::UndecodableStatus },
        },
        Event::StillRunning => if remaining_ms <= poll_interval_ms {
            Verdict::Escalate { cause: StopCause::TimedOut }
        } else if tick.stop_requested {
            Verdict::Escalate { cause: StopCause::Signaled }
        } else {
            Verdict::Continue { remaining_ms: (remaining_ms - poll_interval_ms) as u128 }
        },
        Event::Failed => Verdict::Failed { fault: Fault::WaitFailed },
        Event::SignalSent => Verdict::Failed { fault: Fault::UnexpectedEvent },
    }
}

/// Decides one iteration of the monitoring loop.
///
/// An exit seen by the wait ends the run, whatever the budget and the latch
/// say. Otherwise the wait has used up one poll interval of the budget: if
/// nothing is left of it the run has timed out; if the latch is set a stop
/// was requested; if neither, monitoring continues with the smaller budget.
pub fn poll_verdict(remaining_ms: u128, poll_interval_ms: u64, tick: Tick) -> (verdict: Verdict)
    ensures
        verdict == verdict_of(remaining_ms, poll_interval_ms, tick),
        poll_interval_ms > 0 ==> (verdict matches Verdict::Continue { remaining_ms: left } ==> left
            < remaining_ms),
{
    match tick.event {
        Event::Exited(status) => match get_exit_code(status) {
            Some(code) => Verdict::Finished { code },
            None => Verdict::Failed { fault: Fault::UndecodableStatus },
        },
        Event::StillRunning => {
            let interval: u128 = poll_interval_ms as u128;
            if remaining_ms <= interval {
                Verdict::Escalate { cause: StopCause::TimedOut }
            } else if tick.stop_requested {
                Verdict::Escalate { cause: StopCause::Signaled }
            } else {
                Verdict::Continue { remaining_ms: remaining_ms - interval }
            }
        },
        Event::Failed => Verdict::Failed { fault: Fault::WaitFailed },
        Event::SignalSent => Verdict::Failed { fault: Fault::UnexpectedEvent },
    }
}

/// The outcome reported after a shutdown for `cause` that returned `shutdown`.
pub open spec fn conclusion(cause: StopCause, shutdown: Result<u32, Fault>) -> SupervisionOutcome {
    match shutdown {
        Ok(code) => SupervisionOutcome::completed_spec(cause.reason_spec(), code),
        Err(_) => SupervisionOutcome::failed_spec(),
    }
}

/// The outcome reported after a shutdown: the cause's exit reason with the
/// child's exit code, or an internal error if the shutdown was abandoned.
pub fn conclude(cause: StopCause, shutdown: Result<u32, Fault>) -> (outcome: SupervisionOutcome)
    ensures
        outcome == conclusion(cause, shutdown),
        outcome.wf(),
{
    match shutdown {
        Ok(code) => SupervisionOutcome { exit_reason: cause.reason(), child_exit_code: Some(code) },
        Err(_) => SupervisionOutcome::failed(),
    }
}

/// The decision that ends the monitoring loop when its iterations observe
/// `ticks`, in order; `None` if the loop is still going on after them.
pub open spec fn monitor_run(remaining_ms: u128, poll_interval_ms: u64, ticks: Seq<Tick>) -> Option<
    Verdict,
>
    decreases ticks.len(),
{
    if ticks.len() == 0 {
        None
    } else {
        match verdict_of(remaining_ms, poll_interval_ms, ticks[0]) {
            Verdict::Continue { remaining_ms: left } => monitor_run(
                left,
                poll_interval_ms,
                ticks.drop_first(),
            ),
            last => Some(last),
        }
    }
}

/// The outcome of a whole run that starts with `budget_ms` of run timeout:
/// the monitoring loop observes `ticks` and, if it decides to shut the child
/// down, the operations of the shutdown report `shutdown_events`. `None` if
/// the run is not over after all of these.
pub open spec fn supervision(
    budget_ms: u128,
    poll_interval_ms: u64,
    ticks: Seq<Tick>,
    shutdown_events: Seq<Event>,
) -> Option<SupervisionOutcome> {
    match monitor_run(budget_ms, poll_interval_ms, ticks) {
        Some(Verdict::Finished { code }) => Some(
            SupervisionOutcome::completed_spec(ExitReason::Finished, code),
        ),
        Some(Verdict::Failed { .. }) => Some(SupervisionOutcome::failed_spec()),
        Some(Verdict::Escalate { cause }) => match shutdown_run(
            ShutdownStage::Cooperative,
            shutdown_events,
        ).verdict() {
            Some(shutdown) => Some(conclusion(cause, shutdown)),
            None => None,
        },
        _ => None,
    }
}

/// `count` iterations in each of which the child is still running and no
/// stop is requested.
pub open spec fn quiet(count: nat) -> Seq<Tick> {
    Seq::new(count, |i: int| Tick { event: Event::StillRunning, stop_requested: false })
}

/// The iteration of the monitoring loop at which the run timeout fires if
/// nothing else ends the run before: the first one at which the waits add
/// up to the budget, and the first iteration where there is no budget at
/// all, since the child's exit is always looked at before the deadline.
pub open spec fn timeout_poll(budget_ms: nat, poll_interval_ms: nat) -> nat
    recommends
        poll_interval_ms > 0,
{
    if budget_ms == 0 {
        1
    } else {
        ((budget_ms - 1) / (poll_interval_ms as int) + 1) as nat
    }
}

/// The timeout fires within one poll interval after the budget has elapsed:
/// the waits before the deciding one stay below the budget, and those up to
/// it reach it.
pub proof fn timeout_poll_is_first_to_reach_budget(budget_ms: nat, poll_interval_ms: nat)
    requires
        poll_interval_ms > 0,
    ensures
        timeout_poll(budget_ms, poll_interval_ms) >= 1,
        budget_ms <= timeout_poll(budget_ms, poll_interval_ms) * poll_interval_ms,
        budget_ms > 0 ==> (timeout_poll(budget_ms, poll_interval_ms) - 1) * poll_interval_ms
            < budget_ms,
{
    if budget_ms > 0 {
        let below = budget_ms - 1;
        let step = poll_interval_ms as int;
        let whole = below / step;
        vstd::arithmetic::div_mod::lemma_fundamental_div_mod(below, step);
        vstd::arithmetic::div_mod::lemma_mod_bound(below, step);
        vstd::arithmetic::div_mod::lemma_div_pos_is_pos(below, step);
        assert((whole + 1) * step == step * whole + step) by (nonlinear_arith);
        assert(whole * step == step * whole) by (nonlinear_arith);
    }
}

/// Only one iteration is the first at which the waits add up to the budget.
pub proof fn timeout_poll_is_unique(budget_ms: nat, poll_interval_ms: nat, polls: nat)
    requires
        poll_interval_ms > 0,
        polls >= 1,
        budget_ms <= polls * poll_interval_ms,
        polls == 1 || (polls - 1) * poll_interval_ms < budget_ms,
    ensures
        polls == timeout_poll(budget_ms, poll_interval_ms),
{
    let first = timeout_poll(budget_ms, poll_interval_ms);
    timeout_poll_is_first_to_reach_budget(budget_ms, poll_interval_ms);
    if polls < first {
        assert(polls * poll_interval_ms <= (first - 1) * poll_interval_ms) by (nonlinear_arith)
            requires
                polls <= first - 1,
        ;
    } else if polls > first {
        assert(first * poll_interval_ms <= (polls - 1) * poll_interval_ms) by (nonlinear_arith)
            requires
                first <= polls - 1,
        ;
    }
}

/// While the waits stay below the budget the timeout has not fired.
pub proof fn timeout_poll_lies_beyond(budget_ms: nat, poll_interval_ms: nat, polls: nat)
    requires
        poll_interval_ms > 0,
        polls * poll_interval_ms < budget_ms,
    ensures
        polls < timeout_poll(budget_ms, poll_interval_ms),
{
    let first = timeout_poll(budget_ms, poll_interval_ms);
    timeout_poll_is_first_to_reach_budget(budget_ms, poll_interval_ms);
    if polls >= first {
        assert(first * poll_interval_ms <= polls * poll_interval_ms) by (nonlinear_arith)
            requires
                first <= polls,
        ;
    }
}

/// Quiet iterations that leave something of the budget only spend budget:
/// after `count` of them the loop stands where it would have started with
/// `count` poll intervals less.
pub proof fn quiet_iterations_spend_budget(
    budget_ms: u128,
    poll_interval_ms: u64,
    count: nat,
    rest: Seq<Tick>,
)
    requires
        count == 0 || count * poll_interval_ms < budget_ms,
    ensures
        monitor_run(budget_ms, poll_interval_ms, quiet(count) + rest) == monitor_run(
            (budget_ms - count * poll_interval_ms) as u128,
            poll_interval_ms,
            rest,
        ),
    decreases count,
{
    let ticks = quiet(count) + rest;
    if count == 0 {
        assert(ticks =~= rest);
    } else {
        let fewer = (count - 1) as nat;
        assert(count * poll_interval_ms == fewer * poll_interval_ms + poll_interval_ms)
            by (nonlinear_arith)
            requires
                fewer == count - 1,
        ;
        assert(fewer * poll_interval_ms >= 0) by (nonlinear_arith);
        assert(ticks[0] == quiet(count)[0]);
        assert(ticks.drop_first() =~= quiet(fewer) + rest);
        let left = (budget_ms - poll_interval_ms) as u128;
        assert(verdict_of(budget_ms, poll_interval_ms, ticks[0]) == Verdict::Continue {
            remaining_ms: left,
        });
        quiet_iterations_spend_budget(left, poll_interval_ms, fewer, rest);
    }
}

/// A child that ends before the run timeout is reported as finished.
///
/// If the child is still running in `count` iterations that leave something
/// of the budget, and the wait of the next iteration sees it ended, the run
/// reports what the child's status stands for: finished with its normalised
/// exit code, for which the supervisor itself ends with status 0, or an
/// internal error where the status has no code. The stop latch of that last
/// iteration does not matter, and the child is not shut down.
pub proof fn exit_before_timeout_is_finished(
    budget_ms: u128,
    poll_interval_ms: u64,
    count: nat,
    last: Tick,
    shutdown_events: Seq<Event>,
)
    requires
        count == 0 || count * poll_interval_ms < budget_ms,
        last.event is Exited,
    ensures
        supervision(budget_ms, poll_interval_ms, quiet(count).push(last), shutdown_events) == Some(
            SupervisionOutcome::of_status(last.event->Exited_0),
        ),
        normalized_code(last.event->Exited_0) matches Some(code) ==> {
            &&& supervision(
                budget_ms,
                poll_interval_ms,
                quiet(count).push(last),
                shutdown_events,
            ) == Some(
                SupervisionOutcome {
                    exit_reason: ExitReason::Finished,
                    child_exit_code: Some(code),
                },
            )
            &&& ExitReason::Finished.exit_status_spec() == 0
        },
{
    let rest = seq![last];
    assert(quiet(count).push(last) =~= quiet(count) + rest);
    quiet_iterations_spend_budget(budget_ms, poll_interval_ms, count, rest);
    assert(rest.drop_first().len() == 0);
}

/// A child that never ends is shut down when the run timeout has elapsed.
///
/// Let `polls` be [`timeout_poll`] of the budget and the poll interval. It
/// is the first iteration at which the waits add up to the budget, so the
/// time waited until then exceeds the run timeout by less than one poll
/// interval. If the child is still running in all of these iterations and
/// no stop is requested before the last, the loop goes on through every
/// earlier iteration and decides at iteration `polls` to shut the child
/// down for the timeout, even if a stop request is seen in that same
/// iteration. If the shutdown then confirms the child terminated with a
/// code, the run reports a timeout with this code and the supervisor ends
/// with status 138.
pub proof fn timeout_fires_when_budget_is_spent(
    budget_ms: u128,
    poll_interval_ms: u64,
    last_stop_requested: bool,
    shutdown_events: Seq<Event>,
)
    requires
        poll_interval_ms > 0,
    ensures
        ({
            let polls = timeout_poll(budget_ms as nat, poll_interval_ms as nat);
            let ticks = quiet((polls - 1) as nat).push(
                Tick { event: Event::StillRunning, stop_requested: last_stop_requested },
            );
            &&& polls >= 1
            &&& budget_ms <= polls * poll_interval_ms
            &&& budget_ms > 0 ==> polls * poll_interval_ms < budget_ms + poll_interval_ms
            &&& forall|fewer: nat|
                fewer < polls ==> #[trigger] monitor_run(
                    budget_ms,
                    poll_interval_ms,
                    quiet(fewer),
                ) is None
            &&& monitor_run(budget_ms, poll_interval_ms, ticks) == Some(
                Verdict::Escalate { cause: StopCause::TimedOut },
            )
            &&& shutdown_run(ShutdownStage::Cooperative, shutdown_events)
                matches ShutdownStage::Stopped { code } ==> {
                &&& supervision(budget_ms, poll_interval_ms, ticks, shutdown_events) == Some(
                    SupervisionOutcome {
                        exit_reason: ExitReason::TimedOut,
                        child_exit_code: Some(code),
                    },
                )
                &&& ExitReason::TimedOut.exit_status_spec() == 138
            }
        }),
{
    let polls = timeout_poll(budget_ms as nat, poll_interval_ms as nat);
    timeout_poll_is_first_to_reach_budget(budget_ms as nat, poll_interval_ms as nat);
    let before = (polls - 1) as nat;
    let last = Tick { event: Event::StillRunning, stop_requested: last_stop_requested };
    let rest = seq![last];
    assert(polls * poll_interval_ms == before * poll_interval_ms + poll_interval_ms)
        by (nonlinear_arith)
        requires
            before == polls - 1,
    ;
    assert(before * poll_interval_ms >= 0) by (nonlinear_arith);
    assert(quiet(before).push(last) =~= quiet(before) + rest);
    quiet_iterations_spend_budget(budget_ms, poll_interval_ms, before, rest);
    assert forall|fewer: nat| fewer < polls implies #[trigger] monitor_run(
        budget_ms,
        poll_interval_ms,
        quiet(fewer),
    ) is None by {
        let none = Seq::<Tick>::empty();
        assert(quiet(fewer) =~= quiet(fewer) + none);
        if fewer > 0 {
            assert(fewer * poll_interval_ms <= before * poll_interval_ms) by (nonlinear_arith)
                requires
                    fewer <= before,
            ;
        }
        quiet_iterations_spend_budget(budget_ms, poll_interval_ms, fewer, none);
    }
}

/// A stop request that arrives while the child runs and before the run
/// timeout shuts the child down.
///
/// If the child is still running in `count` quiet iterations and in the
/// next one, in which the stop latch is found set, and something of the
/// budget is left after all of them, the loop decides to shut the child
/// down for the request. If the shutdown then confirms the child terminated
/// with a code, the run reports a requested stop with this code and the
/// supervisor ends with status 130.
pub proof fn stop_request_is_honoured(
    budget_ms: u128,
    poll_interval_ms: u64,
    count: nat,
    shutdown_events: Seq<Event>,
)
    requires
        (count + 1) * poll_interval_ms < budget_ms,
    ensures
        monitor_run(
            budget_ms,
            poll_interval_ms,
            quiet(count).push(Tick { event: Event::StillRunning, stop_requested: true }),
        ) == Some(Verdict::Escalate { cause: StopCause::Signaled }),
        shutdown_run(ShutdownStage::Cooperative, shutdown_events) matches ShutdownStage::Stopped {
            code,
        } ==> {
            &&& supervision(
                budget_ms,
                poll_interval_ms,
                quiet(count).push(Tick { event: Event::StillRunning, stop_requested: true }),
                shutdown_events,
            ) == Some(
                SupervisionOutcome {
                    exit_reason: ExitReason::SignaledToStop,
                    child_exit_code: Some(code),
                },
            )
            &&& ExitReason::SignaledToStop.exit_status_spec() == 130
        },
{
    let last = Tick { event: Event::StillRunning, stop_requested: true };
    let rest = seq![last];
    assert((count + 1) * poll_interval_ms == count * poll_interval_ms + poll_interval_ms)
        by (nonlinear_arith);
    assert(count * poll_interval_ms >= 0) by (nonlinear_arith);
    assert(quiet(count).push(last) =~= quiet(count) + rest);
    quiet_iterations_spend_budget(budget_ms, poll_interval_ms, count, rest);
}

/// Every run reports an exit code exactly when it did not fail.
pub proof fn outcome_is_well_formed(
    budget_ms: u128,
    poll_interval_ms: u64,
    ticks: Seq<Tick>,
    shutdown_events: Seq<Event>,
)
    ensures
        supervision(budget_ms, poll_interval_ms, ticks, shutdown_events) matches Some(outcome)
            ==> outcome.wf(),
{
}

} // verus!
