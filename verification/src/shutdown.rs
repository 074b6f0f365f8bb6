//! The two-phase shutdown of the child: a cooperative termination signal, a
//! wait bounded by the grace period, and a forced kill if the child is still
//! running after it.
//!
//! The protocol is a state machine. Each stage names the operation that is
//! pending; the event that the operation reports selects the next stage.

use vstd::prelude::*;
use crate::event::{Event, Fault};
use crate::status::{get_exit_code, normalized_code};

verus! {

/// One operation of the shutdown protocol.
#[derive(Clone, Copy, Debug, PartialEq, Eq, Structural)]
pub enum ShutdownAction {
    /// Send the cooperative termination signal.
    SendTerminate,
    /// Wait for the child to end, for at most the grace period.
    AwaitGrace,
    /// Send the kill signal, which the child cannot ignore.
    SendKill,
    /// Wait, without bound, until the child has ended.
    AwaitExit,
}

/// What the one who carries out a shutdown has to do next.
#[derive(Clone, Copy, Debug, PartialEq, Eq)]
pub enum ShutdownStep {
    /// Perform this operation and report what came of it.
    Perform(ShutdownAction),
    /// The shutdown is over: return the child's normalised exit code, or
    /// the fault for which the shutdown was abandoned.
    Return(Result<u32, Fault>),
}

/// Where a shutdown stands.
#[derive(Clone, Copy, Debug, PartialEq, Eq, Structural)]
pub enum ShutdownStage {
    /// Nothing was done yet; the cooperative signal is to be sent.
    Cooperative,
    /// The cooperative signal was sent; the grace period is running.
    Grace,
    /// The grace period elapsed with the child running; it is to be killed.
    Forced,
    /// The child has ended or was killed; its status is to be collected.
    Reaping,
    /// The child is confirmed terminated, with this normalised exit code.
    Stopped { code: u32 },
    /// The shutdown was abandoned.
    Failed { fault: Fault },
}

impl ShutdownStage {
    /// What to do at this stage: the operation to perform, or the result to
    /// return once the shutdown is over.
    pub open spec fn upcoming(self) -> ShutdownStep {
        match self {
            ShutdownStage::Cooperative => ShutdownStep::Perform(ShutdownAction::SendTerminate),
            ShutdownStage::Grace => ShutdownStep::Perform(ShutdownAction::AwaitGrace),
            ShutdownStage::Forced => ShutdownStep::Perform(ShutdownAction::SendKill),
            ShutdownStage::Reaping => ShutdownStep::Perform(ShutdownAction::AwaitExit),
            ShutdownStage::Stopped { code } => ShutdownStep::Return(Ok(code)),
            ShutdownStage::Failed { fault } => ShutdownStep::Return(Err(fault)),
        }
    }

    /// The operation to perform at this stage; `None` once the shutdown is over.
    pub open spec fn pending(self) -> Option<ShutdownAction> {
        match self.upcoming() {
            ShutdownStep::Perform(action) => Some(action),
            ShutdownStep::Return(_) => None,
        }
    }

    /// What the shutdown returned; `None` while it is still under way.
    pub open spec fn verdict(self) -> Option<Result<u32, Fault>> {
        match self.upcoming() {
            ShutdownStep::Perform(_) => None,
            ShutdownStep::Return(result) => Some(result),
        }
    }

    /// The stage that follows when the pending operation reports `event`.
    ///
    /// A failed operation abandons the shutdown at once; nothing is retried.
    /// A child that ends within the grace period is reaped without a kill.
    pub open spec fn advance(self, event: Event) -> ShutdownStage {
        match self {
            ShutdownStage::Cooperative => match event {
                Event::SignalSent => ShutdownStage::Grace,
                Event::Failed => ShutdownStage::Failed { fault: Fault::TerminateFailed },
                _ => ShutdownStage::Failed { fault: Fault::UnexpectedEvent },
            },
            ShutdownStage::Grace => match event {
                Event::StillRunning => ShutdownStage::Forced,
                Event::Exited(_) => ShutdownStage::Reaping,
                Event::Failed => ShutdownStage::Failed { fault: Fault::WaitFailed },
                Event::SignalSent => ShutdownStage::Failed { fault: Fault::UnexpectedEvent },
            },
            ShutdownStage::Forced => match event {
                Event::SignalSent => ShutdownStage::Reaping,
                Event::Failed => ShutdownStage::Failed { fault: Fault::KillFailed },
                _ => ShutdownStage::Failed { fault: Fault::UnexpectedEvent },
            },
            ShutdownStage::Reaping => match event {
                Event::Exited(status) => match normalized_code(status) {
                    Some(code) => ShutdownStage::Stopped { code },
                    None => ShutdownStage::Failed { fault: Fault::UndecodableStatus },
                },
                Event::Failed => ShutdownStage::Failed { fault: Fault::WaitFailed },
                _ => ShutdownStage::Failed { fault: Fault::UnexpectedEvent },
            },
            ShutdownStage::Stopped { .. } => self,
            ShutdownStage::Failed { .. } => self,
        }
    }

    /// The number of operations that can still follow at most.
    pub open spec fn steps_left(self) -> nat {
        match self {
            ShutdownStage::Cooperative => 4,
            ShutdownStage::Grace => 3,
            ShutdownStage::Forced => 2,
            ShutdownStage::Reaping => 1,
            ShutdownStage::Stopped { .. } => 0,
            ShutdownStage::Failed { .. } => 0,
        }
    }

    /// The stage at which every shutdown starts.
    pub fn begin() -> (stage: ShutdownStage)
        ensures
            stage == ShutdownStage::Cooperative,
    {
        ShutdownStage::Cooperative
    }

    /// What to do now: the operation to perform, or the result to return
    /// once the shutdown is over.
    pub fn next(&self) -> (step: ShutdownStep)
        ensures
            step == self.upcoming(),
    {
        match self {
            ShutdownStage::Cooperative => ShutdownStep::Perform(ShutdownAction::SendTerminate),
            ShutdownStage::Grace => ShutdownStep::Perform(ShutdownAction::AwaitGrace),
            ShutdownStage::Forced => ShutdownStep::Perform(ShutdownAction::SendKill),
            ShutdownStage::Reaping => ShutdownStep::Perform(ShutdownAction::AwaitExit),
            ShutdownStage::Stopped { code } => ShutdownStep::Return(Ok(*code)),
            ShutdownStage::Failed { fault } => ShutdownStep::Return(Err(*fault)),
        }
    }

    /// Takes the event that the pending operation reported and moves on.
    pub fn step(self, event: Event) -> (next: ShutdownStage)
        ensures
            next == self.advance(event),
            self.pending() is Some ==> next.steps_left() < self.steps_left(),
            self.pending() is None ==> next == self,
    {
        match self {
            ShutdownStage::Cooperative => match event {
                Event::SignalSent => ShutdownStage::Grace,
                Event::Failed => ShutdownStage::Failed { fault: Fault::TerminateFailed },
                _ => ShutdownStage::Failed { fault: Fault::UnexpectedEvent },
            },
            ShutdownStage::Grace => match event {
                Event::StillRunning => ShutdownStage::Forced,
                Event::Exited(_) => ShutdownStage::Reaping,
                Event::Failed => ShutdownStage::Failed { fault: Fault::WaitFailed },
                Event::SignalSent => ShutdownStage::Failed { fault: Fault::UnexpectedEvent },
            },
            ShutdownStage::Forced => match event {
                Event::SignalSent => ShutdownStage::Reaping,
                Event::Failed => ShutdownStage::Failed { fault: Fault::KillFailed },
                _ => ShutdownStage::Failed { fault: Fault::UnexpectedEvent },
            },
            ShutdownStage::Reaping => match event {
                Event::Exited(status) => match get_exit_code(status) {
                    Some(code) => ShutdownStage::Stopped { code },
                    None => ShutdownStage::Failed { fault: Fault::UndecodableStatus },
                },
                Event::Failed => ShutdownStage::Failed { fault: Fault::WaitFailed },
                _ => ShutdownStage::Failed { fault: Fault::UnexpectedEvent },
            },
            ShutdownStage::Stopped { .. } => self,
            ShutdownStage::Failed { .. } => self,
        }
    }
}

/// The stage reached from `stage` when the operations performed one after
/// the other report `events`. Events that arrive after the shutdown is over
/// change nothing.
pub open spec fn shutdown_run(stage: ShutdownStage, events: Seq<Event>) -> ShutdownStage
    decreases events.len(),
{
    if events.len() == 0 {
        stage
    } else {
        shutdown_run(stage.advance(events[0]), events.drop_first())
    }
}

/// The operations performed, in order, while `events` are consumed starting
/// at `stage`: one operation for each event that arrives before the shutdown
/// is over.
pub open spec fn shutdown_actions(stage: ShutdownStage, events: Seq<Event>) -> Seq<ShutdownAction>
    decreases events.len(),
{
    if events.len() == 0 {
        Seq::empty()
    } else {
        match stage.pending() {
            None => Seq::empty(),
            Some(action) => seq![action] + shutdown_actions(
                stage.advance(events[0]),
                events.drop_first(),
            ),
        }
    }
}

/// A shutdown that is over stays as it is and performs nothing more.
pub proof fn shutdown_over_is_final(stage: ShutdownStage, events: Seq<Event>)
    requires
        stage.pending() is None,
    ensures
        shutdown_run(stage, events) == stage,
        shutdown_actions(stage, events) == Seq::<ShutdownAction>::empty(),
    decreases events.len(),
{
    if events.len() > 0 {
        shutdown_over_is_final(stage, events.drop_first());
    }
}

/// Every shutdown is over after at most four operations, whatever they report.
pub proof fn shutdown_terminates(stage: ShutdownStage, events: Seq<Event>)
    requires
        events.len() >= stage.steps_left(),
    ensures
        shutdown_run(stage, events).verdict() is Some,
        shutdown_actions(stage, events).len() <= stage.steps_left(),
    decreases events.len(),
{
    if stage.pending() is None {
        shutdown_over_is_final(stage, events);
    } else {
        shutdown_terminates(stage.advance(events[0]), events.drop_first());
    }
}

/// The operations of a shutdown that is one step from its end: a single
/// unbounded wait, or nothing at all.
proof fn reaping_never_kills(stage: ShutdownStage, events: Seq<Event>)
    requires
        stage.steps_left() <= 1,
    ensures
        !shutdown_actions(stage, events).contains(ShutdownAction::SendKill),
{
    let actions = shutdown_actions(stage, events);
    if stage.pending() is None {
        shutdown_over_is_final(stage, events);
    } else if events.len() > 0 {
        shutdown_over_is_final(stage.advance(events[0]), events.drop_first());
        assert(actions =~= seq![ShutdownAction::AwaitExit]);
    }
}

/// The grace period is respected. The kill signal is sent if and only if
/// the cooperative signal was sent and the wait that follows reported the
/// child still running when the grace period had elapsed. In particular a
/// child that ends within the grace period is never killed, and one that
/// outlasts it always is: the kill is then the third operation.
pub proof fn kill_only_after_full_grace(events: Seq<Event>)
    ensures
        shutdown_actions(ShutdownStage::Cooperative, events).contains(ShutdownAction::SendKill)
            <==> (events.len() >= 3 && events[0] == Event::SignalSent && events[1]
            == Event::StillRunning),
        events.len() >= 3 && events[0] == Event::SignalSent && events[1] == Event::StillRunning
            ==> shutdown_actions(ShutdownStage::Cooperative, events).len() >= 3
            && shutdown_actions(ShutdownStage::Cooperative, events)[2] == ShutdownAction::SendKill,
        events.len() >= 2 && events[0] == Event::SignalSent && events[1] is Exited
            ==> !shutdown_actions(ShutdownStage::Cooperative, events).contains(
            ShutdownAction::SendKill,
        ),
{
    let start = ShutdownStage::Cooperative;
    let actions = shutdown_actions(start, events);
    if events.len() == 0 {
    } else {
        let rest1 = events.drop_first();
        let stage1 = start.advance(events[0]);
        let actions1 = shutdown_actions(stage1, rest1);
        assert(actions == seq![ShutdownAction::SendTerminate] + actions1);
        if stage1 != ShutdownStage::Grace || rest1.len() == 0 {
            if stage1 != ShutdownStage::Grace {
                shutdown_over_is_final(stage1, rest1);
            }
            assert(actions =~= seq![ShutdownAction::SendTerminate]);
        } else {
            assert(rest1[0] == events[1]);
            let rest2 = rest1.drop_first();
            let stage2 = stage1.advance(rest1[0]);
            let actions2 = shutdown_actions(stage2, rest2);
            assert(actions1 == seq![ShutdownAction::AwaitGrace] + actions2);
            if stage2 == ShutdownStage::Forced && rest2.len() > 0 {
                let rest3 = rest2.drop_first();
                let stage3 = stage2.advance(rest2[0]);
                let actions3 = shutdown_actions(stage3, rest3);
                assert(actions2 == seq![ShutdownAction::SendKill] + actions3);
                assert(actions[2] == ShutdownAction::SendKill);
            } else {
                if stage2 == ShutdownStage::Forced {
                    assert(actions2 =~= Seq::<ShutdownAction>::empty());
                } else {
                    reaping_never_kills(stage2, rest2);
                }
                assert forall|i: int| 0 <= i < actions.len() implies actions[i]
                    != ShutdownAction::SendKill by {
                    if i >= 2 {
                        assert(actions[i] == actions2[i - 2]);
                        assert(actions2.contains(actions2[i - 2]));
                    }
                }
            }
        }
    }
}

/// A shutdown reports an exit code only for a child that is confirmed
/// terminated: the code is the normalised status that the last wait
/// returned, after the child ended within the grace period or after it was
/// killed.
pub proof fn stopped_means_confirmed(events: Seq<Event>, code: u32)
    requires
        shutdown_run(ShutdownStage::Cooperative, events) == (ShutdownStage::Stopped { code }),
    ensures
        events.len() >= 3,
        events[0] == Event::SignalSent,
        events[1] is Exited ==> events[2] is Exited && normalized_code(events[2]->Exited_0)
            == Some(code),
        events[1] !is Exited ==> events.len() >= 4 && events[1] == Event::StillRunning && events[2]
            == Event::SignalSent && events[3] is Exited && normalized_code(events[3]->Exited_0)
            == Some(code),
{
    let start = ShutdownStage::Cooperative;
    let end = shutdown_run(start, events);
    assert(events.len() > 0);
    let rest1 = events.drop_first();
    let stage1 = start.advance(events[0]);
    assert(end == shutdown_run(stage1, rest1));
    if stage1 != ShutdownStage::Grace {
        shutdown_over_is_final(stage1, rest1);
    }
    assert(rest1.len() > 0);
    assert(rest1[0] == events[1]);
    let rest2 = rest1.drop_first();
    let stage2 = stage1.advance(rest1[0]);
    assert(end == shutdown_run(stage2, rest2));
    if stage2.pending() is None {
        shutdown_over_is_final(stage2, rest2);
    }
    assert(rest2.len() > 0);
    assert(rest2[0] == events[2]);
    let rest3 = rest2.drop_first();
    let stage3 = stage2.advance(rest2[0]);
    assert(end == shutdown_run(stage3, rest3));
    if stage3.pending() is None {
        shutdown_over_is_final(stage3, rest3);
    } else {
        assert(rest3.len() > 0);
        assert(rest3[0] == events[3]);
        shutdown_over_is_final(stage3.advance(rest3[0]), rest3.drop_first());
    }
}

} // verus!
