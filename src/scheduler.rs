//! The decisions of a session's periodic analysis loop and of its stop.
//!
//! The loop reads the tenant's interval afresh on every round, sleeps that
//! long, and runs an analysis pass if the session is still active. A stop
//! request cancels the sleep at once and asks for exactly one final pass;
//! after it no periodic pass starts, and nothing leads back to running. The
//! caller performs each action and reports back what happened.

use vstd::prelude::*;

verus! {

/// Where a session's loop stands.
#[derive(Debug, Clone, Copy, PartialEq, Eq, Structural)]
pub enum SchedulerState {
    /// Not started yet.
    Idle,
    /// Waiting for the session's liveness and the tenant's interval.
    AwaitingSettings,
    /// Sleeping until the next pass.
    Sleeping,
    /// A periodic pass is running.
    Analyzing,
    /// A stop was requested; the final pass is running.
    Stopping,
    /// Over for good.
    Terminated,
}

/// What the caller reports back.
#[derive(Debug, Clone, Copy, PartialEq, Eq, Structural)]
pub enum SchedulerEvent {
    /// The loop was started.
    Started,
    /// The session's liveness and the tenant's current interval were read.
    SettingsRead { active: bool, interval_secs: u64 },
    /// The sleep ran out; the session's liveness was read again.
    Woke { active: bool },
    /// A periodic pass ended, whatever its result.
    AnalysisDone,
    /// Someone asked to stop the session.
    StopRequested,
    /// The final pass ended, whatever its result.
    FinalAnalysisDone,
}

/// What the caller does next.
#[derive(Debug, Clone, Copy, PartialEq, Eq, Structural)]
pub enum SchedulerAction {
    /// Read the session's liveness and the tenant's interval.
    ReadSettings,
    /// Sleep this many seconds, abandoning the sleep on a stop request.
    Sleep(u64),
    /// Run a periodic analysis pass.
    RunAnalysis,
    /// Abandon any sleep and run the final analysis pass.
    CancelAndRunFinal,
    /// Release the session's resources and end the loop.
    Exit,
    /// Nothing to do.
    Nothing,
}

/// Whether the loop is in one of its running states.
pub open spec fn is_running(s: SchedulerState) -> bool {
    s == SchedulerState::AwaitingSettings || s == SchedulerState::Sleeping || s
        == SchedulerState::Analyzing
}

/// The state and action that follow event `e` in state `s`.
pub open spec fn scheduler_next(s: SchedulerState, e: SchedulerEvent) -> (SchedulerState, SchedulerAction) {
    match e {
        SchedulerEvent::Started => if s == SchedulerState::Idle {
            (SchedulerState::AwaitingSettings, SchedulerAction::ReadSettings)
        } else {
            (s, SchedulerAction::Nothing)
        },
        SchedulerEvent::SettingsRead { active, interval_secs } => if s
            == SchedulerState::AwaitingSettings {
            if active {
                (SchedulerState::Sleeping, SchedulerAction::Sleep(interval_secs))
            } else {
                (SchedulerState::Terminated, SchedulerAction::Exit)
            }
        } else {
            (s, SchedulerAction::Nothing)
        },
        SchedulerEvent::Woke { active } => if s == SchedulerState::Sleeping {
            if active {
                (SchedulerState::Analyzing, SchedulerAction::RunAnalysis)
            } else {
                (SchedulerState::Terminated, SchedulerAction::Exit)
            }
        } else {
            (s, SchedulerAction::Nothing)
        },
        SchedulerEvent::AnalysisDone => if s == SchedulerState::Analyzing {
            (SchedulerState::AwaitingSettings, SchedulerAction::ReadSettings)
        } else {
            (s, SchedulerAction::Nothing)
        },
        SchedulerEvent::StopRequested => if s == SchedulerState::Idle || is_running(s) {
            (SchedulerState::Stopping, SchedulerAction::CancelAndRunFinal)
        } else {
            (s, SchedulerAction::Nothing)
        },
        SchedulerEvent::FinalAnalysisDone => if s == SchedulerState::Stopping {
            (SchedulerState::Terminated, SchedulerAction::Exit)
        } else {
            (s, SchedulerAction::Nothing)
        },
    }
}

/// Takes in what happened and decides what to do next.
pub fn scheduler_step(s: SchedulerState, e: SchedulerEvent) -> (r: (SchedulerState, SchedulerAction))
    ensures
        r == scheduler_next(s, e),
{
    match e {
        SchedulerEvent::Started => if s == SchedulerState::Idle {
            (SchedulerState::AwaitingSettings, SchedulerAction::ReadSettings)
        } else {
            (s, SchedulerAction::Nothing)
        },
        SchedulerEvent::SettingsRead { active, interval_secs } => if s
            == SchedulerState::AwaitingSettings {
            if active {
                (SchedulerState::Sleeping, SchedulerAction::Sleep(interval_secs))
            } else {
                (SchedulerState::Terminated, SchedulerAction::Exit)
            }
        } else {
            (s, SchedulerAction::Nothing)
        },
        SchedulerEvent::Woke { active } => if s == SchedulerState::Sleeping {
            if active {
                (SchedulerState::Analyzing, SchedulerAction::RunAnalysis)
            } else {
                (SchedulerState::Terminated, SchedulerAction::Exit)
            }
        } else {
            (s, SchedulerAction::Nothing)
        },
        SchedulerEvent::AnalysisDone => if s == SchedulerState::Analyzing {
            (SchedulerState::AwaitingSettings, SchedulerAction::ReadSettings)
        } else {
            (s, SchedulerAction::Nothing)
        },
        SchedulerEvent::StopRequested => if s == SchedulerState::Idle || s
            == SchedulerState::AwaitingSettings || s == SchedulerState::Sleeping || s
            == SchedulerState::Analyzing {
            (SchedulerState::Stopping, SchedulerAction::CancelAndRunFinal)
        } else {
            (s, SchedulerAction::Nothing)
        },
        SchedulerEvent::FinalAnalysisDone => if s == SchedulerState::Stopping {
            (SchedulerState::Terminated, SchedulerAction::Exit)
        } else {
            (s, SchedulerAction::Nothing)
        },
    }
}

/// The state after a sequence of events, starting in `s`.
pub open spec fn run_state(s: SchedulerState, events: Seq<SchedulerEvent>) -> SchedulerState
    decreases events.len(),
{
    if events.len() == 0 {
        s
    } else {
        scheduler_next(run_state(s, events.drop_last()), events.last()).0
    }
}

/// The actions taken along a sequence of events, starting in `s`.
pub open spec fn run_actions(s: SchedulerState, events: Seq<SchedulerEvent>) -> Seq<SchedulerAction>
    decreases events.len(),
{
    if events.len() == 0 {
        Seq::empty()
    } else {
        run_actions(s, events.drop_last()).push(
            scheduler_next(run_state(s, events.drop_last()), events.last()).1,
        )
    }
}

/// How many final passes a sequence of actions starts.
pub open spec fn final_passes(actions: Seq<SchedulerAction>) -> nat
    decreases actions.len(),
{
    if actions.len() == 0 {
        0
    } else {
        final_passes(actions.drop_last()) + if actions.last() == SchedulerAction::CancelAndRunFinal {
            1nat
        } else {
            0nat
        }
    }
}

/// Once a stop was requested, whatever happens next, the loop never runs,
/// sleeps or starts a pass again.
pub proof fn lemma_stop_is_final(s: SchedulerState, events: Seq<SchedulerEvent>)
    requires
        s == SchedulerState::Stopping || s == SchedulerState::Terminated,
    ensures
        run_state(s, events) == SchedulerState::Stopping || run_state(s, events)
            == SchedulerState::Terminated,
        s == SchedulerState::Terminated ==> run_state(s, events) == SchedulerState::Terminated,
        run_actions(s, events).len() == events.len(),
        forall|i: int|
            0 <= i < events.len() ==> {
                let a = #[trigger] run_actions(s, events)[i];
                a == SchedulerAction::Exit || a == SchedulerAction::Nothing
            },
    decreases events.len(),
{
    if events.len() > 0 {
        lemma_stop_is_final(s, events.drop_last());
        assert forall|i: int| 0 <= i < events.len() implies {
            let a = #[trigger] run_actions(s, events)[i];
            a == SchedulerAction::Exit || a == SchedulerAction::Nothing
        } by {
            if i < events.len() - 1 {
                assert(run_actions(s, events)[i] == run_actions(s, events.drop_last())[i]);
            }
        }
    }
}

/// Whatever events arrive, a session's loop starts at most one final pass,
/// and after it no periodic pass.
pub proof fn lemma_at_most_one_final_pass(events: Seq<SchedulerEvent>)
    ensures
        final_passes(run_actions(SchedulerState::Idle, events)) <= 1,
        final_passes(run_actions(SchedulerState::Idle, events)) == 1 ==> (run_state(
            SchedulerState::Idle,
            events,
        ) == SchedulerState::Stopping || run_state(SchedulerState::Idle, events)
            == SchedulerState::Terminated),
        final_passes(run_actions(SchedulerState::Idle, events)) == 0 ==> (run_state(
            SchedulerState::Idle,
            events,
        ) == SchedulerState::Idle || is_running(run_state(SchedulerState::Idle, events))
            || run_state(SchedulerState::Idle, events) == SchedulerState::Terminated),
    decreases events.len(),
{
    if events.len() > 0 {
        lemma_at_most_one_final_pass(events.drop_last());
        let acts = run_actions(SchedulerState::Idle, events);
        assert(acts.drop_last() =~= run_actions(SchedulerState::Idle, events.drop_last()));
    }
}

} // verus!
