//! The collection scheduler's state machine: a periodic loop that never
//! runs two rounds at once. A round is only started from the idle state,
//! and the next timer wait begins only once the running round (including
//! its store write) has fully completed.

use vstd::prelude::*;

verus! {

/// Where the scheduler stands.
#[derive(Clone, Copy, Debug, PartialEq, Eq, Structural)]
pub enum SchedulerState {
    /// Waiting for the next tick of the fixed-period timer.
    Idle,
    /// A collection round, including its store write, is in progress.
    Collecting,
}

/// What the scheduler observes.
#[derive(Clone, Copy, Debug, PartialEq, Eq, Structural)]
pub enum SchedulerEvent {
    /// The fixed-period timer fired.
    TimerFired,
    /// The running round, including its store write, fully completed.
    RoundCompleted,
}

/// What the scheduler's driver is to do next.
#[derive(Clone, Copy, Debug, PartialEq, Eq, Structural)]
pub enum SchedulerAction {
    /// Reload the host list and run one collection round.
    StartRound,
    /// Wait for the next timer tick.
    AwaitTimer,
}

/// One transition of the scheduler. A round starts exactly on a timer
/// tick observed while idle, so no two rounds ever overlap; a tick
/// observed while a round runs starts nothing, and the timer is awaited
/// again only after the round completes. There is no terminal state.
pub fn scheduler_step(state: SchedulerState, event: SchedulerEvent) -> (r: (SchedulerState, SchedulerAction))
    ensures
        r.0 is Collecting <==> (state is Idle && event is TimerFired)
            || (state is Collecting && event is TimerFired),
        r.1 is StartRound <==> (state is Idle && event is TimerFired),
        state is Idle && event is TimerFired ==> r == (SchedulerState::Collecting, SchedulerAction::StartRound),
        state is Collecting && event is RoundCompleted ==> r == (SchedulerState::Idle, SchedulerAction::AwaitTimer),
        state is Collecting && event is TimerFired ==> r == (SchedulerState::Collecting, SchedulerAction::AwaitTimer),
        state is Idle && event is RoundCompleted ==> r == (SchedulerState::Idle, SchedulerAction::AwaitTimer),
{
    match (state, event) {
        (SchedulerState::Idle, SchedulerEvent::TimerFired) => {
            (SchedulerState::Collecting, SchedulerAction::StartRound)
        },
        (SchedulerState::Collecting, SchedulerEvent::RoundCompleted) => {
            (SchedulerState::Idle, SchedulerAction::AwaitTimer)
        },
        (s, _) => (s, SchedulerAction::AwaitTimer),
    }
}

} // verus!
