//! The poll scheduler's state machine.
//!
//! The scheduler waits in `Idle` until the interval timer fires, runs one
//! poll-encode-write cycle in `Running`, and returns to `Idle` on success.
//! Any cycle failure, and the external shutdown signal, terminate it: a
//! failure asks for a failing process exit, the signal for a graceful
//! one. The surrounding process drives this function on each event and
//! performs the returned action.

use vstd::prelude::*;

verus! {

/// Where the scheduler stands.
#[derive(Clone, Copy, Debug, PartialEq, Eq, Structural)]
pub enum SchedulerState {
    /// Waiting for the next timer tick.
    Idle,
    /// One poll-encode-write cycle is in flight.
    Running,
    /// Finished for good, by failure or by shutdown.
    Terminated,
}

/// What can happen to the scheduler.
#[derive(Clone, Copy, Debug, PartialEq, Eq, Structural)]
pub enum SchedulerEvent {
    /// The interval timer fired.
    Tick,
    /// The in-flight cycle finished completely.
    CycleSucceeded,
    /// The in-flight cycle failed at some stage.
    CycleFailed,
    /// The external shutdown signal arrived.
    ShutdownSignal,
}

/// What the surrounding process must do after a transition.
#[derive(Clone, Copy, Debug, PartialEq, Eq, Structural)]
pub enum SchedulerAction {
    /// Run one poll-encode-write cycle.
    StartCycle,
    /// Nothing; wait for the next event.
    Wait,
    /// Exit the process reporting success.
    ExitSuccess,
    /// Exit the process reporting the cycle's error.
    ExitFailure,
}

/// The transition relation: a tick starts a cycle only from `Idle`;
/// success returns to `Idle`; failure terminates with a failing exit;
/// the shutdown signal terminates gracefully from any live state, and
/// nothing leaves `Terminated`.
pub open spec fn spec_step(s: SchedulerState, e: SchedulerEvent) -> (
    SchedulerState,
    SchedulerAction,
) {
    match (s, e) {
        (SchedulerState::Idle, SchedulerEvent::Tick) => (
            SchedulerState::Running,
            SchedulerAction::StartCycle,
        ),
        (SchedulerState::Idle, SchedulerEvent::ShutdownSignal) => (
            SchedulerState::Terminated,
            SchedulerAction::ExitSuccess,
        ),
        (SchedulerState::Idle, _) => (SchedulerState::Idle, SchedulerAction::Wait),
        (SchedulerState::Running, SchedulerEvent::CycleSucceeded) => (
            SchedulerState::Idle,
            SchedulerAction::Wait,
        ),
        (SchedulerState::Running, SchedulerEvent::CycleFailed) => (
            SchedulerState::Terminated,
            SchedulerAction::ExitFailure,
        ),
        (SchedulerState::Running, SchedulerEvent::ShutdownSignal) => (
            SchedulerState::Terminated,
            SchedulerAction::ExitSuccess,
        ),
        (SchedulerState::Running, SchedulerEvent::Tick) => (
            SchedulerState::Running,
            SchedulerAction::Wait,
        ),
        (SchedulerState::Terminated, _) => (SchedulerState::Terminated, SchedulerAction::Wait),
    }
}

/// Performs one scheduler transition.
pub fn step(s: SchedulerState, e: SchedulerEvent) -> (r: (SchedulerState, SchedulerAction))
    ensures
        r == spec_step(s, e),
{
    match (s, e) {
        (SchedulerState::Idle, SchedulerEvent::Tick) => (
            SchedulerState::Running,
            SchedulerAction::StartCycle,
        ),
        (SchedulerState::Idle, SchedulerEvent::ShutdownSignal) => (
            SchedulerState::Terminated,
            SchedulerAction::ExitSuccess,
        ),
        (SchedulerState::Idle, _) => (SchedulerState::Idle, SchedulerAction::Wait),
        (SchedulerState::Running, SchedulerEvent::CycleSucceeded) => (
            SchedulerState::Idle,
            SchedulerAction::Wait,
        ),
        (SchedulerState::Running, SchedulerEvent::CycleFailed) => (
            SchedulerState::Terminated,
            SchedulerAction::ExitFailure,
        ),
        (SchedulerState::Running, SchedulerEvent::ShutdownSignal) => (
            SchedulerState::Terminated,
            SchedulerAction::ExitSuccess,
        ),
        (SchedulerState::Running, SchedulerEvent::Tick) => (
            SchedulerState::Running,
            SchedulerAction::Wait,
        ),
        (SchedulerState::Terminated, _) => (SchedulerState::Terminated, SchedulerAction::Wait),
    }
}

/// A cycle is started only by a tick from `Idle`, and only a cycle
/// failure asks for a failing exit: once a cycle fails, the scheduler is
/// terminated and never starts another cycle.
pub proof fn lemma_fail_fast(s: SchedulerState, e: SchedulerEvent)
    ensures
        spec_step(s, e).1 == SchedulerAction::StartCycle <==> (s == SchedulerState::Idle && e
            == SchedulerEvent::Tick),
        spec_step(s, e).1 == SchedulerAction::ExitFailure <==> (s == SchedulerState::Running && e
            == SchedulerEvent::CycleFailed),
        s == SchedulerState::Terminated ==> spec_step(s, e).0 == SchedulerState::Terminated,
{
}

} // verus!
