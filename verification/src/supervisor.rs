//! The order in which the tarpit is shut down.
//!
//! The supervisor itself spawns tasks and waits for signals; what it decides is
//! written here as a state machine. Its caller reports what happened as an
//! [`Event`] and carries out the [`Action`] it gets back.

use vstd::prelude::*;
use crate::timing::Duration;

verus! {

/// Seconds the scheduler is given to let go of its clients after it was cancelled.
pub const DRAIN_DEADLINE_SECONDS: u64 = 10;

/// Exit code of a clean shutdown.
pub const EXIT_SUCCESS: u8 = 0;

/// Exit code after a supervised task has ended unexpectedly or has failed.
pub const EXIT_FAILURE: u8 = 1;

/// How far the shutdown has come.
#[derive(Clone, Copy, Debug, PartialEq, Eq, Structural)]
pub enum Phase {
    /// All tasks are at work.
    Running,
    /// The acceptor and the scheduler were cancelled; the scheduler is letting go
    /// of its clients.
    Draining,
    /// The statistics aggregator was cancelled; its final totals are awaited.
    Totalling,
    /// Nothing is left to do.
    Finished,
}

/// What the supervisor is told.
#[derive(Clone, Copy, Debug, PartialEq, Eq, Structural)]
pub enum Event {
    /// SIGINT arrived.
    Interrupt,
    /// SIGTERM arrived.
    Terminate,
    /// SIGUSR1 arrived.
    TotalsRequested,
    /// A supervised task has ended.
    TaskExited,
    /// The scheduler has returned.
    SchedulerStopped,
    /// The drain deadline has passed before the scheduler returned.
    DrainDeadlinePassed,
    /// The statistics aggregator has returned after logging its final totals.
    StatisticsStopped,
    /// The statistics aggregator could not be joined.
    StatisticsFailed,
}

/// What the supervisor asks for in answer to an [`Event`].
#[derive(Clone, Copy, Debug, PartialEq, Eq, Structural)]
pub enum Action {
    /// Nothing is to be done.
    Nothing,
    /// Send the statistics aggregator the command to log its totals.
    LogTotals,
    /// Cancel the acceptor, so that nobody new is admitted, then cancel the
    /// scheduler and wait for it no longer than the drain deadline.
    BeginShutdown,
    /// Cancel the statistics aggregator and wait for its final totals.
    StopStatistics,
    /// Leave the process with this exit code.
    Exit { code: u8 },
}

/// The supervisor's state.
#[derive(Clone, Copy, Debug, PartialEq, Eq, Structural)]
pub struct Supervisor {
    /// How far the shutdown has come.
    pub phase: Phase,
    /// Whether something went wrong, so that the exit code is not that of success.
    pub failed: bool,
}

/// Whether `event` asks for the shutdown to begin.
pub open spec fn is_cancel(event: Event) -> bool {
    event is Interrupt || event is Terminate || event is TaskExited
}

/// The exit code that ends a run on which something went wrong or not.
pub open spec fn exit_code(failed: bool) -> u8 {
    if failed {
        EXIT_FAILURE
    } else {
        EXIT_SUCCESS
    }
}

/// The state after `event` and the action that `event` calls for.
pub open spec fn step(state: Supervisor, event: Event) -> (Supervisor, Action) {
    match state.phase {
        Phase::Running => match event {
            Event::Interrupt | Event::Terminate => (
                Supervisor { phase: Phase::Draining, failed: state.failed },
                Action::BeginShutdown,
            ),
            Event::TaskExited => (
                Supervisor { phase: Phase::Draining, failed: true },
                Action::BeginShutdown,
            ),
            Event::TotalsRequested => (state, Action::LogTotals),
            _ => (state, Action::Nothing),
        },
        Phase::Draining => match event {
            Event::SchedulerStopped | Event::DrainDeadlinePassed => (
                Supervisor { phase: Phase::Totalling, failed: state.failed },
                Action::StopStatistics,
            ),
            _ => (state, Action::Nothing),
        },
        Phase::Totalling => match event {
            Event::StatisticsStopped => (
                Supervisor { phase: Phase::Finished, failed: state.failed },
                Action::Exit { code: exit_code(state.failed) },
            ),
            Event::StatisticsFailed => (
                Supervisor { phase: Phase::Finished, failed: true },
                Action::Exit { code: EXIT_FAILURE },
            ),
            _ => (state, Action::Nothing),
        },
        Phase::Finished => (state, Action::Nothing),
    }
}

/// The state after all of `events`, taken in order.
pub open spec fn state_after(state: Supervisor, events: Seq<Event>) -> Supervisor
    decreases events.len(),
{
    if events.len() == 0 {
        state
    } else {
        state_after(step(state, events[0]).0, events.drop_first())
    }
}

/// How often the shutdown is begun while `events` are taken in order.
pub open spec fn shutdowns_begun(state: Supervisor, events: Seq<Event>) -> nat
    decreases events.len(),
{
    if events.len() == 0 {
        0
    } else {
        let (next, action) = step(state, events[0]);
        let here: nat = if action is BeginShutdown {
            1
        } else {
            0
        };
        here + shutdowns_begun(next, events.drop_first())
    }
}

impl Supervisor {
    /// A supervisor whose tasks are all at work.
    pub fn new() -> (s: Supervisor)
        ensures
            s == (Supervisor { phase: Phase::Running, failed: false }),
    {
        Supervisor { phase: Phase::Running, failed: false }
    }

    /// The time the scheduler is given to let go of its clients.
    pub fn drain_deadline() -> (d: Duration)
        ensures
            d@ == DRAIN_DEADLINE_SECONDS * crate::timing::NANOS_PER_SECOND,
    {
        Duration::from_secs(DRAIN_DEADLINE_SECONDS)
    }

    /// Whether nothing is left to do.
    pub fn is_finished(&self) -> (b: bool)
        ensures
            b == (self.phase is Finished),
    {
        match self.phase {
            Phase::Finished => true,
            _ => false,
        }
    }

    /// Takes note of `event` and says what is to be done about it.
    pub fn handle(&mut self, event: Event) -> (action: Action)
        ensures
            (*final(self), action) == step(*old(self), event),
    {
        match self.phase {
            Phase::Running => match event {
                Event::Interrupt | Event::Terminate => {
                    self.phase = Phase::Draining;
                    Action::BeginShutdown
                },
                Event::TaskExited => {
                    self.phase = Phase::Draining;
                    self.failed = true;
                    Action::BeginShutdown
                },
                Event::TotalsRequested => Action::LogTotals,
                _ => Action::Nothing,
            },
            Phase::Draining => match event {
                Event::SchedulerStopped | Event::DrainDeadlinePassed => {
                    self.phase = Phase::Totalling;
                    Action::StopStatistics
                },
                _ => Action::Nothing,
            },
            Phase::Totalling => match event {
                Event::StatisticsStopped => {
                    self.phase = Phase::Finished;
                    let code: u8 = if self.failed {
                        EXIT_FAILURE
                    } else {
                        EXIT_SUCCESS
                    };
                    Action::Exit { code }
                },
                Event::StatisticsFailed => {
                    self.phase = Phase::Finished;
                    self.failed = true;
                    Action::Exit { code: EXIT_FAILURE }
                },
                _ => Action::Nothing,
            },
            Phase::Finished => Action::Nothing,
        }
    }
}

/// Once the shutdown has begun, a further signal to cancel changes nothing and
/// asks for nothing.
pub proof fn lemma_cancel_is_idempotent(state: Supervisor, first: Event, second: Event)
    requires
        is_cancel(first),
        is_cancel(second),
    ensures
        step(step(state, first).0, second) == (step(state, first).0, Action::Nothing),
{
}

/// Whatever is reported and in whatever order, the shutdown is begun at most
/// once, and never again after it has begun.
pub proof fn lemma_single_shutdown(state: Supervisor, events: Seq<Event>)
    ensures
        shutdowns_begun(state, events) <= 1,
        !(state.phase is Running) ==> shutdowns_begun(state, events) == 0,
    decreases events.len(),
{
    if events.len() > 0 {
        lemma_single_shutdown(step(state, events[0]).0, events.drop_first());
    }
}

/// The shutdown never goes back: a finished supervisor stays finished, and asks
/// for nothing more.
pub proof fn lemma_finished_is_final(state: Supervisor, events: Seq<Event>)
    requires
        state.phase is Finished,
    ensures
        state_after(state, events) == state,
    decreases events.len(),
{
    if events.len() > 0 {
        lemma_finished_is_final(state, events.drop_first());
    }
}

} // verus!
