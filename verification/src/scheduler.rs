//! Cadence-driven ingestion: one pass at once, then one per cadence until shutdown.
use vstd::prelude::*;

use crate::config::Duration;

verus! {

/// Runs source ingestion immediately and then at a configured cadence.
#[derive(Clone, Copy, Debug)]
pub struct Scheduler {
    pub cadence: Duration,
}

/// What happened since the scheduler last decided.
#[derive(Debug)]
pub enum SchedulerEvent {
    /// The worker started.
    Started,
    /// An ingestion pass ended; `false` when it failed.
    PassEnded { succeeded: bool },
    /// The wait after a pass ended.
    WaitElapsed,
    /// A shutdown signal arrived during the wait; `false` when listening for it failed.
    ShutdownRequested { received: bool },
}

/// What the worker does next.
#[derive(Debug, PartialEq, Eq, Structural)]
pub enum SchedulerAction {
    /// Run one ingestion pass over every enabled source.
    RunPass,
    /// Wait this long for the next pass, unless a shutdown signal comes first.
    Wait(Duration),
    /// Stop; `false` when stopping because of a failure.
    Stop { clean: bool },
}

/// The scheduler's rule: a pass right after start and after every wait; a
/// wait of one cadence after a pass that succeeded; a stop after a failed
/// pass, or on shutdown (clean when the signal was received).
pub open spec fn scheduler_step(cadence: Duration, event: SchedulerEvent) -> SchedulerAction {
    match event {
        SchedulerEvent::Started => SchedulerAction::RunPass,
        SchedulerEvent::WaitElapsed => SchedulerAction::RunPass,
        SchedulerEvent::PassEnded { succeeded } => if succeeded {
            SchedulerAction::Wait(cadence)
        } else {
            SchedulerAction::Stop { clean: false }
        },
        SchedulerEvent::ShutdownRequested { received } => SchedulerAction::Stop { clean: received },
    }
}

impl Scheduler {
    /// Creates a scheduler with the supplied delay between ingestion passes.
    pub fn new(cadence: Duration) -> (s: Scheduler)
        ensures
            s.cadence == cadence,
    {
        Scheduler { cadence }
    }

    /// The delay between ingestion passes.
    pub fn cadence(&self) -> (d: Duration)
        ensures
            d == self.cadence,
    {
        self.cadence
    }

    /// Decides what the worker does after `event`.
    pub fn next_action(&self, event: SchedulerEvent) -> (a: SchedulerAction)
        ensures
            a == scheduler_step(self.cadence, event),
    {
        match event {
            SchedulerEvent::Started => SchedulerAction::RunPass,
            SchedulerEvent::WaitElapsed => SchedulerAction::RunPass,
            SchedulerEvent::PassEnded { succeeded } => {
                if succeeded {
                    SchedulerAction::Wait(self.cadence)
                } else {
                    SchedulerAction::Stop { clean: false }
                }
            },
            SchedulerEvent::ShutdownRequested { received } => SchedulerAction::Stop { clean: received },
        }
    }
}

/// Passes repeat at the cadence: every successful pass is followed by a wait
/// of exactly one cadence, and every elapsed wait by another pass.
pub proof fn lemma_passes_repeat_at_cadence(s: Scheduler)
    ensures
        scheduler_step(s.cadence, SchedulerEvent::PassEnded { succeeded: true }) == SchedulerAction::Wait(s.cadence),
        scheduler_step(s.cadence, SchedulerEvent::WaitElapsed) == SchedulerAction::RunPass,
        scheduler_step(s.cadence, SchedulerEvent::Started) == SchedulerAction::RunPass,
{
}

} // verus!
