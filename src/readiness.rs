//! Waiting for a freshly spawned backend to become healthy.
//!
//! The wait is a state machine: the caller performs each requested
//! observation (read the clock, probe health, check whether the child has
//! exited, sleep) and feeds the result back as an event.

use vstd::prelude::*;

verus! {

/// How long to sleep between two rounds of observations.
pub const POLL_INTERVAL_MS: u64 = 350;

/// How a readiness wait ended.
#[derive(Clone, Copy, Debug, PartialEq, Eq)]
pub enum WaitOutcome {
    /// The backend answered healthy.
    Ready,
    /// The child process exited on its own before becoming healthy.
    ExitedEarly,
    /// The time allowed ran out.
    TimedOut,
}

/// Which observation the wait expects next.
#[derive(Clone, Copy, Debug, PartialEq, Eq)]
pub enum WaitStage {
    AwaitClock,
    AwaitProbe,
    AwaitExitStatus,
    Finished(WaitOutcome),
}

/// An observation handed to the wait.
#[derive(Clone, Copy, Debug, PartialEq, Eq)]
pub enum WaitEvent {
    /// Milliseconds elapsed since the wait began.
    Clock(u64),
    /// Whether a health probe succeeded.
    Probe(bool),
    /// Whether the child process has exited.
    ExitStatus(bool),
}

/// What the caller is to do next.
#[derive(Clone, Copy, Debug, PartialEq, Eq)]
pub enum WaitAction {
    ReadClock,
    ProbeHealth,
    CheckExit,
    /// Sleep this many milliseconds, then read the clock.
    Sleep(u64),
    Finish(WaitOutcome),
    /// The event did not fit the stage and changed nothing.
    Ignore,
}

/// The readiness wait of one spawned candidate.
#[derive(Clone, Copy, Debug)]
pub struct ReadinessWait {
    pub max_wait_ms: u64,
    pub stage: WaitStage,
}

/// One transition: the next stage and the action asked of the caller.
pub open spec fn wait_step(max_wait_ms: u64, stage: WaitStage, event: WaitEvent) -> (
    WaitStage,
    WaitAction,
) {
    match stage {
        WaitStage::Finished(o) => (stage, WaitAction::Finish(o)),
        WaitStage::AwaitClock => match event {
            WaitEvent::Clock(t) => if t < max_wait_ms {
                (WaitStage::AwaitProbe, WaitAction::ProbeHealth)
            } else {
                (
                    WaitStage::Finished(WaitOutcome::TimedOut),
                    WaitAction::Finish(WaitOutcome::TimedOut),
                )
            },
            _ => (stage, WaitAction::Ignore),
        },
        WaitStage::AwaitProbe => match event {
            WaitEvent::Probe(healthy) => if healthy {
                (WaitStage::Finished(WaitOutcome::Ready), WaitAction::Finish(WaitOutcome::Ready))
            } else {
                (WaitStage::AwaitExitStatus, WaitAction::CheckExit)
            },
            _ => (stage, WaitAction::Ignore),
        },
        WaitStage::AwaitExitStatus => match event {
            WaitEvent::ExitStatus(exited) => if exited {
                (
                    WaitStage::Finished(WaitOutcome::ExitedEarly),
                    WaitAction::Finish(WaitOutcome::ExitedEarly),
                )
            } else {
                (WaitStage::AwaitClock, WaitAction::Sleep(POLL_INTERVAL_MS))
            },
            _ => (stage, WaitAction::Ignore),
        },
    }
}

/// The stages and actions that a sequence of events leads through.
pub open spec fn wait_run(max_wait_ms: u64, stage: WaitStage, events: Seq<WaitEvent>) -> (
    WaitStage,
    Seq<WaitAction>,
)
    decreases events.len(),
{
    if events.len() == 0 {
        (stage, seq![])
    } else {
        let (s1, a) = wait_step(max_wait_ms, stage, events[0]);
        let (s2, rest) = wait_run(max_wait_ms, s1, events.skip(1));
        (s2, seq![a] + rest)
    }
}

impl ReadinessWait {
    /// A wait that allows `max_wait_ms` milliseconds; it first asks for the
    /// clock.
    pub fn new(max_wait_ms: u64) -> (r: (ReadinessWait, WaitAction))
        ensures
            r.0.max_wait_ms == max_wait_ms,
            r.0.stage == WaitStage::AwaitClock,
            r.1 == WaitAction::ReadClock,
    {
        (ReadinessWait { max_wait_ms, stage: WaitStage::AwaitClock }, WaitAction::ReadClock)
    }

    /// Takes one observation and says what to do next.
    pub fn step(&mut self, event: WaitEvent) -> (r: WaitAction)
        ensures
            final(self).max_wait_ms == old(self).max_wait_ms,
            (final(self).stage, r) == wait_step(old(self).max_wait_ms, old(self).stage, event),
    {
        let (stage, action) = match self.stage {
            WaitStage::Finished(o) => (self.stage, WaitAction::Finish(o)),
            WaitStage::AwaitClock => match event {
                WaitEvent::Clock(t) => if t < self.max_wait_ms {
                    (WaitStage::AwaitProbe, WaitAction::ProbeHealth)
                } else {
                    (
                        WaitStage::Finished(WaitOutcome::TimedOut),
                        WaitAction::Finish(WaitOutcome::TimedOut),
                    )
                },
                _ => (self.stage, WaitAction::Ignore),
            },
            WaitStage::AwaitProbe => match event {
                WaitEvent::Probe(healthy) => if healthy {
                    (
                        WaitStage::Finished(WaitOutcome::Ready),
                        WaitAction::Finish(WaitOutcome::Ready),
                    )
                } else {
                    (WaitStage::AwaitExitStatus, WaitAction::CheckExit)
                },
                _ => (self.stage, WaitAction::Ignore),
            },
            WaitStage::AwaitExitStatus => match event {
                WaitEvent::ExitStatus(exited) => if exited {
                    (
                        WaitStage::Finished(WaitOutcome::ExitedEarly),
                        WaitAction::Finish(WaitOutcome::ExitedEarly),
                    )
                } else {
                    (WaitStage::AwaitClock, WaitAction::Sleep(POLL_INTERVAL_MS))
                },
                _ => (self.stage, WaitAction::Ignore),
            },
        };
        self.stage = stage;
        action
    }

    /// How the wait ended, once it has.
    pub fn outcome(&self) -> (r: Option<WaitOutcome>)
        ensures
            r == match self.stage {
                WaitStage::Finished(o) => Some(o),
                _ => None,
            },
    {
        match self.stage {
            WaitStage::Finished(o) => Some(o),
            _ => None,
        }
    }
}

/// A child that exits before it is healthy ends the wait at once: one round
/// of observations made while time is left, with an unhealthy probe and an
/// exited child, finishes with `ExitedEarly` and asks for no sleep.
pub proof fn early_exit_ends_wait(max_wait_ms: u64, elapsed_ms: u64)
    requires
        elapsed_ms < max_wait_ms,
    ensures
        wait_run(
            max_wait_ms,
            WaitStage::AwaitClock,
            seq![
                WaitEvent::Clock(elapsed_ms),
                WaitEvent::Probe(false),
                WaitEvent::ExitStatus(true),
            ],
        ) == (
            WaitStage::Finished(WaitOutcome::ExitedEarly),
            seq![
                WaitAction::ProbeHealth,
                WaitAction::CheckExit,
                WaitAction::Finish(WaitOutcome::ExitedEarly),
            ],
        ),
{
    let e = seq![
        WaitEvent::Clock(elapsed_ms),
        WaitEvent::Probe(false),
        WaitEvent::ExitStatus(true),
    ];
    let done = WaitStage::Finished(WaitOutcome::ExitedEarly);
    let fin = WaitAction::Finish(WaitOutcome::ExitedEarly);
    assert(e.skip(1) =~= seq![WaitEvent::Probe(false), WaitEvent::ExitStatus(true)]);
    assert(e.skip(1).skip(1) =~= seq![WaitEvent::ExitStatus(true)]);
    assert(e.skip(1).skip(1).skip(1) =~= Seq::<WaitEvent>::empty());
    assert(wait_run(max_wait_ms, done, e.skip(1).skip(1).skip(1)) == (done, Seq::<WaitAction>::empty()));
    assert(wait_run(max_wait_ms, WaitStage::AwaitExitStatus, e.skip(1).skip(1)) == (
        done,
        seq![fin],
    )) by {
        assert(seq![fin] + Seq::<WaitAction>::empty() =~= seq![fin]);
    }
    assert(wait_run(max_wait_ms, WaitStage::AwaitProbe, e.skip(1)) == (
        done,
        seq![WaitAction::CheckExit, fin],
    )) by {
        assert(seq![WaitAction::CheckExit] + seq![fin] =~= seq![WaitAction::CheckExit, fin]);
    }
    assert(seq![WaitAction::ProbeHealth] + seq![WaitAction::CheckExit, fin] =~= seq![
        WaitAction::ProbeHealth,
        WaitAction::CheckExit,
        fin,
    ]);
}

/// A finished wait stays finished: whatever is observed afterwards, the stage
/// and the outcome do not change.
pub proof fn finished_wait_is_final(max_wait_ms: u64, o: WaitOutcome, events: Seq<WaitEvent>)
    ensures
        wait_run(max_wait_ms, WaitStage::Finished(o), events).0 == WaitStage::Finished(o),
        wait_run(max_wait_ms, WaitStage::Finished(o), events).1.len() == events.len(),
        forall|k: int|
            0 <= k < events.len() ==> #[trigger] wait_run(
                max_wait_ms,
                WaitStage::Finished(o),
                events,
            ).1[k] == WaitAction::Finish(o),
    decreases events.len(),
{
    if events.len() > 0 {
        finished_wait_is_final(max_wait_ms, o, events.skip(1));
        let rest = wait_run(max_wait_ms, WaitStage::Finished(o), events.skip(1)).1;
        let full = wait_run(max_wait_ms, WaitStage::Finished(o), events).1;
        assert(full == seq![WaitAction::Finish(o)] + rest);
        assert forall|k: int| 0 <= k < events.len() implies #[trigger] wait_run(
            max_wait_ms,
            WaitStage::Finished(o),
            events,
        ).1[k] == WaitAction::Finish(o) by {
            if k > 0 {
                assert(full[k] == rest[k - 1]);
            }
        }
    }
}

} // verus!
