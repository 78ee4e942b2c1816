//! The startup policy: use a backend that is already up, or try the launch
//! candidates one at a time until one becomes healthy.
//!
//! The caller performs each requested action (probe, spawn and wait, kill and
//! reap) and feeds the result back as an event.

use vstd::prelude::*;
use crate::readiness::WaitOutcome;

verus! {

/// How long each spawned candidate is given to become healthy.
pub const READY_TIMEOUT_MS: u64 = 22000;

/// Where the startup sequence stands.
#[derive(Clone, Copy, Debug, PartialEq, Eq)]
pub enum OrchestratorState {
    /// Nothing is known yet; the first health probe is awaited.
    Unchecked,
    /// A backend was already reachable; nothing is spawned or owned.
    AlreadyHealthy,
    /// The candidate at this index is being tried.
    Trying(usize),
    /// The candidate at this index became healthy; its process is owned.
    Ready(usize),
    /// Every candidate failed; nothing is owned.
    Exhausted,
}

/// An observation handed to the orchestrator.
#[derive(Clone, Copy, Debug, PartialEq, Eq)]
pub enum OrchestratorEvent {
    /// The result of the health probe made before anything is spawned.
    Probed(bool),
    /// The current candidate could not be spawned.
    SpawnFailed,
    /// The current candidate was spawned and its readiness wait ended so.
    WaitEnded(WaitOutcome),
}

/// What the caller is to do next.
#[derive(Clone, Copy, Debug, PartialEq, Eq)]
pub enum OrchestratorAction {
    /// Probe the health endpoint.
    ProbeHealth,
    /// Use the backend that is already running; own nothing.
    KeepExisting,
    /// Spawn the candidate at this index and wait for it to become healthy.
    Launch(usize),
    /// Kill and reap the current child, then launch the candidate at this index.
    ReleaseThenLaunch(usize),
    /// Keep the current child, spawned from the candidate at this index, until
    /// shutdown.
    Adopt(usize),
    /// Kill and reap the current child, then report that no candidate worked.
    ReleaseThenGiveUp,
    /// Report that no candidate worked.
    GiveUp,
    /// The event did not fit the state and changed nothing.
    Ignore,
}

/// The orchestration of one startup over a list of `candidate_count`
/// candidates.
#[derive(Clone, Copy, Debug)]
pub struct Orchestrator {
    pub candidate_count: usize,
    pub state: OrchestratorState,
}

/// The launch that follows the end of candidate `i`, with or without
/// releasing its process first.
pub open spec fn advance(n: usize, i: usize, release: bool) -> (
    OrchestratorState,
    OrchestratorAction,
) {
    if i + 1 < n {
        (
            OrchestratorState::Trying((i + 1) as usize),
            if release {
                OrchestratorAction::ReleaseThenLaunch((i + 1) as usize)
            } else {
                OrchestratorAction::Launch((i + 1) as usize)
            },
        )
    } else {
        (
            OrchestratorState::Exhausted,
            if release {
                OrchestratorAction::ReleaseThenGiveUp
            } else {
                OrchestratorAction::GiveUp
            },
        )
    }
}

/// One transition over `n` candidates: the next state and the action asked
/// of the caller.
pub open spec fn orchestrate_step(
    n: usize,
    state: OrchestratorState,
    event: OrchestratorEvent,
) -> (OrchestratorState, OrchestratorAction) {
    match state {
        OrchestratorState::Unchecked => match event {
            OrchestratorEvent::Probed(healthy) => if healthy {
                (OrchestratorState::AlreadyHealthy, OrchestratorAction::KeepExisting)
            } else if n > 0 {
                (OrchestratorState::Trying(0), OrchestratorAction::Launch(0))
            } else {
                (OrchestratorState::Exhausted, OrchestratorAction::GiveUp)
            },
            _ => (state, OrchestratorAction::Ignore),
        },
        OrchestratorState::Trying(i) => match event {
            OrchestratorEvent::SpawnFailed => advance(n, i, false),
            OrchestratorEvent::WaitEnded(o) => if o == WaitOutcome::Ready {
                (OrchestratorState::Ready(i), OrchestratorAction::Adopt(i))
            } else {
                advance(n, i, true)
            },
            _ => (state, OrchestratorAction::Ignore),
        },
        OrchestratorState::AlreadyHealthy => (state, OrchestratorAction::KeepExisting),
        OrchestratorState::Ready(i) => (state, OrchestratorAction::Adopt(i)),
        OrchestratorState::Exhausted => (state, OrchestratorAction::GiveUp),
    }
}

/// The states and actions that a sequence of events leads through.
pub open spec fn orchestrate_run(
    n: usize,
    state: OrchestratorState,
    events: Seq<OrchestratorEvent>,
) -> (OrchestratorState, Seq<OrchestratorAction>)
    decreases events.len(),
{
    if events.len() == 0 {
        (state, seq![])
    } else {
        let (s1, a) = orchestrate_step(n, state, events[0]);
        let (s2, rest) = orchestrate_run(n, s1, events.skip(1));
        (s2, seq![a] + rest)
    }
}

/// The candidate an action spawns, if it spawns one.
pub open spec fn launched(a: OrchestratorAction) -> Option<usize> {
    match a {
        OrchestratorAction::Launch(i) => Some(i),
        OrchestratorAction::ReleaseThenLaunch(i) => Some(i),
        _ => None,
    }
}

/// An event that reports the failure of the current candidate.
pub open spec fn is_failure(e: OrchestratorEvent) -> bool {
    e == OrchestratorEvent::SpawnFailed || (e is WaitEnded && e->WaitEnded_0
        != WaitOutcome::Ready)
}

/// The state well-formed for `n` candidates: an index names one of them.
pub open spec fn state_fits(n: usize, s: OrchestratorState) -> bool {
    match s {
        OrchestratorState::Trying(i) => i < n,
        OrchestratorState::Ready(i) => i < n,
        _ => true,
    }
}

impl Orchestrator {
    /// A fresh orchestration over `candidate_count` candidates; its first
    /// request is a health probe.
    pub fn new(candidate_count: usize) -> (r: (Orchestrator, OrchestratorAction))
        ensures
            r.0.candidate_count == candidate_count,
            r.0.state == OrchestratorState::Unchecked,
            r.1 == OrchestratorAction::ProbeHealth,
    {
        (
            Orchestrator { candidate_count, state: OrchestratorState::Unchecked },
            OrchestratorAction::ProbeHealth,
        )
    }

    /// Every index in the state names one of the candidates.
    pub open spec fn well_formed(&self) -> bool {
        state_fits(self.candidate_count, self.state)
    }

    /// Takes one observation and says what to do next.
    pub fn step(&mut self, event: OrchestratorEvent) -> (r: OrchestratorAction)
        ensures
            final(self).candidate_count == old(self).candidate_count,
            old(self).well_formed() ==> final(self).well_formed(),
            (final(self).state, r) == orchestrate_step(
                old(self).candidate_count,
                old(self).state,
                event,
            ),
    {
        let n = self.candidate_count;
        let (state, action) = match self.state {
            OrchestratorState::Unchecked => match event {
                OrchestratorEvent::Probed(healthy) => if healthy {
                    (OrchestratorState::AlreadyHealthy, OrchestratorAction::KeepExisting)
                } else if n > 0 {
                    (OrchestratorState::Trying(0), OrchestratorAction::Launch(0))
                } else {
                    (OrchestratorState::Exhausted, OrchestratorAction::GiveUp)
                },
                _ => (self.state, OrchestratorAction::Ignore),
            },
            OrchestratorState::Trying(i) => match event {
                OrchestratorEvent::SpawnFailed => Self::advance(n, i, false),
                OrchestratorEvent::WaitEnded(o) => match o {
                    WaitOutcome::Ready => (
                        OrchestratorState::Ready(i),
                        OrchestratorAction::Adopt(i),
                    ),
                    _ => Self::advance(n, i, true),
                },
                _ => (self.state, OrchestratorAction::Ignore),
            },
            OrchestratorState::AlreadyHealthy => (self.state, OrchestratorAction::KeepExisting),
            OrchestratorState::Ready(i) => (self.state, OrchestratorAction::Adopt(i)),
            OrchestratorState::Exhausted => (self.state, OrchestratorAction::GiveUp),
        };
        self.state = state;
        action
    }

    fn advance(n: usize, i: usize, release: bool) -> (r: (
        OrchestratorState,
        OrchestratorAction,
    ))
        ensures
            r == advance(n, i, release),
            state_fits(n, r.0),
    {
        if n > 0 && i < n - 1 {
            (
                OrchestratorState::Trying(i + 1),
                if release {
                    OrchestratorAction::ReleaseThenLaunch(i + 1)
                } else {
                    OrchestratorAction::Launch(i + 1)
                },
            )
        } else {
            (
                OrchestratorState::Exhausted,
                if release {
                    OrchestratorAction::ReleaseThenGiveUp
                } else {
                    OrchestratorAction::GiveUp
                },
            )
        }
    }

    /// The candidate whose process this orchestration owns, if any: only a
    /// candidate that became healthy is kept, and a backend that was already
    /// running is never owned.
    pub fn owned(&self) -> (r: Option<usize>)
        ensures
            r == match self.state {
                OrchestratorState::Ready(i) => Some(i),
                _ => None,
            },
    {
        match self.state {
            OrchestratorState::Ready(i) => Some(i),
            _ => None,
        }
    }
}

/// Once a backend is found already running, nothing is ever spawned or
/// owned: every later event leaves the state as it is and asks only to keep
/// the existing backend.
pub proof fn already_healthy_spawns_nothing(n: usize, events: Seq<OrchestratorEvent>)
    ensures
        orchestrate_run(n, OrchestratorState::Unchecked, seq![OrchestratorEvent::Probed(true)]
            + events).0 == OrchestratorState::AlreadyHealthy,
        orchestrate_run(n, OrchestratorState::Unchecked, seq![OrchestratorEvent::Probed(true)]
            + events).1.len() == events.len() + 1,
        forall|k: int|
            0 <= k <= events.len() ==> #[trigger] orchestrate_run(
                n,
                OrchestratorState::Unchecked,
                seq![OrchestratorEvent::Probed(true)] + events,
            ).1[k] == OrchestratorAction::KeepExisting,
{
    let all = seq![OrchestratorEvent::Probed(true)] + events;
    assert(all.skip(1) =~= events);
    healthy_stays_healthy(n, events);
    let rest = orchestrate_run(n, OrchestratorState::AlreadyHealthy, events).1;
    let full = orchestrate_run(n, OrchestratorState::Unchecked, all).1;
    assert(full == seq![OrchestratorAction::KeepExisting] + rest);
    assert forall|k: int| 0 <= k <= events.len() implies #[trigger] full[k]
        == OrchestratorAction::KeepExisting by {
        if k > 0 {
            assert(full[k] == rest[k - 1]);
        }
    }
}

proof fn healthy_stays_healthy(n: usize, events: Seq<OrchestratorEvent>)
    ensures
        orchestrate_run(n, OrchestratorState::AlreadyHealthy, events).0
            == OrchestratorState::AlreadyHealthy,
        orchestrate_run(n, OrchestratorState::AlreadyHealthy, events).1.len() == events.len(),
        forall|k: int|
            0 <= k < events.len() ==> #[trigger] orchestrate_run(
                n,
                OrchestratorState::AlreadyHealthy,
                events,
            ).1[k] == OrchestratorAction::KeepExisting,
    decreases events.len(),
{
    if events.len() > 0 {
        healthy_stays_healthy(n, events.skip(1));
        let rest = orchestrate_run(n, OrchestratorState::AlreadyHealthy, events.skip(1)).1;
        let full = orchestrate_run(n, OrchestratorState::AlreadyHealthy, events).1;
        assert(full == seq![OrchestratorAction::KeepExisting] + rest);
        assert forall|k: int| 0 <= k < events.len() implies #[trigger] full[k]
            == OrchestratorAction::KeepExisting by {
            if k > 0 {
                assert(full[k] == rest[k - 1]);
            }
        }
    }
}

proof fn failures_exhaust(n: usize, i: usize, fails: Seq<OrchestratorEvent>)
    requires
        i < n,
        fails.len() == n - i,
        forall|k: int| 0 <= k < fails.len() ==> is_failure(#[trigger] fails[k]),
    ensures
        orchestrate_run(n, OrchestratorState::Trying(i), fails).0 == OrchestratorState::Exhausted,
        orchestrate_run(n, OrchestratorState::Trying(i), fails).1.len() == n - i,
        forall|k: int|
            0 <= k < n - i - 1 ==> launched(
                #[trigger] orchestrate_run(n, OrchestratorState::Trying(i), fails).1[k],
            ) == Some((i + 1 + k) as usize),
        orchestrate_run(n, OrchestratorState::Trying(i), fails).1.last()
            == OrchestratorAction::GiveUp || orchestrate_run(
            n,
            OrchestratorState::Trying(i),
            fails,
        ).1.last() == OrchestratorAction::ReleaseThenGiveUp,
    decreases n - i,
{
    assert(is_failure(fails[0]));
    let full = orchestrate_run(n, OrchestratorState::Trying(i), fails).1;
    if i + 1 < n {
        let tail = fails.skip(1);
        assert forall|k: int| 0 <= k < tail.len() implies is_failure(#[trigger] tail[k]) by {
            assert(tail[k] == fails[k + 1]);
        }
        failures_exhaust(n, (i + 1) as usize, tail);
        let rest = orchestrate_run(n, OrchestratorState::Trying((i + 1) as usize), tail).1;
        assert(full == seq![orchestrate_step(n, OrchestratorState::Trying(i), fails[0]).1]
            + rest);
        assert forall|k: int| 0 <= k < n - i - 1 implies launched(#[trigger] full[k]) == Some(
            (i + 1 + k) as usize,
        ) by {
            if k > 0 {
                assert(full[k] == rest[k - 1]);
            }
        }
    } else {
        let first = orchestrate_step(n, OrchestratorState::Trying(i), fails[0]);
        assert(first.0 == OrchestratorState::Exhausted);
        assert(fails.skip(1) =~= Seq::<OrchestratorEvent>::empty());
        assert(orchestrate_run(n, first.0, fails.skip(1)) == (
            OrchestratorState::Exhausted,
            Seq::<OrchestratorAction>::empty(),
        ));
        assert(full =~= seq![first.1]);
    }
}

/// When every candidate fails, the orchestration tries each exactly once, in
/// order, and ends with no process owned: after the unhealthy first probe and
/// one failure per candidate it has asked to launch candidates 0 to n-1 and
/// then to give up.
pub proof fn all_failures_give_up(n: usize, fails: Seq<OrchestratorEvent>)
    requires
        n > 0,
        fails.len() == n,
        forall|k: int| 0 <= k < fails.len() ==> is_failure(#[trigger] fails[k]),
    ensures
        orchestrate_run(n, OrchestratorState::Unchecked, seq![OrchestratorEvent::Probed(false)]
            + fails).0 == OrchestratorState::Exhausted,
        orchestrate_run(n, OrchestratorState::Unchecked, seq![OrchestratorEvent::Probed(false)]
            + fails).1.len() == n + 1,
        forall|k: int|
            0 <= k < n ==> launched(
                #[trigger] orchestrate_run(
                    n,
                    OrchestratorState::Unchecked,
                    seq![OrchestratorEvent::Probed(false)] + fails,
                ).1[k],
            ) == Some(k as usize),
        orchestrate_run(n, OrchestratorState::Unchecked, seq![OrchestratorEvent::Probed(false)]
            + fails).1[n as int] == OrchestratorAction::GiveUp || orchestrate_run(
            n,
            OrchestratorState::Unchecked,
            seq![OrchestratorEvent::Probed(false)] + fails,
        ).1[n as int] == OrchestratorAction::ReleaseThenGiveUp,
{
    let all = seq![OrchestratorEvent::Probed(false)] + fails;
    assert(all.skip(1) =~= fails);
    failures_exhaust(n, 0, fails);
    let rest = orchestrate_run(n, OrchestratorState::Trying(0), fails).1;
    let full = orchestrate_run(n, OrchestratorState::Unchecked, all).1;
    assert(full == seq![OrchestratorAction::Launch(0)] + rest);
    assert forall|k: int| 0 <= k < n implies launched(#[trigger] full[k]) == Some(
        k as usize,
    ) by {
        if k > 0 {
            assert(full[k] == rest[k - 1]);
        }
    }
    assert(full[n as int] == rest[n - 1]);
}

} // verus!
