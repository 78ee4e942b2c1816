use capyap_desktop::orchestrator::{
    Orchestrator, OrchestratorAction, OrchestratorEvent, OrchestratorState, READY_TIMEOUT_MS,
};
use capyap_desktop::readiness::{
    ReadinessWait, WaitAction, WaitEvent, WaitOutcome, POLL_INTERVAL_MS,
};

#[test]
fn already_healthy_backend_spawns_nothing() {
    let (mut o, first) = Orchestrator::new(5);
    assert_eq!(first, OrchestratorAction::ProbeHealth);
    assert_eq!(o.step(OrchestratorEvent::Probed(true)), OrchestratorAction::KeepExisting);
    assert_eq!(o.state, OrchestratorState::AlreadyHealthy);
    assert_eq!(o.step(OrchestratorEvent::SpawnFailed), OrchestratorAction::KeepExisting);
    assert_eq!(o.owned(), None);
}

#[test]
fn every_candidate_failing_gives_up_without_a_handle() {
    let (mut o, _) = Orchestrator::new(3);
    assert_eq!(o.step(OrchestratorEvent::Probed(false)), OrchestratorAction::Launch(0));
    assert_eq!(o.step(OrchestratorEvent::SpawnFailed), OrchestratorAction::Launch(1));
    assert_eq!(
        o.step(OrchestratorEvent::WaitEnded(WaitOutcome::TimedOut)),
        OrchestratorAction::ReleaseThenLaunch(2)
    );
    assert_eq!(
        o.step(OrchestratorEvent::WaitEnded(WaitOutcome::ExitedEarly)),
        OrchestratorAction::ReleaseThenGiveUp
    );
    assert_eq!(o.state, OrchestratorState::Exhausted);
    assert_eq!(o.owned(), None);
    assert_eq!(o.step(OrchestratorEvent::SpawnFailed), OrchestratorAction::GiveUp);
}

#[test]
fn last_spawn_failure_gives_up_without_release() {
    let (mut o, _) = Orchestrator::new(1);
    assert_eq!(o.step(OrchestratorEvent::Probed(false)), OrchestratorAction::Launch(0));
    assert_eq!(o.step(OrchestratorEvent::SpawnFailed), OrchestratorAction::GiveUp);
    let (mut none, _) = Orchestrator::new(0);
    assert_eq!(none.step(OrchestratorEvent::Probed(false)), OrchestratorAction::GiveUp);
}

#[test]
fn healthy_candidate_is_adopted() {
    let (mut o, _) = Orchestrator::new(4);
    o.step(OrchestratorEvent::Probed(false));
    o.step(OrchestratorEvent::SpawnFailed);
    assert_eq!(
        o.step(OrchestratorEvent::WaitEnded(WaitOutcome::Ready)),
        OrchestratorAction::Adopt(1)
    );
    assert_eq!(o.owned(), Some(1));
    assert_eq!(o.step(OrchestratorEvent::Probed(false)), OrchestratorAction::Adopt(1));
}

#[test]
fn mismatched_events_are_ignored() {
    let (mut o, _) = Orchestrator::new(2);
    assert_eq!(o.step(OrchestratorEvent::SpawnFailed), OrchestratorAction::Ignore);
    assert_eq!(o.state, OrchestratorState::Unchecked);
    o.step(OrchestratorEvent::Probed(false));
    assert_eq!(o.step(OrchestratorEvent::Probed(true)), OrchestratorAction::Ignore);
    assert_eq!(o.state, OrchestratorState::Trying(0));
}

#[test]
fn readiness_polls_until_healthy() {
    let (mut w, first) = ReadinessWait::new(READY_TIMEOUT_MS);
    assert_eq!(first, WaitAction::ReadClock);
    assert_eq!(w.step(WaitEvent::Clock(0)), WaitAction::ProbeHealth);
    assert_eq!(w.step(WaitEvent::Probe(false)), WaitAction::CheckExit);
    assert_eq!(w.step(WaitEvent::ExitStatus(false)), WaitAction::Sleep(POLL_INTERVAL_MS));
    assert_eq!(POLL_INTERVAL_MS, 350);
    assert_eq!(w.step(WaitEvent::Clock(400)), WaitAction::ProbeHealth);
    assert_eq!(w.step(WaitEvent::Probe(true)), WaitAction::Finish(WaitOutcome::Ready));
    assert_eq!(w.outcome(), Some(WaitOutcome::Ready));
}

#[test]
fn early_exit_stops_the_wait_at_once() {
    let (mut w, _) = ReadinessWait::new(22000);
    w.step(WaitEvent::Clock(100));
    w.step(WaitEvent::Probe(false));
    assert_eq!(w.step(WaitEvent::ExitStatus(true)), WaitAction::Finish(WaitOutcome::ExitedEarly));
    assert_eq!(w.outcome(), Some(WaitOutcome::ExitedEarly));
    assert_eq!(w.step(WaitEvent::Clock(200)), WaitAction::Finish(WaitOutcome::ExitedEarly));
}

#[test]
fn deadline_ends_the_wait() {
    let (mut w, _) = ReadinessWait::new(1000);
    assert_eq!(w.outcome(), None);
    assert_eq!(w.step(WaitEvent::Probe(true)), WaitAction::Ignore);
    assert_eq!(w.step(WaitEvent::Clock(1000)), WaitAction::Finish(WaitOutcome::TimedOut));
    assert_eq!(READY_TIMEOUT_MS, 22000);
}
