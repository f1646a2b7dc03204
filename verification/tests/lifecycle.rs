use fallbackdm::credential::EnvEntry;
use fallbackdm::orchestrator::Action;
use fallbackdm::orchestrator::Event;
use fallbackdm::orchestrator::Orchestrator;
use fallbackdm::orchestrator::Phase;
use fallbackdm::status::ControlError;
use fallbackdm::status::PamStatus;
use fallbackdm::trigger::ReleaseTrigger;
use fallbackdm::vt::VtStatus;

fn session_env(id: &str) -> Vec<EnvEntry> {
    vec![EnvEntry { key: "XDG_SESSION_ID".to_string(), value: id.to_string() }]
}

#[test]
fn full_run_with_timer_trigger_exits_zero() {
    // Authenticate, open a session under identifier "3", take control, let
    // a zero-duration timer fire, release control, close the session, exit
    // with status zero.
    let mut run = Orchestrator::new(ReleaseTrigger::Timer(0));

    assert!(matches!(run.step(Event::Started), Action::ProbeVt));
    assert!(matches!(run.step(Event::VtProbed(VtStatus::InputActive(1))), Action::RunAuthenticate));
    assert!(matches!(
        run.step(Event::AuthOutcome(PamStatus::Success)),
        Action::RunOpenSession
    ));
    let take = run.step(Event::OpenOutcome(PamStatus::Success, session_env("3")));
    match take {
        Action::CallTakeControl(call) => {
            assert_eq!(call.destination, "org.freedesktop.login1");
            assert_eq!(call.path, "/org/freedesktop/login1/session/3");
            assert_eq!(call.member, "TakeControl");
        }
        other => panic!("expected a take-control call, got {:?}", other),
    }
    assert!(run.client.is_authenticated);
    assert!(run.client.has_open_session);

    assert!(matches!(run.step(Event::TakeControlReply(Ok(()))), Action::ProbeVt));
    assert!(run.control_taken);
    assert!(matches!(
        run.step(Event::VtProbed(VtStatus::InputDisabled)),
        Action::AwaitRelease
    ));
    let release = run.step(Event::TriggerFired);
    match release {
        Action::CallReleaseControl(call) => {
            assert_eq!(call.path, "/org/freedesktop/login1/session/3");
            assert_eq!(call.member, "ReleaseControl");
        }
        other => panic!("expected a release-control call, got {:?}", other),
    }
    assert!(matches!(run.step(Event::ReleaseReply(Ok(()))), Action::ProbeVt));
    assert!(matches!(
        run.step(Event::VtProbed(VtStatus::InputActive(1))),
        Action::RunCloseSession
    ));
    assert!(matches!(
        run.step(Event::CloseOutcome(PamStatus::Success)),
        Action::FinalizeHandle(PamStatus::Success)
    ));
    assert!(run.client.finalized);
    assert!(matches!(run.step(Event::Finalized), Action::Exit(0)));
    assert_eq!(run.phase, Phase::Done);
}

#[test]
fn failed_authentication_exits_nonzero_without_channel_or_close() {
    let mut run = Orchestrator::new(ReleaseTrigger::Timer(0));
    assert!(matches!(run.step(Event::Started), Action::ProbeVt));
    assert!(matches!(run.step(Event::VtProbed(VtStatus::Absent)), Action::RunAuthenticate));
    // Authentication fails: the handle is finalized directly — no control
    // channel is ever built and no session-close is attempted.
    assert!(matches!(
        run.step(Event::AuthOutcome(PamStatus::AuthErr)),
        Action::FinalizeHandle(PamStatus::Success)
    ));
    assert!(run.channel.is_none());
    assert!(!run.client.has_open_session);
    assert!(run.failed);
    assert!(matches!(run.step(Event::Finalized), Action::Exit(code) if code != 0));
}

#[test]
fn absent_terminal_device_does_not_disturb_the_sequence() {
    let mut run = Orchestrator::new(ReleaseTrigger::Timer(0));
    assert!(matches!(run.step(Event::Started), Action::ProbeVt));
    // The probe found no terminal device at all; the run continues exactly
    // as with any other status.
    assert!(matches!(run.step(Event::VtProbed(VtStatus::Absent)), Action::RunAuthenticate));
    assert!(!run.failed);
    assert_eq!(run.phase, Phase::Authing);
}

#[test]
fn interrupted_wait_leaves_control_asserted() {
    // Control is taken, then the run reaches the release wait and the
    // process is terminated there: control was asserted and no release was
    // ever attempted, which the next run finds as it is.
    let mut run = Orchestrator::new(ReleaseTrigger::InputEvent("seat0".to_string()));
    run.step(Event::Started);
    run.step(Event::VtProbed(VtStatus::InputActive(1)));
    run.step(Event::AuthOutcome(PamStatus::Success));
    run.step(Event::OpenOutcome(PamStatus::Success, session_env("5")));
    run.step(Event::TakeControlReply(Ok(())));
    assert!(matches!(
        run.step(Event::VtProbed(VtStatus::InputDisabled)),
        Action::AwaitRelease
    ));
    assert_eq!(run.phase, Phase::WaitingRelease);
    assert!(run.control_taken);
    assert!(!run.release_attempted);
    assert!(run.client.has_open_session);
}

#[test]
fn failed_take_control_still_closes_the_session() {
    let mut run = Orchestrator::new(ReleaseTrigger::Timer(0));
    run.step(Event::Started);
    run.step(Event::VtProbed(VtStatus::InputActive(1)));
    run.step(Event::AuthOutcome(PamStatus::Success));
    run.step(Event::OpenOutcome(PamStatus::Success, session_env("3")));
    assert!(matches!(
        run.step(Event::TakeControlReply(Err(ControlError::Timeout))),
        Action::RunCloseSession
    ));
    assert!(run.failed);
    assert!(!run.control_taken);
    assert!(matches!(
        run.step(Event::CloseOutcome(PamStatus::Success)),
        Action::FinalizeHandle(PamStatus::Success)
    ));
    assert!(matches!(run.step(Event::Finalized), Action::Exit(1)));
}

#[test]
fn failed_release_still_closes_the_session() {
    let mut run = Orchestrator::new(ReleaseTrigger::Timer(0));
    run.step(Event::Started);
    run.step(Event::VtProbed(VtStatus::InputActive(1)));
    run.step(Event::AuthOutcome(PamStatus::Success));
    run.step(Event::OpenOutcome(PamStatus::Success, session_env("3")));
    run.step(Event::TakeControlReply(Ok(())));
    run.step(Event::VtProbed(VtStatus::InputDisabled));
    run.step(Event::TriggerFired);
    assert!(matches!(
        run.step(Event::ReleaseReply(Err(ControlError::Failed))),
        Action::RunCloseSession
    ));
    assert!(run.failed);
    // A failed close is still followed by exactly one finalization,
    // carrying the close's code.
    assert!(matches!(
        run.step(Event::CloseOutcome(PamStatus::SessionErr)),
        Action::FinalizeHandle(PamStatus::SessionErr)
    ));
    assert!(run.client.finalized);
    assert!(matches!(run.step(Event::Finalized), Action::Exit(1)));
}

#[test]
fn missing_session_id_aborts_before_take_control() {
    let mut run = Orchestrator::new(ReleaseTrigger::Timer(0));
    run.step(Event::Started);
    run.step(Event::VtProbed(VtStatus::InputActive(1)));
    run.step(Event::AuthOutcome(PamStatus::Success));
    // The session opened but no identifier was assigned: fatal, but the
    // open session is still closed before the handle goes.
    assert!(matches!(
        run.step(Event::OpenOutcome(PamStatus::Success, vec![])),
        Action::RunCloseSession
    ));
    assert!(run.failed);
    assert!(run.channel.is_none());
}

#[test]
fn mismatched_events_are_ignored() {
    let mut run = Orchestrator::new(ReleaseTrigger::Timer(0));
    assert!(matches!(run.step(Event::TriggerFired), Action::Ignore));
    assert_eq!(run.phase, Phase::Idle);
    run.step(Event::Started);
    assert!(matches!(run.step(Event::Finalized), Action::Ignore));
    assert_eq!(run.phase, Phase::ProbePre);
}
