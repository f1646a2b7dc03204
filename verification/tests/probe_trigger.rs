use fallbackdm::control::classify_transport_error;
use fallbackdm::control::CallArg;
use fallbackdm::control::ControlChannel;
use fallbackdm::control::CONTROL_TIMEOUT_MS;
use fallbackdm::status::ControlError;
use fallbackdm::trigger::scan_for_keyboard;
use fallbackdm::trigger::timer_elapsed;
use fallbackdm::trigger::EventClass;
use fallbackdm::trigger::InputWait;
use fallbackdm::trigger::TriggerState;
use fallbackdm::vt::classify_vt_probe;
use fallbackdm::vt::vt_log_level;
use fallbackdm::vt::LogLevel;
use fallbackdm::vt::VtProbe;
use fallbackdm::vt::VtStatus;
use fallbackdm::vt::K_OFF;

#[test]
fn missing_device_is_absent_and_informational() {
    let status = classify_vt_probe(&VtProbe::DeviceMissing);
    assert_eq!(status, VtStatus::Absent);
    assert_eq!(vt_log_level(&status), LogLevel::Info);
}

#[test]
fn failed_probe_carries_the_os_error() {
    let denied = classify_vt_probe(&VtProbe::OpenFailed(13));
    assert_eq!(denied, VtStatus::QueryFailed(13));
    assert_eq!(vt_log_level(&denied), LogLevel::Error);
    let query = classify_vt_probe(&VtProbe::QueryError(5));
    assert_eq!(query, VtStatus::QueryFailed(5));
}

#[test]
fn keyboard_mode_classifies_off_and_active() {
    assert_eq!(classify_vt_probe(&VtProbe::KeyboardMode(K_OFF)), VtStatus::InputDisabled);
    let active = classify_vt_probe(&VtProbe::KeyboardMode(1));
    assert_eq!(active, VtStatus::InputActive(1));
    assert_eq!(vt_log_level(&active), LogLevel::Warning);
    assert_eq!(vt_log_level(&VtStatus::InputDisabled), LogLevel::Info);
}

#[test]
fn non_keyboard_events_never_end_the_wait() {
    let drained = vec![
        EventClass::Pointer,
        EventClass::Touch,
        EventClass::Switch,
        EventClass::Gesture,
        EventClass::Device,
    ];
    assert!(!scan_for_keyboard(&drained));
    let mut wait = InputWait::new();
    assert!(!wait.observe_batch(&drained));
    assert_eq!(wait.state, TriggerState::Waiting);
}

#[test]
fn a_single_keyboard_event_ends_the_wait() {
    let drained = vec![EventClass::Pointer, EventClass::Keyboard, EventClass::Pointer];
    assert!(scan_for_keyboard(&drained));
    let mut wait = InputWait::new();
    assert!(!wait.observe_batch(&vec![EventClass::Pointer]));
    assert!(wait.observe_batch(&drained));
    assert_eq!(wait.state, TriggerState::Fired);
}

#[test]
fn empty_drain_keeps_waiting() {
    let mut wait = InputWait::new();
    assert!(!wait.observe_batch(&vec![]));
    assert_eq!(wait.state, TriggerState::Waiting);
}

#[test]
fn zero_duration_timer_fires_immediately() {
    assert!(timer_elapsed(0, 0));
    assert!(!timer_elapsed(0, 120_000));
    assert!(timer_elapsed(120_000, 120_000));
}

#[test]
fn control_channel_addresses_the_session_object() {
    let channel = ControlChannel::new("3");
    assert_eq!(channel.destination, "org.freedesktop.login1");
    assert_eq!(channel.path, "/org/freedesktop/login1/session/3");
    assert_eq!(channel.timeout_ms, CONTROL_TIMEOUT_MS);

    let take = channel.take_control_call(false);
    assert_eq!(take.interface, "org.freedesktop.login1.Session");
    assert_eq!(take.member, "TakeControl");
    assert_eq!(take.path, "/org/freedesktop/login1/session/3");
    assert_eq!(take.timeout_ms, 5000);
    assert!(matches!(take.arg, CallArg::Flag(false)));

    let release = channel.release_control_call();
    assert_eq!(release.member, "ReleaseControl");
    assert!(matches!(release.arg, CallArg::NoArg));

    let describe = channel.describe_call();
    assert_eq!(describe.interface, "org.freedesktop.DBus.Properties");
    assert_eq!(describe.member, "GetAll");
    assert!(
        matches!(describe.arg, CallArg::InterfaceName(name) if name == "org.freedesktop.login1.Session")
    );
}

#[test]
fn transport_no_reply_is_a_timeout() {
    assert_eq!(
        classify_transport_error(Some("org.freedesktop.DBus.Error.NoReply")),
        ControlError::Timeout
    );
    assert_eq!(
        classify_transport_error(Some("org.freedesktop.DBus.Error.AccessDenied")),
        ControlError::Failed
    );
    assert_eq!(classify_transport_error(None), ControlError::Failed);
}
