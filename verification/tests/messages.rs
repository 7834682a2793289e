use sleepwatcher_rs::types::{same_text, Event, FileRequest, Phase, Request, SessionKind};

#[test]
fn session_kind_names() {
    assert_eq!(SessionKind::Lock.name(), "Lock");
    assert_eq!(SessionKind::Unlock.name(), "Unlock");
    assert_eq!(SessionKind::PrepareSleep.name(), "PrepareSleep");
    assert_eq!(SessionKind::Wakeup.name(), "Wakeup");
}

#[test]
fn session_kind_parse_round_trip() {
    for kind in [
        SessionKind::Lock,
        SessionKind::Unlock,
        SessionKind::PrepareSleep,
        SessionKind::Wakeup,
    ] {
        assert_eq!(SessionKind::parse(kind.name()), Some(kind));
    }
    assert_eq!(SessionKind::parse("lock"), None);
    assert_eq!(SessionKind::parse("LockHandler"), None);
    assert_eq!(SessionKind::parse(""), None);
}

#[test]
fn prepare_for_sleep_maps_to_sleep_and_wakeup() {
    assert_eq!(SessionKind::from_prepare_for_sleep(true), SessionKind::PrepareSleep);
    assert_eq!(SessionKind::from_prepare_for_sleep(false), SessionKind::Wakeup);
}

#[test]
fn phase_arguments() {
    assert_eq!(Phase::Idled.argument(), "idled");
    assert_eq!(Phase::Resumed.argument(), "resumed");
}

#[test]
fn requests_become_events() {
    assert_eq!(Request::LuaReload.into_event(), Some(Event::ScriptReloadRequested));
    assert_eq!(Request::Reset.into_event(), Some(Event::ConfigChanged));
    assert_eq!(Request::OnBattery(true).into_event(), Some(Event::BatteryStateChanged(true)));
    assert_eq!(Request::OnBattery(false).into_event(), Some(Event::BatteryStateChanged(false)));
    assert_eq!(Request::Flush.into_event(), Some(Event::FlushRequested));
    assert_eq!(Request::Inhibit.into_event(), Some(Event::InhibitRequested));
    assert_eq!(
        Request::LuaMethod("Lock".to_string()).into_event(),
        Some(Event::SessionSignal(SessionKind::Lock))
    );
    assert_eq!(
        Request::LuaMethod("Wakeup".to_string()).into_event(),
        Some(Event::SessionSignal(SessionKind::Wakeup))
    );
}

#[test]
fn request_with_unknown_signal_is_dropped() {
    assert_eq!(Request::LuaMethod("Hibernate".to_string()).into_event(), None);
}

#[test]
fn session_signal_request_carries_the_name() {
    assert_eq!(
        Request::session_signal(SessionKind::PrepareSleep),
        Request::LuaMethod("PrepareSleep".to_string())
    );
}

#[test]
fn same_text_compares_contents() {
    assert!(same_text("abc", "abc"));
    assert!(!same_text("abc", "abd"));
    assert!(!same_text("abc", "ab"));
    assert!(same_text("", ""));
}

#[test]
fn file_request_is_comparable() {
    assert_eq!(FileRequest::Write, FileRequest::Write);
}
