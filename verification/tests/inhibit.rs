use sleepwatcher_rs::inhibit::{
    InhibitController, InhibitDecision, InhibitState, DEFAULT_HOLD_SECONDS,
};

#[test]
fn controller_starts_inactive() {
    let controller = InhibitController::new();
    assert_eq!(controller.state(), InhibitState { active: false, resource_held: false });
    assert!(!controller.is_active());
    assert_eq!(controller.hold_seconds(), 5);
    assert_eq!(DEFAULT_HOLD_SECONDS, 5);
}

#[test]
fn hold_window_is_tunable() {
    let mut controller = InhibitController::with_hold_seconds(30);
    assert_eq!(controller.hold_seconds(), 30);
    assert_eq!(controller.request_inhibit(), InhibitDecision::Acquire { hold_seconds: 30 });
}

#[test]
fn first_request_acquires() {
    let mut controller = InhibitController::new();
    assert_eq!(controller.request_inhibit(), InhibitDecision::Acquire { hold_seconds: 5 });
    assert_eq!(controller.state(), InhibitState { active: true, resource_held: false });
    assert!(controller.resource_acquired());
    assert_eq!(controller.state(), InhibitState { active: true, resource_held: true });
}

#[test]
fn requests_while_active_acquire_nothing() {
    let mut controller = InhibitController::new();
    let mut acquisitions = 0;
    for _ in 0..100 {
        if let InhibitDecision::Acquire { .. } = controller.request_inhibit() {
            acquisitions += 1;
            assert!(controller.resource_acquired());
        }
    }
    assert_eq!(acquisitions, 1);
    assert_eq!(controller.state(), InhibitState { active: true, resource_held: true });
}

#[test]
fn release_destroys_what_was_acquired() {
    let mut controller = InhibitController::new();
    controller.request_inhibit();
    assert!(controller.resource_acquired());
    assert!(controller.release());
    assert_eq!(controller.state(), InhibitState { active: false, resource_held: false });
    // Nothing is left for a second release.
    assert!(!controller.release());
}

#[test]
fn release_after_failed_acquisition_destroys_nothing() {
    let mut controller = InhibitController::new();
    assert_eq!(controller.request_inhibit(), InhibitDecision::Acquire { hold_seconds: 5 });
    // The collaborator could not acquire: nothing is reported.
    assert!(controller.is_active());
    assert_eq!(controller.request_inhibit(), InhibitDecision::AlreadyActive);
    assert!(!controller.release());
    assert!(!controller.is_active());
}

#[test]
fn resource_is_refused_outside_a_window_and_when_one_is_held() {
    let mut controller = InhibitController::new();
    assert!(!controller.resource_acquired());
    assert_eq!(controller.state(), InhibitState { active: false, resource_held: false });
    controller.request_inhibit();
    assert!(controller.resource_acquired());
    assert!(!controller.resource_acquired());
    assert_eq!(controller.state(), InhibitState { active: true, resource_held: true });
}

#[test]
fn acquire_and_destroy_are_matched_over_many_windows() {
    let mut controller = InhibitController::new();
    let mut acquired = 0;
    let mut destroyed = 0;
    for window in 0..10 {
        for _ in 0..3 {
            if let InhibitDecision::Acquire { .. } = controller.request_inhibit() {
                // Every third window the collaborator fails to acquire.
                if window % 3 != 0 {
                    acquired += 1;
                    assert!(controller.resource_acquired());
                }
            }
        }
        if controller.release() {
            destroyed += 1;
        }
        assert_eq!(acquired, destroyed);
    }
    assert_eq!(acquired, 6);
}
