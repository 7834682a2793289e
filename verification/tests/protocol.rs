use sleepwatcher_rs::config::{change_request, APP_NAME, CONFIG_FILE_NAME, TIMEOUT_SEC};
use sleepwatcher_rs::protocol::{Global, GlobalDecision, Output, ProtocolState, BIND_VERSION};
use sleepwatcher_rs::types::Request;

const ALL: [Global; 10] = [
    Global::Seat,
    Global::IdleNotifier,
    Global::Activation,
    Global::ActivationToken,
    Global::IdleInhibitor,
    Global::IdleInhibitManager,
    Global::GammaControl,
    Global::GammaControlManager,
    Global::Compositor,
    Global::Output,
];

#[test]
fn interface_names() {
    assert_eq!(Global::Seat.interface(), "wl_seat");
    assert_eq!(Global::IdleNotifier.interface(), "ext_idle_notifier_v1");
    assert_eq!(Global::Activation.interface(), "xdg_activation_v1");
    assert_eq!(Global::ActivationToken.interface(), "xdg_activation_token_v1");
    assert_eq!(Global::IdleInhibitor.interface(), "zwp_idle_inhibitor_v1");
    assert_eq!(Global::IdleInhibitManager.interface(), "zwp_idle_inhibit_manager_v1");
    assert_eq!(Global::GammaControl.interface(), "zwlr_gamma_control_v1");
    assert_eq!(Global::GammaControlManager.interface(), "zwlr_gamma_control_manager_v1");
    assert_eq!(Global::Compositor.interface(), "wl_compositor");
    assert_eq!(Global::Output.interface(), "wl_output");
    assert_eq!(BIND_VERSION, 1);
}

#[test]
fn interface_round_trip() {
    for global in ALL {
        assert_eq!(Global::parse(global.interface()), Some(global));
    }
    assert_eq!(Global::parse("wl_shm"), None);
    assert_eq!(Global::parse(""), None);
}

#[test]
fn script_starts_when_seat_follows_notifier() {
    let mut state = ProtocolState::new();
    assert!(!state.is_script_ready());
    assert_eq!(
        state.on_global(3, "ext_idle_notifier_v1"),
        GlobalDecision { bind: Some(Global::IdleNotifier), create_surface: false, start_script: false }
    );
    assert!(!state.is_script_ready());
    assert_eq!(
        state.on_global(4, "wl_seat"),
        GlobalDecision { bind: Some(Global::Seat), create_surface: false, start_script: true }
    );
    assert!(state.is_script_ready());
}

#[test]
fn script_starts_when_notifier_follows_seat() {
    let mut state = ProtocolState::new();
    assert!(!state.on_global(1, "wl_seat").start_script);
    assert!(state.on_global(2, "ext_idle_notifier_v1").start_script);
    assert!(state.is_script_ready());
}

#[test]
fn inhibitor_needs_manager_and_surface() {
    let mut state = ProtocolState::new();
    assert!(!state.is_inhibitor_available());
    assert_eq!(
        state.on_global(5, "zwp_idle_inhibit_manager_v1"),
        GlobalDecision {
            bind: Some(Global::IdleInhibitManager),
            create_surface: false,
            start_script: false
        }
    );
    assert!(!state.is_inhibitor_available());
    assert_eq!(
        state.on_global(6, "wl_compositor"),
        GlobalDecision { bind: Some(Global::Compositor), create_surface: true, start_script: false }
    );
    assert!(state.is_inhibitor_available());
}

#[test]
fn outputs_are_listed_once() {
    let mut state = ProtocolState::new();
    assert_eq!(state.on_global(40, "wl_output").bind, Some(Global::Output));
    assert_eq!(state.on_global(41, "wl_output").bind, Some(Global::Output));
    assert_eq!(state.on_global(40, "wl_output").bind, Some(Global::Output));
    assert_eq!(state.output_count(), 2);
    assert_eq!(
        state.output(41),
        Some(&Output { reg_name: 41, name: None, ramp_size: 0, color_changed: false })
    );
    assert_eq!(state.output(42), None);
}

#[test]
fn foreign_global_is_passed_over() {
    let mut state = ProtocolState::new();
    assert_eq!(
        state.on_global(9, "wl_shm"),
        GlobalDecision { bind: None, create_surface: false, start_script: false }
    );
    assert!(!state.is_script_ready());
    assert_eq!(state.output_count(), 0);
}

#[test]
fn globals_that_are_only_bound() {
    let mut state = ProtocolState::new();
    for global in [
        Global::Activation,
        Global::ActivationToken,
        Global::IdleInhibitor,
        Global::GammaControl,
        Global::GammaControlManager,
    ] {
        assert_eq!(
            state.on_global(1, global.interface()),
            GlobalDecision { bind: Some(global), create_surface: false, start_script: false }
        );
    }
    assert!(!state.is_script_ready());
    assert!(!state.is_inhibitor_available());
}

#[test]
fn modified_file_asks_for_a_reset() {
    assert_eq!(change_request(true, false), Some(Request::Reset));
    assert_eq!(change_request(true, true), None);
    assert_eq!(change_request(false, false), None);
    assert_eq!(change_request(false, true), None);
}

#[test]
fn constants() {
    assert_eq!(APP_NAME, "sleepwatcher-rs");
    assert_eq!(CONFIG_FILE_NAME, "idle_config.lua");
    assert_eq!(TIMEOUT_SEC, 5);
}
