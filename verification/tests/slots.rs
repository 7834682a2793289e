use sleepwatcher_rs::slots::{
    ends_with, JoystickSlots, OpenRequest, Switch, FDS_MAX, IDLE_TIMEOUT_SECONDS,
    JOYSTICKS_FD_START, JOYSTICKS_MAX,
};
use sleepwatcher_rs::sunset::tz_offset_hours;

#[test]
fn table_starts_empty() {
    let slots = JoystickSlots::new();
    for slot in 0..FDS_MAX {
        assert_eq!(slots.fd(slot), -1);
    }
    assert!(!slots.is_paused());
    assert_eq!(slots.timeout_sec(), 30);
    assert_eq!(IDLE_TIMEOUT_SECONDS, 30);
    assert_eq!(JOYSTICKS_FD_START + JOYSTICKS_MAX, FDS_MAX);
    assert_eq!(slots.free_slot(), Some(3));
}

#[test]
fn ends_with_tests_the_suffix() {
    assert!(ends_with("/sys/devices/input7/event", "/event"));
    assert!(!ends_with("/sys/devices/input7/event5", "/event"));
    assert!(!ends_with("event", "/event"));
    assert!(ends_with("abc", ""));
}

#[test]
fn qualifying_device_is_opened_for_the_first_free_slot() {
    let slots = JoystickSlots::new();
    assert_eq!(
        slots.add_device("/sys/devices/input7/event", Some("1")),
        Some(OpenRequest { slot: 3, path: "/dev/inputevent".to_string() })
    );
    assert_eq!(
        slots.add_device("/sys/devices/input7/event", None),
        Some(OpenRequest { slot: 3, path: "/dev/inputevent".to_string() })
    );
}

#[test]
fn other_devices_are_passed_over() {
    let slots = JoystickSlots::new();
    assert_eq!(slots.add_device("/sys/devices/input7/event5", Some("1")), None);
    assert_eq!(slots.add_device("/sys/devices/input7/event", Some("0")), None);
    assert_eq!(slots.add_device("/sys/devices/input7/js0", None), None);
}

#[test]
fn slots_fill_in_order_and_then_refuse() {
    let mut slots = JoystickSlots::new();
    for n in 0..JOYSTICKS_MAX {
        let request = slots.add_device("/sys/class/input/event", Some("1")).unwrap();
        assert_eq!(request.slot, JOYSTICKS_FD_START + n);
        assert!(slots.opened(request.slot, 10 + n as i32));
        assert_eq!(slots.fd(request.slot), 10 + n as i32);
    }
    assert_eq!(slots.free_slot(), None);
    assert_eq!(slots.add_device("/sys/class/input/event", Some("1")), None);
}

#[test]
fn opened_refuses_bad_slots_and_descriptors() {
    let mut slots = JoystickSlots::new();
    assert!(!slots.opened(0, 7));
    assert!(!slots.opened(2, 7));
    assert!(!slots.opened(8, 7));
    assert!(!slots.opened(3, -1));
    assert!(slots.opened(4, 0));
    assert!(!slots.opened(4, 9));
    assert_eq!(slots.fd(4), 0);
    assert_eq!(slots.free_slot(), Some(3));
}

#[test]
fn signals_switch_the_timer() {
    let mut slots = JoystickSlots::new();
    assert!(slots.timer_acts());
    slots.on_signal(Switch::Pause);
    assert!(slots.is_paused());
    assert!(!slots.timer_acts());
    slots.on_signal(Switch::Pause);
    assert!(slots.is_paused());
    slots.on_signal(Switch::Resume);
    assert!(!slots.is_paused());
    assert!(slots.timer_acts());
}

#[test]
fn time_zone_offsets() {
    assert_eq!(tz_offset_hours(0), 0);
    assert_eq!(tz_offset_hours(-12), -12);
    assert_eq!(tz_offset_hours(14), 14);
    assert_eq!(tz_offset_hours(-13), 0);
    assert_eq!(tz_offset_hours(15), 0);
    assert_eq!(tz_offset_hours(i32::MIN), 0);
    assert_eq!(tz_offset_hours(i32::MAX), 0);
}
