use pwm_fan::device::plan_set_mode;
use pwm_fan::device::SlotState;
use pwm_fan::device::ControlMode;
use pwm_fan::device::DeviceModel;
use pwm_fan::device::AUTOMATIC_CODE;
use pwm_fan::device::MANUAL_CODE;

#[test]
fn mode_codes_round_trip() {
    assert_eq!(ControlMode::Manual.code(), 1);
    assert_eq!(ControlMode::Automatic.code(), 2);
    assert_eq!(MANUAL_CODE, 1);
    assert_eq!(AUTOMATIC_CODE, 2);
    assert_eq!(ControlMode::from_code(1), Some(ControlMode::Manual));
    assert_eq!(ControlMode::from_code(2), Some(ControlMode::Automatic));
    assert_eq!(ControlMode::from_code(0), None);
    assert_eq!(ControlMode::from_code(3), None);
}

#[test]
fn plan_set_mode_suppresses_when_already_set() {
    assert_eq!(plan_set_mode(1, ControlMode::Manual), None);
    assert_eq!(plan_set_mode(2, ControlMode::Automatic), None);
    assert_eq!(plan_set_mode(2, ControlMode::Manual), Some(1));
    assert_eq!(plan_set_mode(1, ControlMode::Automatic), Some(2));
    assert_eq!(plan_set_mode(0, ControlMode::Manual), Some(1));
}

#[test]
fn set_mode_twice_writes_once() {
    let mut dev = DeviceModel { enable_code: 2, duty: 0 };
    let first = dev.set_mode(ControlMode::Manual);
    assert!(first);
    assert_eq!(dev.enable_code, 1);
    let second = dev.set_mode(ControlMode::Manual);
    assert!(!second);
    assert_eq!(dev.enable_code, 1);
    assert_eq!(dev.duty, 0);
}

#[test]
fn set_mode_keeps_duty() {
    let mut dev = DeviceModel { enable_code: 1, duty: 200 };
    dev.set_mode(ControlMode::Automatic);
    assert_eq!(dev, DeviceModel { enable_code: 2, duty: 200 });
}

#[test]
fn slot_attempts_open_exactly_once() {
    let fresh = SlotState::Unopened;
    assert!(fresh.should_attempt_open());
    assert!(!fresh.usable());

    let opened = fresh.note_open(true);
    assert_eq!(opened, SlotState::Open);
    assert!(!opened.should_attempt_open());
    assert!(opened.usable());

    let failed = fresh.note_open(false);
    assert_eq!(failed, SlotState::Failed);
    assert!(!failed.should_attempt_open());
    assert!(!failed.usable());
}

#[test]
fn set_speed_always_writes() {
    let mut dev = DeviceModel { enable_code: 1, duty: 77 };
    dev.set_speed(77);
    assert_eq!(dev.duty, 77);
    dev.set_speed(255);
    assert_eq!(dev.duty, 255);
    assert_eq!(dev.enable_code, 1);
}
