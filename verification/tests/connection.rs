use feetech_driver::controller::{
    begin_verification, on_ping_outcome, ping_target, LinkState, PingOutcome, BACKOFF_MS,
};
use feetech_driver::motors::{load_motors, MotorRecord, MotorSource};

fn two_motors() -> Vec<feetech_driver::motors::MotorConfig> {
    let source = MotorSource::Listed(vec![
        MotorRecord {
            joint_name: Some("j1".to_string()),
            motor_type: Some("sts3215".to_string()),
            id: Some(1),
        },
        MotorRecord {
            joint_name: Some("j2".to_string()),
            motor_type: Some("sts3215".to_string()),
            id: Some(2),
        },
    ]);
    load_motors(&source).unwrap()
}

#[test]
fn backoff_is_flat_200ms() {
    assert_eq!(BACKOFF_MS, 200);
}

#[test]
fn open_failure_leaves_disconnected() {
    assert_eq!(begin_verification(false, 2), LinkState::Disconnected);
}

#[test]
fn empty_registry_is_ready_at_once() {
    assert_eq!(begin_verification(true, 0), LinkState::Ready);
}

#[test]
fn all_present_reaches_ready() {
    let motors = two_motors();
    let s0 = begin_verification(true, motors.len());
    assert_eq!(s0, LinkState::Verifying { next: 0 });
    assert_eq!(ping_target(&motors, &s0), Some(1));
    let s1 = on_ping_outcome(&s0, &PingOutcome::Present, motors.len());
    assert_eq!(s1, LinkState::Verifying { next: 1 });
    assert_eq!(ping_target(&motors, &s1), Some(2));
    let s2 = on_ping_outcome(&s1, &PingOutcome::Present, motors.len());
    assert_eq!(s2, LinkState::Ready);
    assert_eq!(ping_target(&motors, &s2), None);
}

#[test]
fn absent_device_discards_link() {
    let motors = two_motors();
    let s0 = begin_verification(true, motors.len());
    let s1 = on_ping_outcome(&s0, &PingOutcome::Present, motors.len());
    let s2 = on_ping_outcome(&s1, &PingOutcome::NotPresent, motors.len());
    assert_eq!(s2, LinkState::Disconnected);
}

#[test]
fn io_error_discards_link() {
    let motors = two_motors();
    let s0 = begin_verification(true, motors.len());
    let s1 = on_ping_outcome(&s0, &PingOutcome::IoError, motors.len());
    assert_eq!(s1, LinkState::Disconnected);
}
