use feetech_driver::controller::BACKOFF_MS;
use feetech_driver::handlers::{
    dispatch_event, handle_control, on_dispatch_failure, publish_status, status_read_targets,
    transaction_result, DispatchError, EventPlan, NodeEvent,
};
use feetech_driver::logging::WarnCounters;
use feetech_driver::motors::{load_motors, MotorConfig, MotorRecord, MotorSource};

fn motors_j1_j2() -> Vec<MotorConfig> {
    let source = MotorSource::Listed(vec![
        MotorRecord {
            joint_name: Some("j1".to_string()),
            motor_type: Some("sts3215".to_string()),
            id: Some(1),
        },
        MotorRecord {
            joint_name: Some("j2".to_string()),
            motor_type: Some("sts3215".to_string()),
            id: Some(2),
        },
    ]);
    load_motors(&source).unwrap()
}

fn encode(values: &[f64]) -> Vec<u64> {
    values.iter().map(|v| v.to_bits()).collect()
}

fn decode(bits: &[u64]) -> Vec<f64> {
    bits.iter().map(|b| f64::from_bits(*b)).collect()
}

/// The rounding the loop applies to every bus reading before
/// publishing: two decimal places, kept as hundredths.
fn round_centi(p: f64) -> i64 {
    (p * 100.0).round() as i64
}

#[test]
fn wrong_length_is_shape_mismatch() {
    let motors = motors_j1_j2();
    let payload = encode(&[0.5]);
    let r = handle_control(&motors, true, Some(&payload));
    assert_eq!(r.unwrap_err(), DispatchError::ShapeMismatch);
}

#[test]
fn undecodable_payload_is_shape_mismatch() {
    let motors = motors_j1_j2();
    let r = handle_control(&motors, true, None);
    assert_eq!(r.unwrap_err(), DispatchError::ShapeMismatch);
}

#[test]
fn shape_is_checked_before_readiness() {
    let motors = motors_j1_j2();
    let payload = encode(&[0.5]);
    let r = handle_control(&motors, false, Some(&payload));
    assert_eq!(r.unwrap_err(), DispatchError::ShapeMismatch);
}

#[test]
fn absent_connection_is_not_ready() {
    let motors = motors_j1_j2();
    let payload = encode(&[0.5, -0.5]);
    let r = handle_control(&motors, false, Some(&payload));
    assert_eq!(r.unwrap_err(), DispatchError::NotReady);
    let r = status_read_targets(&motors, false);
    assert_eq!(r.unwrap_err(), DispatchError::NotReady);
}

#[test]
fn transaction_failure_is_transport() {
    assert!(transaction_result(true).is_ok());
    assert_eq!(transaction_result(false).unwrap_err(), DispatchError::Transport);
}

#[test]
fn status_rounding_two_decimals() {
    let motors = vec![motors_j1_j2().remove(0)];
    let centi = round_centi(1.2345);
    assert_eq!(centi, 123);
    let rows = publish_status(&motors, &vec![centi]);
    assert_eq!(rows.len(), 1);
    assert_eq!(rows[0].joint_name, "j1");
    assert_eq!(rows[0].centi_value, 123);
    assert_eq!(rows[0].centi_value as f64 / 100.0, 1.23);
}

#[test]
fn goal_event_end_to_end() {
    let motors = motors_j1_j2();
    let event = NodeEvent::Input {
        id: "goal_position".to_string(),
        payload: Some(encode(&[0.5, -0.5])),
    };
    match dispatch_event(&motors, true, &event) {
        EventPlan::WriteGoals { ids, values } => {
            assert_eq!(ids, vec![1, 2]);
            assert_eq!(decode(&values), vec![0.5, -0.5]);
        }
        other => panic!("expected a write plan, got {:?}", other),
    }
}

#[test]
fn status_event_end_to_end() {
    let motors = motors_j1_j2();
    let event = NodeEvent::Input {
        id: "pull_present_position".to_string(),
        payload: None,
    };
    let ids = match dispatch_event(&motors, true, &event) {
        EventPlan::ReadStatus { ids } => ids,
        other => panic!("expected a read plan, got {:?}", other),
    };
    assert_eq!(ids, vec![1, 2]);
    // The bus reports slightly off-goal positions; they are rounded to
    // two decimals and published in registry order.
    let readings = vec![0.501, -0.499];
    let centi: Vec<i64> = readings.iter().map(|p| round_centi(*p)).collect();
    let rows = publish_status(&motors, &centi);
    assert_eq!(rows.len(), 2);
    assert_eq!(rows[0].joint_name, "j1");
    assert_eq!(rows[0].centi_value, 50);
    assert_eq!(rows[0].centi_value as f64 / 100.0, 0.50);
    assert_eq!(rows[1].joint_name, "j2");
    assert_eq!(rows[1].centi_value, -50);
    assert_eq!(rows[1].centi_value as f64 / 100.0, -0.50);
}

#[test]
fn goal_failure_routed_to_goal_class() {
    let motors = motors_j1_j2();
    let event = NodeEvent::Input {
        id: "goal_position".to_string(),
        payload: Some(encode(&[0.5, -0.5])),
    };
    match dispatch_event(&motors, false, &event) {
        EventPlan::Reject { class, error } => {
            assert_eq!(class, "goal_position_error");
            assert_eq!(error, DispatchError::NotReady);
        }
        other => panic!("expected a rejection, got {:?}", other),
    }
}

#[test]
fn status_failure_routed_to_status_class() {
    let motors = motors_j1_j2();
    let event = NodeEvent::Input {
        id: "pull_present_position".to_string(),
        payload: None,
    };
    match dispatch_event(&motors, false, &event) {
        EventPlan::Reject { class, error } => {
            assert_eq!(class, "status_error");
            assert_eq!(error, DispatchError::NotReady);
        }
        other => panic!("expected a rejection, got {:?}", other),
    }
}

#[test]
fn unrecognized_input_is_ignored() {
    let motors = motors_j1_j2();
    let event = NodeEvent::Input {
        id: "wave_hello".to_string(),
        payload: None,
    };
    assert!(matches!(dispatch_event(&motors, true, &event), EventPlan::IgnoreInput));
}

#[test]
fn stop_halts_and_other_events_are_logged() {
    let motors = motors_j1_j2();
    assert!(matches!(dispatch_event(&motors, true, &NodeEvent::Stop), EventPlan::Halt));
    assert!(matches!(
        dispatch_event(&motors, true, &NodeEvent::OtherRuntime),
        EventPlan::LogUnexpected
    ));
}

#[test]
fn consecutive_failures_demand_two_reconnects() {
    let motors = motors_j1_j2();
    let mut counters = WarnCounters::new();
    let event = NodeEvent::Input {
        id: "goal_position".to_string(),
        payload: Some(encode(&[0.5, -0.5])),
    };
    let mut reconnects = 0;
    let mut emissions = 0;
    for now_ms in [10u64, 20u64] {
        match dispatch_event(&motors, false, &event) {
            EventPlan::Reject { class, .. } => {
                let reaction = on_dispatch_failure(&mut counters, &class, now_ms);
                // The reconnection (after the flat backoff) is owed
                // whether or not the log line was emitted.
                assert!(reaction.reconnect);
                assert_eq!(BACKOFF_MS, 200);
                reconnects += 1;
                if reaction.emit_log {
                    emissions += 1;
                }
            }
            other => panic!("expected a rejection, got {:?}", other),
        }
    }
    assert_eq!(reconnects, 2);
    // Both failures fall inside one suppression window.
    assert_eq!(emissions, 0);
    assert_eq!(counters.entries[0].1.count, 2);
}

#[test]
fn empty_registry_accepts_empty_goal() {
    let motors: Vec<MotorConfig> = Vec::new();
    let event = NodeEvent::Input {
        id: "goal_position".to_string(),
        payload: Some(Vec::new()),
    };
    match dispatch_event(&motors, true, &event) {
        EventPlan::WriteGoals { ids, values } => {
            assert!(ids.is_empty());
            assert!(values.is_empty());
        }
        other => panic!("expected a write plan, got {:?}", other),
    }
}

#[test]
fn undecodable_goal_event_is_rejected() {
    let motors = motors_j1_j2();
    let event = NodeEvent::Input {
        id: "goal_position".to_string(),
        payload: None,
    };
    match dispatch_event(&motors, true, &event) {
        EventPlan::Reject { class, error } => {
            assert_eq!(class, "goal_position_error");
            assert_eq!(error, DispatchError::ShapeMismatch);
        }
        other => panic!("expected a rejection, got {:?}", other),
    }
}
