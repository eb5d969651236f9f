use vstd::prelude::*;
use vstd::string::StringExecFns;

use crate::logging::{
    rate_limited_warn, warn_emits, warn_step, WarnCounter, WarnCounters,
};
use crate::motors::{motor_ids, MotorConfig};

verus! {

/// Why handling one inbound event failed.  None of these is fatal:
/// each is logged through the rate limiter and followed by one
/// reconnection attempt.
#[derive(Debug, Clone, Copy, PartialEq, Eq, Structural)]
pub enum DispatchError {
    /// The goal payload did not decode to one value per actuator.
    ShapeMismatch,
    /// There is no verified connection to transact on.
    NotReady,
    /// The bus transaction itself failed.
    Transport,
}

/// One row of the published status record: a joint name paired with
/// the position read for it, in hundredths (the bus reading rounded
/// to two decimal places, scaled by one hundred).
#[derive(Debug, Clone, PartialEq, Eq)]
pub struct StatusRow {
    pub joint_name: String,
    pub centi_value: i64,
}

/// The view of an optional decoded goal payload.  Goal values travel
/// through the dispatcher untouched, as the 64 bit patterns the caller
/// decoded off the wire; the dispatcher never interprets them.
pub open spec fn goals_view(goals: Option<&Vec<u64>>) -> Option<Seq<u64>> {
    match goals {
        Option::Some(g) => Option::Some(g@),
        Option::None => Option::None,
    }
}

/// What handling a goal event comes to, given how many actuators are
/// registered, whether the link is ready, and the decoded payload: a
/// payload that failed to decode or has the wrong length is a shape
/// mismatch; otherwise a missing connection is reported; otherwise the
/// write goes ahead.
pub open spec fn control_outcome(
    motor_count: int,
    connected: bool,
    goals: Option<Seq<u64>>,
) -> Result<(), DispatchError> {
    match goals {
        Option::None => Result::Err(DispatchError::ShapeMismatch),
        Option::Some(g) => if g.len() != motor_count {
            Result::Err(DispatchError::ShapeMismatch)
        } else if !connected {
            Result::Err(DispatchError::NotReady)
        } else {
            Result::Ok(())
        },
    }
}

/// Maps a goal event to the batched multi-device write it asks for:
/// the registry's bus addresses paired with the goal values, both in
/// registry order.  `goals` is the payload as decoded by the caller
/// (`None` when it did not decode to a sequence of values); it must
/// hold exactly one value per registered actuator, and the write is
/// only requested on a ready connection.
pub fn handle_control(motors: &Vec<MotorConfig>, connected: bool, goals: Option<&Vec<u64>>) -> (r:
    Result<(Vec<u8>, Vec<u64>), DispatchError>)
    ensures
        match r {
            Ok(cmd) => {
                &&& control_outcome(motors@.len() as int, connected, goals_view(goals))
                    is Ok
                &&& cmd.0@ == motors@.map_values(|m: MotorConfig| m.id)
                &&& goals_view(goals) == Option::Some(cmd.1@)
            },
            Err(e) => control_outcome(motors@.len() as int, connected, goals_view(goals))
                == Result::<(), DispatchError>::Err(e),
        },
{
    let goals = match goals {
        Option::Some(g) => g,
        Option::None => {
            return Err(DispatchError::ShapeMismatch);
        },
    };
    if goals.len() != motors.len() {
        return Err(DispatchError::ShapeMismatch);
    }
    if !connected {
        return Err(DispatchError::NotReady);
    }
    let ids = motor_ids(motors);
    let mut values: Vec<u64> = Vec::new();
    let mut i: usize = 0;
    while i < goals.len()
        invariant
            i <= goals@.len(),
            values@ == goals@.take(i as int),
        decreases goals@.len() - i,
    {
        values.push(goals[i]);
        proof {
            assert(goals@.take(i + 1 as int) =~= goals@.take(i as int).push(goals@[i as int]));
        }
        i = i + 1;
    }
    proof {
        assert(goals@.take(goals@.len() as int) =~= goals@);
    }
    Ok((ids, values))
}

/// What a status request comes to: without a ready connection it is
/// rejected, otherwise the batched read over all bus addresses goes
/// ahead.
pub open spec fn status_outcome(connected: bool) -> Result<(), DispatchError> {
    if connected {
        Result::Ok(())
    } else {
        Result::Err(DispatchError::NotReady)
    }
}

/// Maps a status request to the batched multi-device read it asks
/// for: the registry's bus addresses in registry order.  The read is
/// only requested on a ready connection.
pub fn status_read_targets(motors: &Vec<MotorConfig>, connected: bool) -> (r: Result<
    Vec<u8>,
    DispatchError,
>)
    ensures
        match r {
            Ok(ids) => connected && ids@ == motors@.map_values(|m: MotorConfig| m.id),
            Err(e) => !connected && e == DispatchError::NotReady,
        },
{
    if !connected {
        return Err(DispatchError::NotReady);
    }
    Ok(motor_ids(motors))
}

/// Builds the published status record from the positions the batched
/// read returned, already rounded to hundredths: one row per actuator,
/// in registry order, each joint name paired with its own reading.
pub fn publish_status(motors: &Vec<MotorConfig>, centi_positions: &Vec<i64>) -> (rows: Vec<
    StatusRow,
>)
    requires
        centi_positions@.len() == motors@.len(),
    ensures
        rows@.len() == motors@.len(),
        forall|i: int|
            0 <= i < motors@.len() ==> (#[trigger] rows@[i]).joint_name@
                == motors@[i].joint_name@ && rows@[i].centi_value == centi_positions@[i],
{
    let mut rows: Vec<StatusRow> = Vec::new();
    let mut i: usize = 0;
    while i < motors.len()
        invariant
            i <= motors@.len(),
            centi_positions@.len() == motors@.len(),
            rows@.len() == i,
            forall|j: int|
                0 <= j < i ==> (#[trigger] rows@[j]).joint_name@ == motors@[j].joint_name@
                    && rows@[j].centi_value == centi_positions@[j],
        decreases motors@.len() - i,
    {
        rows.push(StatusRow {
            joint_name: motors[i].joint_name.clone(),
            centi_value: centi_positions[i],
        });
        i = i + 1;
    }
    rows
}

/// Wraps the outcome the bus driver reported for a batched transaction:
/// any transaction-level failure becomes a transport error.
pub fn transaction_result(ok: bool) -> (r: Result<(), DispatchError>)
    ensures
        ok <==> r is Ok,
        !ok ==> r == Result::<(), DispatchError>::Err(DispatchError::Transport),
{
    if ok {
        Ok(())
    } else {
        Err(DispatchError::Transport)
    }
}

/// The error class under which goal-event failures are throttled.
pub fn goal_error_class() -> (s: String)
    ensures
        s@ == "goal_position_error"@,
{
    String::from_str("goal_position_error")
}

/// The error class under which status-event failures are throttled.
pub fn status_error_class() -> (s: String)
    ensures
        s@ == "status_error"@,
{
    String::from_str("status_error")
}

/// What the event loop owes the runtime after a failed event: whether
/// to write the throttled log line now, and that the connection is to
/// be reopened (with the fixed backoff) — which is owed after every
/// failure, whether or not the log line was emitted.
#[derive(Debug, Clone, Copy, PartialEq, Eq, Structural)]
pub struct FailureReaction {
    pub emit_log: bool,
    pub reconnect: bool,
}

/// Reacts to a failed event of class `class` at time `now_ms`: counts
/// the failure, says whether its warning is due now, and demands
/// exactly one reconnection attempt — always, independently of the
/// warning.
pub fn on_dispatch_failure(counters: &mut WarnCounters, class: &str, now_ms: u64) -> (r:
    FailureReaction)
    requires
        old(counters).wf(),
        old(counters).before(now_ms),
    ensures
        r.reconnect,
        final(counters).wf(),
        final(counters).before(now_ms),
        match old(counters).lookup(class@) {
            Option::Some(c) => {
                &&& r.emit_log == warn_emits(c, now_ms)
                &&& final(counters).entries@.len() == old(counters).entries@.len()
                &&& forall|i: int|
                    0 <= i < old(counters).entries@.len() && (#[trigger] old(
                        counters,
                    ).entries@[i]).0@ == class@ ==> final(counters).entries@[i].0@ == class@
                        && final(counters).entries@[i].1 == warn_step(c, now_ms)
                &&& forall|i: int|
                    0 <= i < old(counters).entries@.len() && (#[trigger] old(
                        counters,
                    ).entries@[i]).0@ != class@ ==> final(counters).entries@[i] == old(
                        counters,
                    ).entries@[i]
            },
            Option::None => {
                &&& r.emit_log == false
                &&& final(counters).entries@.len() == old(counters).entries@.len() + 1
                &&& forall|i: int|
                    0 <= i < old(counters).entries@.len() ==> final(counters).entries@[i] == old(
                        counters,
                    ).entries@[i]
                &&& final(counters).entries@.last().0@ == class@
                &&& final(counters).entries@.last().1 == (WarnCounter {
                    count: 1,
                    last_emit_ms: now_ms,
                })
            },
        },
{
    let emit_log = rate_limited_warn(counters, class, now_ms);
    FailureReaction { emit_log, reconnect: true }
}

/// One event as delivered by the bus runtime: an input with its
/// identifier and (for goal inputs) the payload decoded to 64 bit
/// value patterns — `None` when the payload did not decode —, the stop
/// signal, or any other runtime-specific event.
#[derive(Debug)]
pub enum NodeEvent {
    Input { id: String, payload: Option<Vec<u64>> },
    Stop,
    OtherRuntime,
}

/// What the event loop is to do for one event: issue a batched write,
/// issue a batched read and republish, route a failure through the
/// rate limiter and reconnect, ignore an unrecognized input (logging
/// it), log an unexpected runtime event, or halt.
#[derive(Debug)]
pub enum EventPlan {
    WriteGoals { ids: Vec<u8>, values: Vec<u64> },
    ReadStatus { ids: Vec<u8> },
    Reject { class: String, error: DispatchError },
    IgnoreInput,
    LogUnexpected,
    Halt,
}

/// The view of the payload carried inside an event.
pub open spec fn payload_view(p: Option<Vec<u64>>) -> Option<Seq<u64>> {
    match p {
        Option::Some(g) => Option::Some(g@),
        Option::None => Option::None,
    }
}

/// Maps one runtime event to the loop's next step.  A goal input asks
/// for the batched write (or a rejection under the goal error class);
/// a status input asks for the batched read (or a rejection under the
/// status error class); an input with any other identifier is ignored;
/// a stop event halts the loop; every other event is merely logged.
pub fn dispatch_event(motors: &Vec<MotorConfig>, connected: bool, event: &NodeEvent) -> (plan:
    EventPlan)
    ensures
        match *event {
            NodeEvent::Stop => plan is Halt,
            NodeEvent::OtherRuntime => plan is LogUnexpected,
            NodeEvent::Input { id, payload } => {
                if id@ == "goal_position"@ {
                    match control_outcome(motors@.len() as int, connected, payload_view(payload)) {
                        Result::Ok(u) => plan matches EventPlan::WriteGoals { ids, values }
                            && ids@ == motors@.map_values(|m: MotorConfig| m.id) && payload_view(
                            payload,
                        ) == Option::Some(values@),
                        Result::Err(e) => plan matches EventPlan::Reject { class, error }
                            && class@ == "goal_position_error"@ && error == e,
                    }
                } else if id@ == "pull_present_position"@ {
                    match status_outcome(connected) {
                        Result::Ok(u) => plan matches EventPlan::ReadStatus { ids } && ids@
                            == motors@.map_values(|m: MotorConfig| m.id),
                        Result::Err(e) => plan matches EventPlan::Reject { class, error }
                            && class@ == "status_error"@ && error == e,
                    }
                } else {
                    plan is IgnoreInput
                }
            },
        },
{
    match event {
        NodeEvent::Stop => EventPlan::Halt,
        NodeEvent::OtherRuntime => EventPlan::LogUnexpected,
        NodeEvent::Input { id, payload } => {
            let goal_id = String::from_str("goal_position");
            let status_id = String::from_str("pull_present_position");
            if *id == goal_id {
                match handle_control(motors, connected, payload.as_ref()) {
                    Ok(cmd) => EventPlan::WriteGoals { ids: cmd.0, values: cmd.1 },
                    Err(e) => EventPlan::Reject { class: goal_error_class(), error: e },
                }
            } else if *id == status_id {
                match status_read_targets(motors, connected) {
                    Ok(ids) => EventPlan::ReadStatus { ids },
                    Err(e) => EventPlan::Reject { class: status_error_class(), error: e },
                }
            } else {
                EventPlan::IgnoreInput
            }
        },
    }
}

} // verus!
