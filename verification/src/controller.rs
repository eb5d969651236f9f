use vstd::prelude::*;

use crate::motors::MotorConfig;

verus! {

/// Milliseconds slept before every reconnection attempt.  This is the
/// whole retry policy: a flat delay, no growth, no retry limit.
pub const BACKOFF_MS: u64 = 200;

/// The connection lifecycle: no link, link opened but the actuators
/// not yet all confirmed present, or link ready for transactions.
#[derive(Debug, Clone, Copy, PartialEq, Eq, Structural)]
pub enum LinkState {
    Disconnected,
    Verifying { next: usize },
    Ready,
}

/// What one presence probe of a bus address came back with.
#[derive(Debug, Clone, Copy, PartialEq, Eq, Structural)]
pub enum PingOutcome {
    Present,
    NotPresent,
    IoError,
}

/// The state after the probe `outcome` for the actuator at position
/// `next`: the link is ready once every actuator has answered, and a
/// single absent or failing actuator discards the link.
pub open spec fn verify_step(s: LinkState, outcome: PingOutcome, motor_count: int) -> LinkState
    recommends
        s is Verifying,
{
    match outcome {
        PingOutcome::Present => match s {
            LinkState::Verifying { next } => if next + 1 < motor_count {
                LinkState::Verifying { next: (next + 1) as usize }
            } else {
                LinkState::Ready
            },
            _ => s,
        },
        PingOutcome::NotPresent => LinkState::Disconnected,
        PingOutcome::IoError => LinkState::Disconnected,
    }
}

/// The state after a whole sequence of probe outcomes, applied in
/// order; a state other than `Verifying` absorbs whatever follows.
pub open spec fn run_verification(
    s: LinkState,
    outcomes: Seq<PingOutcome>,
    motor_count: int,
) -> LinkState
    decreases outcomes.len(),
{
    if outcomes.len() == 0 || !(s is Verifying) {
        s
    } else {
        run_verification(verify_step(s, outcomes[0], motor_count), outcomes.drop_first(), motor_count)
    }
}

/// The state right after the attempt to open the serial link: a failed
/// open leaves the link down; a successful open starts the presence
/// check, which is already complete when there is nothing to check.
pub fn begin_verification(opened: bool, motor_count: usize) -> (s: LinkState)
    ensures
        !opened ==> s == LinkState::Disconnected,
        opened && motor_count == 0 ==> s == LinkState::Ready,
        opened && motor_count > 0 ==> s == (LinkState::Verifying { next: 0 }),
{
    if !opened {
        LinkState::Disconnected
    } else if motor_count == 0 {
        LinkState::Ready
    } else {
        LinkState::Verifying { next: 0 }
    }
}

/// The bus address the verification should probe next, if it is still
/// running and in range.
pub fn ping_target(motors: &Vec<MotorConfig>, s: &LinkState) -> (t: Option<u8>)
    ensures
        t == (match *s {
            LinkState::Verifying { next } => if next < motors@.len() {
                Option::Some(motors@[next as int].id)
            } else {
                Option::None::<u8>
            },
            _ => Option::None::<u8>,
        }),
{
    match s {
        LinkState::Verifying { next } => {
            if *next < motors.len() {
                Option::Some(motors[*next].id)
            } else {
                Option::None
            }
        },
        _ => Option::None,
    }
}

/// Advances the verification by one probe outcome.
pub fn on_ping_outcome(s: &LinkState, outcome: &PingOutcome, motor_count: usize) -> (ns: LinkState)
    requires
        *s matches LinkState::Verifying { next } && next < motor_count,
    ensures
        ns == verify_step(*s, *outcome, motor_count as int),
{
    match (s, outcome) {
        (LinkState::Verifying { next }, PingOutcome::Present) => {
            if next + 1 < motor_count {
                LinkState::Verifying { next: next + 1 }
            } else {
                LinkState::Ready
            }
        },
        _ => LinkState::Disconnected,
    }
}

/// A verification that starts at the first actuator and sees one
/// outcome per actuator ends ready exactly when every outcome reports
/// the actuator present: one absent or failing actuator is enough to
/// discard the link.
pub proof fn lemma_verification_ready_iff_all_present(outcomes: Seq<PingOutcome>, n: int)
    requires
        0 < n <= usize::MAX,
        outcomes.len() == n,
    ensures
        run_verification(LinkState::Verifying { next: 0 }, outcomes, n) == LinkState::Ready <==> (
        forall|i: int| 0 <= i < n ==> outcomes[i] is Present),
{
    lemma_run_from(0, outcomes, n);
}

/// Generalization of the statement above to a verification already at
/// position `k`, with the outcomes for the remaining actuators.
proof fn lemma_run_from(k: int, outcomes: Seq<PingOutcome>, n: int)
    requires
        0 <= k < n <= usize::MAX,
        outcomes.len() == n - k,
    ensures
        run_verification(LinkState::Verifying { next: k as usize }, outcomes, n)
            == LinkState::Ready <==> (forall|i: int| 0 <= i < outcomes.len() ==> outcomes[i] is Present),
    decreases outcomes.len(),
{
    let s = LinkState::Verifying { next: k as usize };
    assert(run_verification(s, outcomes, n) == run_verification(
        verify_step(s, outcomes[0], n),
        outcomes.drop_first(),
        n,
    ));
    if outcomes[0] is Present {
        if k + 1 == n {
            assert(verify_step(s, outcomes[0], n) == LinkState::Ready);
            assert(outcomes.drop_first().len() == 0);
            assert(run_verification(LinkState::Ready, outcomes.drop_first(), n)
                == LinkState::Ready);
        } else {
            assert(verify_step(s, outcomes[0], n) == (LinkState::Verifying {
                next: (k + 1) as usize,
            }));
            lemma_run_from(k + 1, outcomes.drop_first(), n);
            assert(forall|i: int|
                1 <= i < outcomes.len() ==> outcomes.drop_first()[i - 1] == #[trigger] outcomes[i]);
            assert(forall|i: int|
                0 <= i < outcomes.drop_first().len() ==> #[trigger] outcomes.drop_first()[i]
                    == outcomes[i + 1]);
        }
    } else {
        assert(verify_step(s, outcomes[0], n) == LinkState::Disconnected);
        assert(run_verification(LinkState::Disconnected, outcomes.drop_first(), n)
            == LinkState::Disconnected);
        assert(!(outcomes[0] is Present));
    }
}

} // verus!
