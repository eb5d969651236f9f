use vstd::prelude::*;
use vstd::pervasive::VecAdditionalExecFns;

verus! {

/// Suppression state for one error class: how many occurrences were
/// swallowed since the last emitted warning, and when that warning
/// (or the first occurrence) happened, in milliseconds of a monotonic
/// clock supplied by the caller.
#[derive(Debug, Clone, Copy, PartialEq, Eq, Structural)]
pub struct WarnCounter {
    pub count: u64,
    pub last_emit_ms: u64,
}

/// Length of the suppression window: at most one warning per error
/// class is emitted per interval.
pub const EMIT_INTERVAL_MS: u64 = 1000;

/// A warning is due when a full interval has elapsed since the
/// counter's window started.  Only elapsed time governs emission; a
/// class seen for the first time does not emit until its first full
/// interval has passed.
pub open spec fn warn_emits(c: WarnCounter, now_ms: u64) -> bool {
    now_ms >= c.last_emit_ms + EMIT_INTERVAL_MS
}

/// The occurrence counter after one more occurrence (it sticks at the
/// top of its range rather than wrapping).
pub open spec fn bumped_count(count: u64) -> u64 {
    if count == u64::MAX {
        count
    } else {
        (count + 1) as u64
    }
}

/// The counter after one call at `now_ms`: an emission resets the
/// count to zero and starts a fresh window at `now_ms`; otherwise the
/// occurrence is counted and the window is unchanged.
pub open spec fn warn_step(c: WarnCounter, now_ms: u64) -> WarnCounter {
    if warn_emits(c, now_ms) {
        WarnCounter { count: 0, last_emit_ms: now_ms }
    } else {
        WarnCounter { count: bumped_count(c.count), last_emit_ms: c.last_emit_ms }
    }
}

/// The mapping from an error-class identifier to its suppression
/// counter, owned by the event loop for the process lifetime.
pub struct WarnCounters {
    pub entries: Vec<(String, WarnCounter)>,
}

impl WarnCounters {
    /// Each error class has at most one entry.
    pub open spec fn wf(self) -> bool {
        forall|i: int, j: int|
            0 <= i < j < self.entries@.len() ==> self.entries@[i].0@ != self.entries@[j].0@
    }

    /// Every stored window start lies at or before `now_ms`; holds
    /// whenever the caller's clock is monotonic.
    pub open spec fn before(self, now_ms: u64) -> bool {
        forall|i: int|
            0 <= i < self.entries@.len() ==> (#[trigger] self.entries@[i]).1.last_emit_ms <= now_ms
    }

    /// The counter stored for `key`, if any.
    pub open spec fn lookup(self, key: Seq<char>) -> Option<WarnCounter> {
        if exists|i: int| 0 <= i < self.entries@.len() && (#[trigger] self.entries@[i]).0@ == key {
            let i = choose|i: int|
                0 <= i < self.entries@.len() && (#[trigger] self.entries@[i]).0@ == key;
            Option::Some(self.entries@[i].1)
        } else {
            Option::None
        }
    }

    pub fn new() -> (c: WarnCounters)
        ensures
            c.wf(),
            c.entries@.len() == 0,
    {
        WarnCounters { entries: Vec::new() }
    }
}

/// Counts an occurrence of the error class `id` at time `now_ms` and
/// says whether the caller should emit the warning now.  A class is
/// warned about at most once per interval; the occurrences in between
/// are only counted.  An emission resets the class's count to zero and
/// starts a fresh window at `now_ms`.
pub fn rate_limited_warn(counters: &mut WarnCounters, id: &str, now_ms: u64) -> (emit: bool)
    requires
        old(counters).wf(),
        old(counters).before(now_ms),
    ensures
        final(counters).wf(),
        final(counters).before(now_ms),
        match old(counters).lookup(id@) {
            Option::Some(c) => {
                &&& emit == warn_emits(c, now_ms)
                &&& final(counters).entries@.len() == old(counters).entries@.len()
                &&& forall|i: int|
                    0 <= i < old(counters).entries@.len() && (#[trigger] old(
                        counters,
                    ).entries@[i]).0@ == id@ ==> final(counters).entries@[i].0@ == id@
                        && final(counters).entries@[i].1 == warn_step(c, now_ms)
                &&& forall|i: int|
                    0 <= i < old(counters).entries@.len() && (#[trigger] old(
                        counters,
                    ).entries@[i]).0@ != id@ ==> final(counters).entries@[i] == old(
                        counters,
                    ).entries@[i]
            },
            Option::None => {
                &&& emit == false
                &&& final(counters).entries@.len() == old(counters).entries@.len() + 1
                &&& forall|i: int|
                    0 <= i < old(counters).entries@.len() ==> final(counters).entries@[i] == old(
                        counters,
                    ).entries@[i]
                &&& final(counters).entries@.last().0@ == id@
                &&& final(counters).entries@.last().1 == (WarnCounter {
                    count: 1,
                    last_emit_ms: now_ms,
                })
            },
        },
{
    let id_string: String = id.to_owned();
    let n = counters.entries.len();
    let mut i: usize = 0;
    while i < n
        invariant
            counters == old(counters),
            n == counters.entries@.len(),
            i <= n,
            id_string@ == id@,
            counters.wf(),
            counters.before(now_ms),
            forall|j: int| 0 <= j < i ==> (#[trigger] counters.entries@[j]).0@ != id@,
        decreases n - i,
    {
        if counters.entries[i].0 == id_string {
            let c = counters.entries[i].1;
            let emit = now_ms - c.last_emit_ms >= EMIT_INTERVAL_MS;
            let next = if emit {
                WarnCounter { count: 0, last_emit_ms: now_ms }
            } else {
                WarnCounter { count: if c.count < u64::MAX {
                    c.count + 1
                } else {
                    c.count
                }, last_emit_ms: c.last_emit_ms }
            };
            let key = counters.entries[i].0.clone();
            counters.entries.set(i, (key, next));
            proof {
                let oi = i as int;
                assert(0 <= oi < old(counters).entries@.len() && (#[trigger] old(
                    counters,
                ).entries@[oi]).0@ == id@);
                let ci = choose|k: int|
                    0 <= k < old(counters).entries@.len() && (#[trigger] old(
                        counters,
                    ).entries@[k]).0@ == id@;
                if ci < oi {
                    assert(old(counters).entries@[ci].0@ != old(counters).entries@[oi].0@);
                } else if oi < ci {
                    assert(old(counters).entries@[oi].0@ != old(counters).entries@[ci].0@);
                }
                assert(ci == oi);
                assert(old(counters).lookup(id@) == Option::Some(c));
                assert(next == warn_step(c, now_ms));
                assert(forall|k: int|
                    0 <= k < counters.entries@.len() ==> (#[trigger] counters.entries@[k]).0@
                        == old(counters).entries@[k].0@);
            }
            return emit;
        }
        i = i + 1;
    }
    counters.entries.push((id_string, WarnCounter { count: 1, last_emit_ms: now_ms }));
    proof {
        assert(old(counters).lookup(id@) is None);
        assert(counters.entries@.last() == counters.entries@[n as int]);
    }
    false
}

/// How many of the calls in a burst emit: the counter is stepped
/// through the call times in order and the emissions are counted.
pub open spec fn burst_emissions(c: WarnCounter, times: Seq<u64>) -> nat
    decreases times.len(),
{
    if times.len() == 0 {
        0
    } else {
        (if warn_emits(c, times[0]) {
            1nat
        } else {
            0nat
        }) + burst_emissions(warn_step(c, times[0]), times.drop_first())
    }
}

/// A burst of calls that all fall inside the counter's current window
/// emits nothing: only elapsed time governs emission.
pub proof fn lemma_no_emission_within_window(c: WarnCounter, times: Seq<u64>)
    requires
        forall|i: int|
            0 <= i < times.len() ==> #[trigger] times[i] < c.last_emit_ms + EMIT_INTERVAL_MS,
    ensures
        burst_emissions(c, times) == 0,
    decreases times.len(),
{
    if times.len() > 0 {
        assert(!warn_emits(c, times[0]));
        assert(warn_step(c, times[0]).last_emit_ms == c.last_emit_ms);
        assert(forall|i: int|
            0 <= i < times.drop_first().len() ==> #[trigger] times.drop_first()[i] < c.last_emit_ms
                + EMIT_INTERVAL_MS) by {
            assert(forall|i: int|
                0 <= i < times.drop_first().len() ==> times.drop_first()[i] == #[trigger] times[i
                    + 1]);
        }
        lemma_no_emission_within_window(warn_step(c, times[0]), times.drop_first());
    }
}

/// In a burst whose first call emits and whose remaining calls all fall
/// inside the fresh window that the emission starts, exactly one call
/// emits: the first.  The emission resets the count and the window, so
/// the next emission can come only after another full interval.
pub proof fn lemma_single_emission_per_window(c: WarnCounter, times: Seq<u64>)
    requires
        times.len() > 0,
        warn_emits(c, times[0]),
        forall|i: int| 1 <= i < times.len() ==> #[trigger] times[i] < times[0] + EMIT_INTERVAL_MS,
    ensures
        burst_emissions(c, times) == 1,
{
    let fresh = warn_step(c, times[0]);
    assert(fresh.count == 0 && fresh.last_emit_ms == times[0]);
    assert(forall|i: int|
        0 <= i < times.drop_first().len() ==> #[trigger] times.drop_first()[i] < fresh.last_emit_ms
            + EMIT_INTERVAL_MS) by {
        assert(forall|i: int|
            0 <= i < times.drop_first().len() ==> times.drop_first()[i] == #[trigger] times[i + 1]);
    }
    lemma_no_emission_within_window(fresh, times.drop_first());
}

} // verus!
