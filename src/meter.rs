//! Deadline arithmetic for the meter and the watchdog, and the meter's
//! per-interval deltas. Times are milliseconds on a monotonic clock that the
//! caller reads; a deadline at the end of its range stays there.
use crate::accumulator::{boundary_below, PUBLISH_THRESHOLD};
use vstd::prelude::*;

verus! {

/// `a + b`, held at `u64::MAX`.
pub open spec fn sat_add(a: nat, b: nat) -> nat {
    if a + b > u64::MAX {
        u64::MAX as nat
    } else {
        a + b
    }
}

/// `a * b`, held at `u64::MAX`.
pub open spec fn sat_mul(a: nat, b: nat) -> nat {
    if a * b > u64::MAX {
        u64::MAX as nat
    } else {
        a * b
    }
}

/// Time left from `now` until `deadline`, zero once it has passed.
pub open spec fn time_until(now: nat, deadline: nat) -> nat {
    if now < deadline {
        (deadline - now) as nat
    } else {
        0
    }
}

/// Milliseconds in `secs` seconds, held at `u64::MAX`.
pub fn secs_to_millis(secs: u64) -> (r: u64)
    ensures
        r == sat_mul(secs as nat, 1000),
{
    if secs > u64::MAX / 1000 {
        u64::MAX
    } else {
        secs * 1000
    }
}

/// Time left from `now` until `deadline`: how long to sleep to wake at the
/// deadline itself rather than an interval after it.
pub fn delay_until(now: u64, deadline: u64) -> (r: u64)
    ensures
        r == time_until(now as nat, deadline as nat),
{
    if now < deadline {
        deadline - now
    } else {
        0
    }
}

/// The watchdog's single deadline, computed once when it is armed.
pub struct Watchdog {
    deadline: u64,
}

impl Watchdog {
    pub closed spec fn spec_deadline(&self) -> nat {
        self.deadline as nat
    }

    /// Arms the watchdog at `now` for a run of `duration` milliseconds.
    pub fn arm(now: u64, duration: u64) -> (r: Watchdog)
        ensures
            r.spec_deadline() == sat_add(now as nat, duration as nat),
    {
        Watchdog { deadline: now.saturating_add(duration) }
    }

    pub fn deadline(&self) -> (r: u64)
        ensures
            r == self.spec_deadline(),
    {
        self.deadline
    }

    /// How long the watchdog still sleeps, seen from `now`.
    pub fn remaining(&self, now: u64) -> (r: u64)
        ensures
            r == time_until(now as nat, self.spec_deadline()),
    {
        delay_until(now, self.deadline)
    }

    /// Whether the run's time is up at `now`.
    pub fn expired(&self, now: u64) -> (r: bool)
        ensures
            r == (now >= self.spec_deadline()),
    {
        now >= self.deadline
    }
}

/// Mathematical view of a [`Meter`].
pub struct MeterView {
    pub interval: nat,
    pub next_wake: nat,
    pub last_total: nat,
    pub samples: nat,
}

/// The meter after a wake that read `total`.
pub open spec fn meter_wake(v: MeterView, total: nat) -> MeterView {
    MeterView {
        interval: v.interval,
        next_wake: sat_add(v.next_wake, v.interval),
        last_total: total,
        samples: v.samples + 1,
    }
}

/// The meter after wakes that read `totals`, in order.
pub open spec fn meter_run(v: MeterView, totals: Seq<nat>) -> MeterView
    decreases totals.len(),
{
    if totals.len() == 0 {
        v
    } else {
        meter_wake(meter_run(v, totals.drop_last()), totals.last())
    }
}

/// The deltas that the meter emits for wakes that read `totals`.
pub open spec fn meter_deltas(last: nat, totals: Seq<nat>) -> Seq<int>
    decreases totals.len(),
{
    if totals.len() == 0 {
        Seq::empty()
    } else {
        let prev = if totals.len() == 1 {
            last
        } else {
            totals[totals.len() - 2]
        };
        meter_deltas(last, totals.drop_last()).push(totals.last() - prev)
    }
}

pub open spec fn sum(s: Seq<int>) -> int
    decreases s.len(),
{
    if s.len() == 0 {
        0
    } else {
        sum(s.drop_last()) + s.last()
    }
}

/// The periodic reporter: one delta of the shared counter per interval,
/// waking at absolute deadlines so that jitter does not accumulate.
pub struct Meter {
    interval: u64,
    next_wake: u64,
    last_total: u64,
    samples: u64,
}

impl View for Meter {
    type V = MeterView;

    closed spec fn view(&self) -> MeterView {
        MeterView {
            interval: self.interval as nat,
            next_wake: self.next_wake as nat,
            last_total: self.last_total as nat,
            samples: self.samples as nat,
        }
    }
}

impl Meter {
    /// A meter started at `start` that wakes every `interval` milliseconds,
    /// from a baseline of zero.
    pub fn new(start: u64, interval: u64) -> (r: Meter)
        ensures
            r@ == (MeterView {
                interval: interval as nat,
                next_wake: sat_add(start as nat, interval as nat),
                last_total: 0,
                samples: 0,
            }),
    {
        Meter { interval, next_wake: start.saturating_add(interval), last_total: 0, samples: 0 }
    }

    /// The deadline of the next wake.
    pub fn next_wake(&self) -> (r: u64)
        ensures
            r == self@.next_wake,
    {
        self.next_wake
    }

    /// The total read at the last wake.
    pub fn last_total(&self) -> (r: u64)
        ensures
            r == self@.last_total,
    {
        self.last_total
    }

    /// Samples emitted so far.
    pub fn samples(&self) -> (r: u64)
        ensures
            r == self@.samples,
    {
        self.samples
    }

    /// How long to sleep, seen from `now`, to wake at the next deadline.
    pub fn delay(&self, now: u64) -> (r: u64)
        ensures
            r == time_until(now as nat, self@.next_wake),
    {
        delay_until(now, self.next_wake)
    }

    /// A wake that read `total` from the shared counter: returns the delta
    /// since the last wake, takes `total` as the new baseline and moves the
    /// deadline one interval on.
    pub fn on_wake(&mut self, total: u64) -> (r: u64)
        requires
            old(self)@.last_total <= total,
            old(self)@.samples < u64::MAX,
        ensures
            r == total - old(self)@.last_total,
            final(self)@ == meter_wake(old(self)@, total as nat),
    {
        let delta = total - self.last_total;
        self.last_total = total;
        self.next_wake = self.next_wake.saturating_add(self.interval);
        self.samples = self.samples + 1;
        delta
    }
}

/// No drift: after `k` wakes the deadline is exactly `k` intervals after the
/// first one, while the clock has room for it.
pub proof fn lemma_meter_deadlines(v: MeterView, totals: Seq<nat>)
    requires
        v.next_wake + totals.len() * v.interval <= u64::MAX,
    ensures
        meter_run(v, totals).next_wake == v.next_wake + totals.len() * v.interval,
        meter_run(v, totals).samples == v.samples + totals.len(),
        meter_run(v, totals).interval == v.interval,
    decreases totals.len(),
{
    if totals.len() > 0 {
        let k = totals.len() as int;
        assert(v.next_wake + (k - 1) * v.interval <= v.next_wake + k * v.interval) by (
        nonlinear_arith)
            requires
                k >= 1,
                v.interval >= 0,
        ;
        lemma_meter_deadlines(v, totals.drop_last());
        assert((k - 1) * v.interval + v.interval == k * v.interval) by (nonlinear_arith);
    }
}

/// A run of `duration` started at a deadline `start` holds the wakes at
/// `start + k * interval` for `k` from 1 up to `duration / interval`, and no
/// other: that many samples.
pub proof fn lemma_samples_in_run(duration: nat, interval: nat, k: nat)
    requires
        interval > 0,
        k >= 1,
    ensures
        k * interval <= duration <==> k <= duration / interval,
{
    let q = duration / interval;
    let r = duration % interval;
    assert(duration == q * interval + r && r < interval) by (nonlinear_arith)
        requires
            interval > 0,
            q == duration / interval,
            r == duration % interval,
    ;
    if k <= q {
        assert(k * interval <= q * interval) by (nonlinear_arith)
            requires
                k <= q,
        ;
    } else {
        assert(k * interval >= q * interval + interval) by (nonlinear_arith)
            requires
                k >= q + 1,
        ;
    }
}

/// The emitted deltas add up to the last total read less the first
/// baseline: nothing is counted twice or lost between intervals.
pub proof fn lemma_meter_deltas_sum(last: nat, totals: Seq<nat>)
    requires
        totals.len() > 0,
    ensures
        sum(meter_deltas(last, totals)) == totals.last() - last,
        meter_deltas(last, totals).len() == totals.len(),
    decreases totals.len(),
{
    let d = meter_deltas(last, totals);
    let prev = if totals.len() == 1 {
        last
    } else {
        totals[totals.len() - 2]
    };
    assert(d == meter_deltas(last, totals.drop_last()).push(totals.last() - prev));
    assert(d.drop_last() =~= meter_deltas(last, totals.drop_last()));
    assert(d.last() == totals.last() - prev);
    assert(sum(d) == sum(d.drop_last()) + d.last());
    if totals.len() > 1 {
        lemma_meter_deltas_sum(last, totals.drop_last());
        assert(totals.drop_last().last() == prev);
    }
}

/// When each total read is the published value of a hot loop that had
/// counted `counts[i]` (its last batch boundary), the samples of a run add
/// up to the count at the last wake less under one batch.
pub proof fn lemma_meter_sum_within_one_batch(counts: Seq<nat>, totals: Seq<nat>)
    requires
        totals.len() > 0,
        totals.len() == counts.len(),
        forall|i: int| 0 <= i < totals.len() ==> #[trigger] totals[i] == boundary_below(counts[i]),
    ensures
        sum(meter_deltas(0, totals)) <= counts.last(),
        counts.last() - sum(meter_deltas(0, totals)) < PUBLISH_THRESHOLD,
        meter_deltas(0, totals).len() == totals.len(),
{
    lemma_meter_deltas_sum(0, totals);
    assert(totals.last() == totals[totals.len() - 1]);
}

} // verus!
