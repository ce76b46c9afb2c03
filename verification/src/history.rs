//! The rolling window of frame intervals and the rate derived from it.
//!
//! Intervals are whole nanoseconds. The average interval and the rate are
//! exact: each is handed out as a fraction, never rounded.

use crate::fraction::{Fraction, Ratio};
use vstd::prelude::*;

verus! {

/// The number of intervals the window holds at most.
pub const HISTORY_CAPACITY: usize = 60;

/// Nanoseconds in a second: an interval of `d` nanoseconds is a rate of
/// `NANOS_PER_SECOND / d` frames per second.
pub const NANOS_PER_SECOND: u64 = 1_000_000_000;

/// The most recent `HISTORY_CAPACITY` entries of `all`, in arrival order.
pub open spec fn window(all: Seq<u64>) -> Seq<u64> {
    if all.len() <= HISTORY_CAPACITY {
        all
    } else {
        all.skip(all.len() - HISTORY_CAPACITY)
    }
}

/// The window after the intervals `pushes` were recorded into the window
/// `history`, one after the other.
pub open spec fn record_all(history: Seq<u64>, pushes: Seq<u64>) -> Seq<u64>
    decreases pushes.len(),
{
    if pushes.len() == 0 {
        history
    } else {
        window(record_all(history, pushes.drop_last()).push(pushes.last()))
    }
}

/// The sum of the intervals.
pub open spec fn total(intervals: Seq<u64>) -> int
    decreases intervals.len(),
{
    if intervals.len() == 0 {
        0
    } else {
        total(intervals.drop_last()) + intervals.last()
    }
}

/// The average interval in nanoseconds: the sum of the intervals over their
/// number, and zero for an empty window.
pub open spec fn average_of(intervals: Seq<u64>) -> Ratio {
    if intervals.len() == 0 {
        Ratio::zero()
    } else {
        Ratio { num: total(intervals), den: intervals.len() as int }
    }
}

/// The rate in frames per second: the reciprocal of the average interval,
/// that is the number of intervals times `NANOS_PER_SECOND` over their sum.
/// It is zero where the average interval is zero: for an empty window and
/// for one that holds only zeros.
pub open spec fn rate_of(intervals: Seq<u64>) -> Ratio {
    if total(intervals) == 0 {
        Ratio::zero()
    } else {
        Ratio { num: intervals.len() * NANOS_PER_SECOND, den: total(intervals) }
    }
}

/// A bounded first-in, first-out window over the most recent frame
/// intervals, oldest first.
pub struct FrameHistory {
    intervals: Vec<u64>,
}

impl View for FrameHistory {
    type V = Seq<u64>;

    closed spec fn view(&self) -> Seq<u64> {
        self.intervals@
    }
}

impl FrameHistory {
    #[verifier::type_invariant]
    spec fn within_capacity(self) -> bool {
        self.intervals@.len() <= HISTORY_CAPACITY
    }

    /// An empty window.
    pub fn new() -> (history: Self)
        ensures
            history@ == Seq::<u64>::empty(),
    {
        FrameHistory { intervals: Vec::new() }
    }

    /// Records one interval: it becomes the newest entry, and once the window
    /// is over capacity the oldest entry leaves.
    pub fn record(&mut self, interval_ns: u64)
        ensures
            final(self)@ == window(old(self)@.push(interval_ns)),
            final(self)@.len() <= HISTORY_CAPACITY,
    {
        proof {
            use_type_invariant(&*self);
        }
        let mut intervals: Vec<u64> = Vec::new();
        core::mem::swap(&mut intervals, &mut self.intervals);
        intervals.push(interval_ns);
        if intervals.len() > HISTORY_CAPACITY {
            intervals.remove(0);
            assert(intervals@ =~= old(self)@.push(interval_ns).skip(1));
        }
        self.intervals = intervals;
    }

    /// The number of intervals in the window.
    pub fn len(&self) -> (n: usize)
        ensures
            n == self@.len(),
            n <= HISTORY_CAPACITY,
    {
        proof {
            use_type_invariant(self);
        }
        self.intervals.len()
    }

    /// The intervals in the window, oldest first.
    pub fn intervals(&self) -> (intervals: &[u64])
        ensures
            intervals@ == self@,
            intervals@.len() <= HISTORY_CAPACITY,
    {
        proof {
            use_type_invariant(self);
        }
        self.intervals.as_slice()
    }

    /// The sum of the intervals in the window, in nanoseconds.
    pub fn total_ns(&self) -> (sum: u128)
        ensures
            sum == total(self@),
    {
        proof {
            use_type_invariant(self);
        }
        let mut sum: u128 = 0;
        let mut i: usize = 0;
        while i < self.intervals.len()
            invariant
                i <= self.intervals@.len() <= HISTORY_CAPACITY,
                sum == total(self.intervals@.take(i as int)),
                sum <= i * u64::MAX,
            decreases self.intervals@.len() - i,
        {
            proof {
                let next = self.intervals@.take(i + 1);
                assert(next.drop_last() =~= self.intervals@.take(i as int));
                assert(next.last() == self.intervals@[i as int]);
                assert((i + 1) * u64::MAX == i * u64::MAX + u64::MAX) by (nonlinear_arith);
                assert(i * u64::MAX <= 60 * u64::MAX) by (nonlinear_arith)
                    requires
                        i <= 60,
                ;
            }
            sum = sum + self.intervals[i] as u128;
            i = i + 1;
        }
        assert(self.intervals@.take(i as int) =~= self.intervals@);
        sum
    }

    /// The average interval in nanoseconds, exactly; zero for an empty
    /// window.
    pub fn average_interval(&self) -> (avg: Fraction)
        ensures
            avg@ == average_of(self@),
            avg.denominator > 0,
    {
        let n = self.len();
        if n == 0 {
            Fraction { numerator: 0, denominator: 1 }
        } else {
            Fraction { numerator: self.total_ns(), denominator: n as u128 }
        }
    }

    /// The frame rate in frames per second, exactly: the reciprocal of the
    /// average interval, and zero where the average interval is zero.
    pub fn rate(&self) -> (rate: Fraction)
        ensures
            rate@ == rate_of(self@),
            rate.denominator > 0,
    {
        let sum = self.total_ns();
        if sum == 0 {
            Fraction { numerator: 0, denominator: 1 }
        } else {
            let n = self.len();
            Fraction { numerator: (n as u128) * (NANOS_PER_SECOND as u128), denominator: sum }
        }
    }
}

/// The sum of a window lies between zero and the number of entries times the
/// largest interval.
pub proof fn lemma_total_bounds(intervals: Seq<u64>)
    ensures
        0 <= total(intervals) <= intervals.len() * u64::MAX,
    decreases intervals.len(),
{
    if intervals.len() > 0 {
        lemma_total_bounds(intervals.drop_last());
        assert(intervals.len() * u64::MAX == (intervals.len() - 1) * u64::MAX + u64::MAX)
            by (nonlinear_arith);
    }
}

/// The parts of the average and of the rate of a window within capacity
/// fit the fractions they are handed out in, and no denominator is zero.
pub proof fn lemma_parts_fit(intervals: Seq<u64>)
    requires
        intervals.len() <= HISTORY_CAPACITY,
    ensures
        0 <= average_of(intervals).num <= HISTORY_CAPACITY * u64::MAX,
        0 < average_of(intervals).den <= HISTORY_CAPACITY,
        0 <= rate_of(intervals).num <= HISTORY_CAPACITY * NANOS_PER_SECOND,
        0 < rate_of(intervals).den <= HISTORY_CAPACITY * u64::MAX,
{
    lemma_total_bounds(intervals);
    let n = intervals.len() as int;
    assert(n * u64::MAX <= 60 * u64::MAX) by (nonlinear_arith)
        requires
            0 <= n <= 60,
    ;
    assert(0 <= n * 1_000_000_000 <= 60 * 1_000_000_000) by (nonlinear_arith)
        requires
            0 <= n <= 60,
    ;
}

/// Cutting a window down before the next interval arrives changes nothing:
/// only the most recent entries count.
pub proof fn lemma_window_push(all: Seq<u64>, interval: u64)
    ensures
        window(window(all).push(interval)) == window(all.push(interval)),
{
    assert(window(window(all).push(interval)) =~= window(all.push(interval)));
}

/// Rolling window: recording any run of intervals into a window leaves the
/// most recent `HISTORY_CAPACITY` of everything that was ever recorded, in
/// arrival order, and never more than `HISTORY_CAPACITY` entries.
pub proof fn lemma_record_all_keeps_most_recent(history: Seq<u64>, pushes: Seq<u64>)
    requires
        history.len() <= HISTORY_CAPACITY,
    ensures
        record_all(history, pushes) == window(history + pushes),
        record_all(history, pushes).len() <= HISTORY_CAPACITY,
    decreases pushes.len(),
{
    if pushes.len() == 0 {
        assert(history + pushes =~= history);
    } else {
        let earlier = pushes.drop_last();
        lemma_record_all_keeps_most_recent(history, earlier);
        lemma_window_push(history + earlier, pushes.last());
        assert((history + earlier).push(pushes.last()) =~= history + pushes);
    }
}

/// Rolling window, from the start: after any run of pushes into an empty
/// window, the window holds the most recent `HISTORY_CAPACITY` pushes in
/// arrival order; after more than `HISTORY_CAPACITY` pushes it is full.
pub proof fn lemma_window_of_pushes(pushes: Seq<u64>)
    ensures
        record_all(Seq::<u64>::empty(), pushes) == window(pushes),
        record_all(Seq::<u64>::empty(), pushes).len() <= HISTORY_CAPACITY,
        pushes.len() > HISTORY_CAPACITY ==> record_all(Seq::<u64>::empty(), pushes).len()
            == HISTORY_CAPACITY,
        forall|i: int|
            0 <= i < window(pushes).len() ==> #[trigger] window(pushes)[i] == pushes[pushes.len()
                - window(pushes).len() + i],
{
    lemma_record_all_keeps_most_recent(Seq::<u64>::empty(), pushes);
    assert(Seq::<u64>::empty() + pushes =~= pushes);
}

/// The sum of equal intervals is their number times the interval.
pub proof fn lemma_total_of_equal(intervals: Seq<u64>, interval: u64)
    requires
        forall|i: int| 0 <= i < intervals.len() ==> intervals[i] == interval,
    ensures
        total(intervals) == intervals.len() * interval,
    decreases intervals.len(),
{
    if intervals.len() > 0 {
        lemma_total_of_equal(intervals.drop_last(), interval);
        assert(intervals.len() * interval == (intervals.len() - 1) * interval + interval)
            by (nonlinear_arith);
    }
}

/// The rate is zero exactly where no time has elapsed over the window, and
/// there the average interval is zero too; everywhere else both are above
/// zero.
pub proof fn lemma_rate_is_zero_only_without_elapsed_time(intervals: Seq<u64>)
    ensures
        total(intervals) == 0 ==> rate_of(intervals) == Ratio::zero() && average_of(
            intervals,
        ).num == 0,
        total(intervals) != 0 ==> rate_of(intervals).positive() && average_of(
            intervals,
        ).positive(),
{
    lemma_total_bounds(intervals);
    if total(intervals) != 0 {
        let n = intervals.len() as int;
        assert(n * 1_000_000_000 > 0) by (nonlinear_arith)
            requires
                n > 0,
        ;
    }
}

/// The rate is the reciprocal of the average interval: where time has
/// elapsed, rate times average is one frame per interval, that is
/// `NANOS_PER_SECOND` nanoseconds to the second.
pub proof fn lemma_rate_is_reciprocal_of_average(intervals: Seq<u64>)
    requires
        total(intervals) != 0,
    ensures
        rate_of(intervals).num * average_of(intervals).num == NANOS_PER_SECOND * (rate_of(
            intervals,
        ).den * average_of(intervals).den),
{
    let n = intervals.len() as int;
    let t = total(intervals);
    let unit = NANOS_PER_SECOND as int;
    assert((n * unit) * t == unit * (t * n)) by (nonlinear_arith);
}

/// Rate of a steady cadence: a window of equal intervals `interval > 0` has
/// exactly that interval as its average, and its rate is exactly the
/// reciprocal of the interval, `NANOS_PER_SECOND / interval` frames per
/// second, which is above zero however long the interval is.
pub proof fn lemma_rate_of_equal_intervals(intervals: Seq<u64>, interval: u64)
    requires
        intervals.len() > 0,
        interval > 0,
        forall|i: int| 0 <= i < intervals.len() ==> intervals[i] == interval,
    ensures
        average_of(intervals).same_number(Ratio { num: interval as int, den: 1 }),
        rate_of(intervals).same_number(Ratio { num: NANOS_PER_SECOND as int, den: interval as int }),
        rate_of(intervals).positive(),
{
    let n = intervals.len() as int;
    let d = interval as int;
    let unit = NANOS_PER_SECOND as int;
    lemma_total_of_equal(intervals, interval);
    assert(n * d > 0) by (nonlinear_arith)
        requires
            n > 0,
            d > 0,
    ;
    assert(n * unit > 0) by (nonlinear_arith)
        requires
            n > 0,
            unit > 0,
    ;
    assert((n * d) * 1 == d * n) by (nonlinear_arith);
    assert((n * unit) * d == unit * (n * d)) by (nonlinear_arith);
}

/// Rate of a window without elapsed time: where every interval is zero, and
/// so also for an empty window, the average and the rate are exactly zero.
pub proof fn lemma_rate_of_zero_intervals(intervals: Seq<u64>)
    requires
        forall|i: int| 0 <= i < intervals.len() ==> intervals[i] == 0,
    ensures
        average_of(intervals).num == 0,
        rate_of(intervals) == Ratio::zero(),
{
    lemma_total_of_equal(intervals, 0);
    assert(intervals.len() * 0 == 0) by (nonlinear_arith);
}

} // verus!
