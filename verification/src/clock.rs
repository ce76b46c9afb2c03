//! The frame clock: wall-clock time between one tick and the next.

use std::time::{Duration, Instant};
use vstd::prelude::*;

verus! {

/// Trusted: `std::time::Instant`, a reading of the monotonic clock. Nothing
/// is known of what a reading holds.
#[verifier::external_type_specification]
#[verifier::external_body]
pub struct ExInstant(Instant);

/// Trusted: `Instant::now` reads the clock. Nothing is promised of the
/// reading.
pub assume_specification[ Instant::now ]() -> (now: Instant)
;

/// Trusted: `Instant::saturating_duration_since` gives the time that passed
/// from `earlier` to `this`, and zero where `earlier` is the later of the
/// two. Nothing is promised of the amount.
pub assume_specification[ Instant::saturating_duration_since ](
    this: &Instant,
    earlier: Instant,
) -> (elapsed: Duration)
;

/// Trusted: `Duration::as_nanos` gives a duration in whole nanoseconds.
/// Nothing is promised of the amount.
pub assume_specification[ Duration::as_nanos ](duration: &Duration) -> (nanos: u128)
;

/// The nanosecond count `nanos` as an interval: itself where it fits, else
/// the largest interval.
pub open spec fn saturated(nanos: u128) -> u64 {
    if nanos > u64::MAX {
        u64::MAX
    } else {
        nanos as u64
    }
}

/// Brings a nanosecond count into the range of an interval.
pub fn saturate_nanos(nanos: u128) -> (interval_ns: u64)
    ensures
        interval_ns == saturated(nanos),
{
    if nanos > u64::MAX as u128 {
        u64::MAX
    } else {
        nanos as u64
    }
}

/// The interval from the timestamp `previous_ns` to the timestamp `now_ns`:
/// their difference, and zero where the clock has not moved forward.
pub open spec fn interval_between(previous_ns: u64, now_ns: u64) -> u64 {
    if now_ns >= previous_ns {
        (now_ns - previous_ns) as u64
    } else {
        0
    }
}

/// The later of two timestamps.
pub open spec fn later_of(previous_ns: u64, now_ns: u64) -> u64 {
    if now_ns >= previous_ns {
        now_ns
    } else {
        previous_ns
    }
}

/// Remembers when the previous tick was sampled.
///
/// Timestamps are nanoseconds on a face that read zero when the clock was
/// started. The view is the timestamp of the previous sample.
pub struct FrameClock {
    origin: Instant,
    previous_ns: u64,
}

impl View for FrameClock {
    type V = u64;

    closed spec fn view(&self) -> u64 {
        self.previous_ns
    }
}

impl FrameClock {
    /// A clock whose first interval starts now: its face reads zero.
    pub fn start() -> (clock: Self)
        ensures
            clock@ == 0,
    {
        FrameClock { origin: Instant::now(), previous_ns: 0 }
    }

    /// The nanoseconds that passed since the previous call, or since the
    /// clock was started; the next interval starts now. The timestamp of the
    /// previous sample moves forward by exactly the interval handed back, so
    /// the intervals of a run of laps add up to the time on the face.
    pub fn lap(&mut self) -> (interval_ns: u64)
        ensures
            final(self)@ == old(self)@ + interval_ns,
    {
        let now = Instant::now();
        let since_start = now.saturating_duration_since(self.origin);
        let now_ns = saturate_nanos(since_start.as_nanos());
        self.advance_to(now_ns)
    }

    /// Takes the face to the timestamp `now_ns` that was read elsewhere and
    /// hands back the interval since the previous sample. A timestamp that
    /// lies before the previous one gives an interval of zero and leaves the
    /// face where it was.
    pub fn advance_to(&mut self, now_ns: u64) -> (interval_ns: u64)
        ensures
            interval_ns == interval_between(old(self)@, now_ns),
            final(self)@ == later_of(old(self)@, now_ns),
    {
        if now_ns >= self.previous_ns {
            let interval_ns = now_ns - self.previous_ns;
            self.previous_ns = now_ns;
            interval_ns
        } else {
            0
        }
    }

    /// The timestamp of the previous sample.
    pub fn previous_ns(&self) -> (timestamp_ns: u64)
        ensures
            timestamp_ns == self@,
    {
        self.previous_ns
    }
}

} // verus!
