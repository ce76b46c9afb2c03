//! The per-tick metrics sample: frame cadence from the rolling window, and
//! the footprint of the process from a reading of the system.
//!
//! Figures that are quotients are handed out as exact fractions; it is for
//! whoever shows them to divide.

use crate::clock::FrameClock;
use crate::fraction::{fraction_of, Fraction};
use crate::history::{average_of, lemma_parts_fit, rate_of, window, FrameHistory, HISTORY_CAPACITY};
use vstd::prelude::*;

verus! {

/// Thousandths of a percent of one core in a whole core: utilisation is a
/// percentage of one core, so a hundred percent are one core.
pub const MILLIPERCENT_PER_CORE: u64 = 100_000;

/// Bytes in a mebibyte.
pub const BYTES_PER_MIB: u64 = 1_048_576;

/// What a refreshed view of the system says of this process.
#[derive(Clone, Copy, Debug, PartialEq, Eq)]
pub struct ProcessReading {
    /// Processor utilisation in thousandths of a percent of one core.
    pub cpu_millipercent: u64,
    /// Resident memory in bytes.
    pub resident_bytes: u64,
    /// The number of live tasks of the process, where the system lists them.
    pub tasks: Option<usize>,
}

/// One metrics sample.
#[derive(Clone, Copy, Debug, PartialEq, Eq)]
pub struct Metrics {
    /// The interval since the previous sample, in nanoseconds.
    pub frame_interval_ns: u64,
    /// The average interval over the window, in nanoseconds.
    pub average_interval_ns: Fraction,
    /// The frame rate over the window, in frames per second.
    pub rate_hz: Fraction,
    /// Processor utilisation in thousandths of a percent of one core.
    pub cpu_millipercent: u64,
    /// Cores in use: the utilisation over a hundred percent.
    pub cores_used: Fraction,
    /// The number of cores of the machine.
    pub total_cores: usize,
    /// Resident memory in mebibytes.
    pub resident_mib: Fraction,
    /// The number of live threads of the process.
    pub thread_count: usize,
}

/// The reading that stands for a process the system could not find: all
/// zero.
pub open spec fn reading_or_zero(reading: Option<ProcessReading>) -> ProcessReading {
    match reading {
        Some(found) => found,
        None => ProcessReading { cpu_millipercent: 0, resident_bytes: 0, tasks: None },
    }
}

/// The thread count of a reading: the number of listed tasks, zero where the
/// system lists none.
pub open spec fn thread_count_of(reading: ProcessReading) -> usize {
    match reading.tasks {
        Some(count) => count,
        None => 0,
    }
}

/// The sample that belongs to a window, the interval just measured, a
/// reading of the process and the number of cores.
pub open spec fn metrics_of(
    history: Seq<u64>,
    frame_interval_ns: u64,
    reading: Option<ProcessReading>,
    total_cores: usize,
) -> Metrics {
    let process = reading_or_zero(reading);
    Metrics {
        frame_interval_ns,
        average_interval_ns: fraction_of(average_of(history)),
        rate_hz: fraction_of(rate_of(history)),
        cpu_millipercent: process.cpu_millipercent,
        cores_used: Fraction {
            numerator: process.cpu_millipercent as u128,
            denominator: MILLIPERCENT_PER_CORE as u128,
        },
        total_cores,
        resident_mib: Fraction {
            numerator: process.resident_bytes as u128,
            denominator: BYTES_PER_MIB as u128,
        },
        thread_count: thread_count_of(process),
    }
}

/// Samples frame cadence and process footprint tick by tick, and keeps the
/// latest sample for whoever wants to show it.
pub struct MetricsSampler {
    clock: FrameClock,
    history: FrameHistory,
    total_cores: usize,
    latest: Metrics,
}

impl View for MetricsSampler {
    type V = Seq<u64>;

    /// The window of recorded intervals, oldest first.
    closed spec fn view(&self) -> Seq<u64> {
        self.history@
    }
}

impl MetricsSampler {
    /// The timestamp of the previous sample on the sampler's clock, in
    /// nanoseconds since the sampler was made.
    pub closed spec fn clock_face(&self) -> u64 {
        self.clock@
    }

    /// The number of cores the sampler was made with.
    pub closed spec fn cores(&self) -> usize {
        self.total_cores
    }

    /// The sample taken last; before the first one, the sample of an empty
    /// window and a process that was not found.
    pub closed spec fn latest(&self) -> Metrics {
        self.latest
    }

    /// A sampler for a machine with `total_cores` cores, with an empty
    /// window, whose first interval starts now.
    pub fn new(total_cores: usize) -> (sampler: Self)
        ensures
            sampler@ == Seq::<u64>::empty(),
            sampler.clock_face() == 0,
            sampler.cores() == total_cores,
            sampler.latest() == metrics_of(Seq::<u64>::empty(), 0, None, total_cores),
    {
        let history = FrameHistory::new();
        let average_interval_ns = history.average_interval();
        let rate_hz = history.rate();
        MetricsSampler {
            clock: FrameClock::start(),
            history,
            total_cores,
            latest: Metrics {
                frame_interval_ns: 0,
                average_interval_ns,
                rate_hz,
                cpu_millipercent: 0,
                cores_used: Fraction { numerator: 0, denominator: MILLIPERCENT_PER_CORE as u128 },
                total_cores,
                resident_mib: Fraction { numerator: 0, denominator: BYTES_PER_MIB as u128 },
                thread_count: 0,
            },
        }
    }

    /// The window of recorded intervals.
    pub fn history(&self) -> (history: &FrameHistory)
        ensures
            history@ == self@,
    {
        &self.history
    }

    /// The latest sample, to show.
    pub fn current_metrics(&self) -> (metrics: Metrics)
        ensures
            metrics == self.latest(),
    {
        self.latest
    }

    /// Takes one sample for an interval that was measured elsewhere: records
    /// the interval into the window and derives the figures from the window
    /// and from the reading of the process. A process that was not found
    /// counts as all zero. The sampler's clock is left alone.
    pub fn observe(
        &mut self,
        frame_interval_ns: u64,
        reading: Option<ProcessReading>,
    ) -> (metrics: Metrics)
        ensures
            final(self)@ == window(old(self)@.push(frame_interval_ns)),
            final(self).clock_face() == old(self).clock_face(),
            final(self).cores() == old(self).cores(),
            metrics == metrics_of(final(self)@, frame_interval_ns, reading, old(self).cores()),
            metrics.average_interval_ns@ == average_of(final(self)@),
            metrics.rate_hz@ == rate_of(final(self)@),
            final(self).latest() == metrics,
    {
        self.history.record(frame_interval_ns);
        let average_interval_ns = self.history.average_interval();
        let rate_hz = self.history.rate();
        let process = match reading {
            Some(found) => found,
            None => ProcessReading { cpu_millipercent: 0, resident_bytes: 0, tasks: None },
        };
        let thread_count = match process.tasks {
            Some(count) => count,
            None => 0,
        };
        let metrics = Metrics {
            frame_interval_ns,
            average_interval_ns,
            rate_hz,
            cpu_millipercent: process.cpu_millipercent,
            cores_used: Fraction {
                numerator: process.cpu_millipercent as u128,
                denominator: MILLIPERCENT_PER_CORE as u128,
            },
            total_cores: self.total_cores,
            resident_mib: Fraction {
                numerator: process.resident_bytes as u128,
                denominator: BYTES_PER_MIB as u128,
            },
            thread_count,
        };
        self.latest = metrics;
        metrics
    }

    /// Takes one sample: measures the interval since the previous sample on
    /// the wall clock, moves the timestamp of the previous sample forward by
    /// it, and goes on as `observe` does. The measured interval is handed
    /// back in the sample.
    pub fn sample(&mut self, reading: Option<ProcessReading>) -> (metrics: Metrics)
        ensures
            final(self).clock_face() == old(self).clock_face() + metrics.frame_interval_ns,
            final(self)@ == window(old(self)@.push(metrics.frame_interval_ns)),
            final(self).cores() == old(self).cores(),
            metrics == metrics_of(
                final(self)@,
                metrics.frame_interval_ns,
                reading,
                old(self).cores(),
            ),
            metrics.average_interval_ns@ == average_of(final(self)@),
            metrics.rate_hz@ == rate_of(final(self)@),
            final(self).latest() == metrics,
    {
        let frame_interval_ns = self.clock.lap();
        self.observe(frame_interval_ns, reading)
    }
}

/// Fallback: a sample taken while the process could not be found reports no
/// processor use, no cores in use, no resident memory and no threads.
pub proof fn lemma_missing_process_reads_zero(
    history: Seq<u64>,
    frame_interval_ns: u64,
    total_cores: usize,
)
    ensures
        metrics_of(history, frame_interval_ns, None, total_cores).cpu_millipercent == 0,
        metrics_of(history, frame_interval_ns, None, total_cores).cores_used@.num == 0,
        metrics_of(history, frame_interval_ns, None, total_cores).resident_mib@.num == 0,
        metrics_of(history, frame_interval_ns, None, total_cores).thread_count == 0,
{
}

/// The average and the rate in a sample of a window within capacity are the
/// average and the rate of that window: their parts fit the fractions.
pub proof fn lemma_metrics_in_range(
    history: Seq<u64>,
    frame_interval_ns: u64,
    reading: Option<ProcessReading>,
    total_cores: usize,
)
    requires
        history.len() <= HISTORY_CAPACITY,
    ensures
        metrics_of(history, frame_interval_ns, reading, total_cores).average_interval_ns@
            == average_of(history),
        metrics_of(history, frame_interval_ns, reading, total_cores).rate_hz@ == rate_of(
            history,
        ),
{
    lemma_parts_fit(history);
}

} // verus!
