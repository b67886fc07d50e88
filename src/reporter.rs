//! Elapsed-time bookkeeping for progress and summary reports.
//!
//! Times are nanosecond readings of a monotonic clock that the host takes.
use vstd::prelude::*;

verus! {

/// One report: how many pairs, and how long it took.
#[derive(Clone, Copy, Debug, PartialEq, Eq, Structural)]
pub struct ProgressSample {
    pub entries: u64,
    pub elapsed_nanos: u64,
}

/// Time from `from` to `to`; a reading earlier than `from` counts as no time.
pub open spec fn span(from: u64, to: u64) -> u64 {
    if to >= from {
        (to - from) as u64
    } else {
        0
    }
}

pub struct ProgressReporter {
    pub run_start: u64,
    pub interval_start: u64,
}

impl ProgressReporter {
    /// Starts both the run clock and the interval clock at `now`.
    pub fn start(now: u64) -> (r: ProgressReporter)
        ensures
            r.run_start == now,
            r.interval_start == now,
    {
        ProgressReporter { run_start: now, interval_start: now }
    }

    /// A progress report: the time since the last report (or the start), after
    /// which the interval clock restarts at `now`.
    pub fn sample(&mut self, entries: u64, now: u64) -> (r: ProgressSample)
        ensures
            r.entries == entries,
            r.elapsed_nanos == span(old(self).interval_start, now),
            final(self).interval_start == now,
            final(self).run_start == old(self).run_start,
    {
        let elapsed_nanos = if now >= self.interval_start {
            now - self.interval_start
        } else {
            0
        };
        self.interval_start = now;
        ProgressSample { entries, elapsed_nanos }
    }

    /// The final report: the time since the run began.
    pub fn summary(&self, entries: u64, now: u64) -> (r: ProgressSample)
        ensures
            r.entries == entries,
            r.elapsed_nanos == span(self.run_start, now),
    {
        let elapsed_nanos = if now >= self.run_start {
            now - self.run_start
        } else {
            0
        };
        ProgressSample { entries, elapsed_nanos }
    }
}

/// Whole and hundredths of seconds in `nanos`, hundredths rounded down.
pub fn seconds_hundredths(nanos: u64) -> (r: (u64, u64))
    ensures
        r.0 == nanos / 1_000_000_000,
        r.1 == (nanos % 1_000_000_000) / 10_000_000,
        r.1 < 100,
{
    (nanos / 1_000_000_000, (nanos % 1_000_000_000) / 10_000_000)
}

} // verus!
