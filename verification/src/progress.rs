use vstd::prelude::*;

verus! {

/// Seconds between two progress reports.
pub const REPORT_INTERVAL_SECS: u64 = 60;

/// Counts units of work since the last progress report.
#[derive(Clone, Copy, Debug)]
pub struct Progress {
    count: usize,
}

impl Progress {
    /// Units recorded since the last report.
    pub closed spec fn pending(&self) -> nat {
        self.count as nat
    }

    pub fn new() -> (progress: Progress)
        ensures
            progress.pending() == 0,
    {
        Progress { count: 0 }
    }

    /// Units recorded since the last report.
    pub fn count(&self) -> (count: usize)
        ensures
            count == self.pending(),
    {
        self.count
    }

    /// Records one more unit. The count stops at the largest `usize`.
    pub fn record(&mut self)
        ensures
            final(self).pending() == if old(self).pending() < usize::MAX {
                old(self).pending() + 1
            } else {
                old(self).pending()
            },
    {
        if self.count < usize::MAX {
            self.count = self.count + 1;
        }
    }

    /// Once a report interval has passed since the last report, gives the
    /// count to report and starts anew; before that, gives nothing and keeps
    /// counting.
    pub fn report(&mut self, elapsed_secs: u64) -> (due: Option<usize>)
        ensures
            elapsed_secs >= REPORT_INTERVAL_SECS ==> due == Some(old(self).pending() as usize)
                && final(self).pending() == 0,
            elapsed_secs < REPORT_INTERVAL_SECS ==> due is None && final(self).pending() == old(
                self,
            ).pending(),
    {
        if elapsed_secs >= REPORT_INTERVAL_SECS {
            let count = self.count;
            self.count = 0;
            Some(count)
        } else {
            None
        }
    }
}

} // verus!
