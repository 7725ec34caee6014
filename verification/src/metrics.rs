//! The metrics accumulator and its read-only snapshot.
//!
//! `AppMetrics` is the single shared accumulator of a batch run. Worker
//! outcomes reach it only through the atomic `record` operation (the
//! orchestrator serializes those calls); after the last task settles it is
//! frozen into an immutable `Summary`.

use vstd::prelude::*;
use crate::outcome::Outcome;

verus! {

/// Running statistics of one batch, mutated once per completed work item.
pub struct AppMetrics {
    pub total_requests: usize,
    pub successful_requests: usize,
    pub failed_requests: usize,
    pub total_data_size: usize,
    pub processing_time_ms: u64,
}

impl AppMetrics {
    /// The accumulator's invariant: every recorded request is counted exactly
    /// once, as a success or as a failure.
    pub open spec fn wf(&self) -> bool {
        self.total_requests == self.successful_requests + self.failed_requests
    }

    pub fn new() -> (m: Self)
        ensures
            m.wf(),
            m.total_requests == 0,
            m.successful_requests == 0,
            m.failed_requests == 0,
            m.total_data_size == 0,
            m.processing_time_ms == 0,
    {
        AppMetrics {
            total_requests: 0,
            successful_requests: 0,
            failed_requests: 0,
            total_data_size: 0,
            processing_time_ms: 0,
        }
    }

    /// Count one completed request: the total always grows by one, exactly one
    /// of the success/failure counters grows by one, and on success alone
    /// `data_size` is added to the running data total — the data total sums
    /// the byte sizes of the successful requests only.
    pub fn record_request(&mut self, success: bool, data_size: usize)
        requires
            old(self).wf(),
            old(self).total_requests < usize::MAX,
            success ==> old(self).total_data_size + data_size <= usize::MAX,
        ensures
            final(self).wf(),
            final(self).total_requests == old(self).total_requests + 1,
            final(self).successful_requests == old(self).successful_requests + (if success { 1int } else { 0 }),
            final(self).failed_requests == old(self).failed_requests + (if success { 0int } else { 1 }),
            final(self).total_data_size == old(self).total_data_size + (if success { data_size as int } else { 0 }),
            final(self).processing_time_ms == old(self).processing_time_ms,
    {
        self.total_requests = self.total_requests + 1;
        if success {
            self.successful_requests = self.successful_requests + 1;
            self.total_data_size = self.total_data_size + data_size;
        } else {
            self.failed_requests = self.failed_requests + 1;
        }
    }

    /// Add elapsed time to the cumulative processing total; the total never
    /// decreases.
    pub fn record_processing_time(&mut self, duration_ms: u64)
        requires
            old(self).processing_time_ms + duration_ms <= u64::MAX,
        ensures
            final(self).processing_time_ms == old(self).processing_time_ms + duration_ms,
            final(self).total_requests == old(self).total_requests,
            final(self).successful_requests == old(self).successful_requests,
            final(self).failed_requests == old(self).failed_requests,
            final(self).total_data_size == old(self).total_data_size,
    {
        self.processing_time_ms = self.processing_time_ms + duration_ms;
    }

    /// Apply one outcome atomically: the total grows by one; a success bumps
    /// the success counter and adds its byte size to the data total, a failure
    /// bumps the failure counter; the outcome's elapsed time is added to the
    /// processing total.
    pub fn record(&mut self, outcome: &Outcome)
        requires
            old(self).wf(),
            old(self).total_requests < usize::MAX,
            old(self).total_data_size + outcome.spec_size() <= usize::MAX,
            old(self).processing_time_ms + outcome.spec_elapsed() <= u64::MAX,
        ensures
            final(self).wf(),
            final(self).total_requests == old(self).total_requests + 1,
            final(self).successful_requests == old(self).successful_requests
                + (if outcome.is_success() { 1int } else { 0 }),
            final(self).failed_requests == old(self).failed_requests
                + (if outcome.is_success() { 0int } else { 1 }),
            final(self).total_data_size == old(self).total_data_size + outcome.spec_size(),
            final(self).processing_time_ms == old(self).processing_time_ms + outcome.spec_elapsed(),
    {
        match outcome {
            Outcome::Success { byte_size, elapsed_ms } => {
                self.record_request(true, *byte_size);
                self.record_processing_time(*elapsed_ms);
            },
            Outcome::Failure { .. } => {
                self.record_request(false, 0);
            },
        }
    }

    /// The success rate as an exact fraction `(successful, total)`; the rate
    /// is defined as zero when the total is zero. Because the counters split
    /// the total, the fraction never exceeds one.
    pub fn success_rate(&self) -> (r: (usize, usize))
        requires
            self.wf(),
        ensures
            r.0 == self.successful_requests,
            r.1 == self.total_requests,
            r.0 <= r.1,
            r.1 == 0 ==> r.0 == 0,
    {
        (self.successful_requests, self.total_requests)
    }

    /// Freeze the accumulator into an immutable summary.
    pub fn snapshot(&self) -> (s: Summary)
        requires
            self.wf(),
        ensures
            s.wf(),
            s.total_requests == self.total_requests,
            s.successful_requests == self.successful_requests,
            s.failed_requests == self.failed_requests,
            s.total_data_size == self.total_data_size,
            s.processing_time_ms == self.processing_time_ms,
    {
        Summary {
            total_requests: self.total_requests,
            successful_requests: self.successful_requests,
            failed_requests: self.failed_requests,
            total_data_size: self.total_data_size,
            processing_time_ms: self.processing_time_ms,
        }
    }
}

impl Default for AppMetrics {
    /// An empty accumulator, as at the start of a batch.
    fn default() -> (m: Self)
        ensures
            m.wf(),
            m.total_requests == 0,
            m.successful_requests == 0,
            m.failed_requests == 0,
            m.total_data_size == 0,
            m.processing_time_ms == 0,
    {
        AppMetrics::new()
    }
}

/// An immutable snapshot of a finished batch's metrics.
pub struct Summary {
    pub total_requests: usize,
    pub successful_requests: usize,
    pub failed_requests: usize,
    pub total_data_size: usize,
    pub processing_time_ms: u64,
}

impl Summary {
    /// A summary counts every request exactly once, as a success or a failure.
    pub open spec fn wf(&self) -> bool {
        self.total_requests == self.successful_requests + self.failed_requests
    }

    /// The derived success rate as an exact fraction `(successful, total)`,
    /// defined as zero when the total is zero; never exceeds one.
    pub fn success_rate(&self) -> (r: (usize, usize))
        requires
            self.wf(),
        ensures
            r.0 == self.successful_requests,
            r.1 == self.total_requests,
            r.0 <= r.1,
            r.1 == 0 ==> r.0 == 0,
    {
        (self.successful_requests, self.total_requests)
    }
}

} // verus!
