//! Counters for refresh flow outcomes.

use vstd::prelude::*;

verus! {

/// Counters for refresh attempts. Counts wrap on overflow.
#[derive(Debug)]
pub struct RefreshMetrics {
    attempts: u64,
    success: u64,
    failure: u64,
}

impl RefreshMetrics {
    /// Total refresh attempts recorded.
    pub closed spec fn spec_attempts(&self) -> u64 {
        self.attempts
    }

    /// Successful refresh calls recorded (including cache reuses).
    pub closed spec fn spec_successes(&self) -> u64 {
        self.success
    }

    /// Failed refresh calls recorded.
    pub closed spec fn spec_failures(&self) -> u64 {
        self.failure
    }

    /// Creates zeroed counters.
    pub fn new() -> (r: Self)
        ensures
            r.spec_attempts() == 0,
            r.spec_successes() == 0,
            r.spec_failures() == 0,
    {
        RefreshMetrics { attempts: 0, success: 0, failure: 0 }
    }

    /// Returns the total number of refresh attempts.
    pub fn attempts(&self) -> (r: u64)
        ensures
            r == self.spec_attempts(),
    {
        self.attempts
    }

    /// Returns the number of successful refresh calls (including cache reuses).
    pub fn successes(&self) -> (r: u64)
        ensures
            r == self.spec_successes(),
    {
        self.success
    }

    /// Returns the number of failed refresh calls.
    pub fn failures(&self) -> (r: u64)
        ensures
            r == self.spec_failures(),
    {
        self.failure
    }

    /// Counts one attempt.
    pub fn record_attempt(&mut self)
        ensures
            final(self).spec_attempts() == (if old(self).spec_attempts() == u64::MAX {
                0u64
            } else {
                (old(self).spec_attempts() + 1) as u64
            }),
            final(self).spec_successes() == old(self).spec_successes(),
            final(self).spec_failures() == old(self).spec_failures(),
    {
        self.attempts = self.attempts.wrapping_add(1);
    }

    /// Counts one success.
    pub fn record_success(&mut self)
        ensures
            final(self).spec_successes() == (if old(self).spec_successes() == u64::MAX {
                0u64
            } else {
                (old(self).spec_successes() + 1) as u64
            }),
            final(self).spec_attempts() == old(self).spec_attempts(),
            final(self).spec_failures() == old(self).spec_failures(),
    {
        self.success = self.success.wrapping_add(1);
    }

    /// Counts one failure.
    pub fn record_failure(&mut self)
        ensures
            final(self).spec_failures() == (if old(self).spec_failures() == u64::MAX {
                0u64
            } else {
                (old(self).spec_failures() + 1) as u64
            }),
            final(self).spec_attempts() == old(self).spec_attempts(),
            final(self).spec_successes() == old(self).spec_successes(),
    {
        self.failure = self.failure.wrapping_add(1);
    }
}

impl Default for RefreshMetrics {
    /// Zeroed counters.
    fn default() -> (r: Self)
        ensures
            r.spec_attempts() == 0,
            r.spec_successes() == 0,
            r.spec_failures() == 0,
    {
        RefreshMetrics::new()
    }
}

} // verus!
