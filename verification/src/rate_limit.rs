//! The bookkeeping of the local rate limiter: what a check answers and how
//! checks are counted. The token buckets themselves hold fractional tokens
//! and live outside the library; a check hands their verdict in.

use vstd::prelude::*;

verus! {

/// Result of a rate limit check.
#[derive(Debug, Clone)]
pub struct RateLimitResult {
    /// Whether the request is allowed.
    pub allowed: bool,
    /// Remaining tokens in the bucket.
    pub remaining_tokens: u32,
    /// Rate limit key.
    pub key: String,
}

/// Rate limiter statistics.
#[derive(Debug, Clone, Copy, PartialEq, Eq)]
pub struct RateLimiterStats {
    /// Total requests processed.
    pub request_count: u64,
    /// Total requests allowed.
    pub allowed_count: u64,
    /// Total requests denied.
    pub denied_count: u64,
    /// Number of active buckets.
    pub bucket_count: usize,
    /// Whether rate limiting is enabled.
    pub enabled: bool,
}

/// Counts of the checks made.
#[derive(Debug, Clone, Copy, PartialEq, Eq, Structural)]
pub struct RateLimitCounters {
    /// Total requests processed.
    pub request_count: u64,
    /// Total requests allowed.
    pub allowed_count: u64,
    /// Total requests denied.
    pub denied_count: u64,
}

impl RateLimitCounters {
    /// Every check was answered one way or the other.
    pub open spec fn wf(&self) -> bool {
        self.request_count == self.allowed_count + self.denied_count
    }

    /// No checks yet.
    pub fn new() -> (c: RateLimitCounters)
        ensures
            c.wf(),
            c == (RateLimitCounters { request_count: 0, allowed_count: 0, denied_count: 0 }),
    {
        RateLimitCounters { request_count: 0, allowed_count: 0, denied_count: 0 }
    }

    /// A check while rate limiting is disabled: always allowed, with the
    /// full bucket capacity remaining.
    pub fn check_disabled(&mut self, key: String, capacity: u32) -> (r: RateLimitResult)
        requires
            old(self).wf(),
            old(self).request_count < u64::MAX,
        ensures
            final(self).wf(),
            final(self).request_count == old(self).request_count + 1,
            final(self).allowed_count == old(self).allowed_count + 1,
            final(self).denied_count == old(self).denied_count,
            r.allowed,
            r.remaining_tokens == capacity,
            r.key == key,
    {
        self.request_count = self.request_count + 1;
        self.allowed_count = self.allowed_count + 1;
        RateLimitResult { allowed: true, remaining_tokens: capacity, key }
    }

    /// A check answered by the key's bucket: counted as allowed or denied
    /// as the bucket decided, with the tokens it has left.
    pub fn check_bucket(&mut self, key: String, allowed: bool, remaining_tokens: u32) -> (r: RateLimitResult)
        requires
            old(self).wf(),
            old(self).request_count < u64::MAX,
        ensures
            final(self).wf(),
            final(self).request_count == old(self).request_count + 1,
            allowed ==> final(self).allowed_count == old(self).allowed_count + 1
                && final(self).denied_count == old(self).denied_count,
            !allowed ==> final(self).denied_count == old(self).denied_count + 1
                && final(self).allowed_count == old(self).allowed_count,
            r.allowed == allowed,
            r.remaining_tokens == remaining_tokens,
            r.key == key,
    {
        self.request_count = self.request_count + 1;
        if allowed {
            self.allowed_count = self.allowed_count + 1;
        } else {
            self.denied_count = self.denied_count + 1;
        }
        RateLimitResult { allowed, remaining_tokens, key }
    }

    /// The statistics: the counts, the number of buckets, and whether rate
    /// limiting is enabled.
    pub fn stats(&self, bucket_count: usize, enabled: bool) -> (s: RateLimiterStats)
        ensures
            s == (RateLimiterStats {
                request_count: self.request_count,
                allowed_count: self.allowed_count,
                denied_count: self.denied_count,
                bucket_count,
                enabled,
            }),
    {
        RateLimiterStats {
            request_count: self.request_count,
            allowed_count: self.allowed_count,
            denied_count: self.denied_count,
            bucket_count,
            enabled,
        }
    }
}

} // verus!
