//! Circuit breaker for a single service.
//!
//! Time is measured in milliseconds on a monotonic clock chosen by the
//! caller; every operation that looks at the clock takes the current reading
//! as `now_ms`.

use vstd::prelude::*;

verus! {

/// Default number of consecutive failures before the circuit opens.
pub const DEFAULT_FAILURE_THRESHOLD: u32 = 5;

/// Default time to wait before probing an open circuit, in milliseconds.
pub const DEFAULT_RECOVERY_TIMEOUT_MS: u64 = 60_000;

/// Circuit breaker state.
#[derive(Debug, Clone, Copy, PartialEq, Eq, Structural)]
pub enum CircuitState {
    /// Circuit is closed - requests flow normally
    Closed,
    /// Circuit is open - requests are blocked
    Open,
    /// Circuit is half-open - allowing test requests
    HalfOpen,
}

impl CircuitState {
    /// The lower-case name of the state (`closed`, `open`, `half-open`).
    pub fn as_str(&self) -> (r: &'static str)
        ensures
            r@ == (match *self {
                CircuitState::Closed => "closed"@,
                CircuitState::Open => "open"@,
                CircuitState::HalfOpen => "half-open"@,
            }),
    {
        match self {
            CircuitState::Closed => "closed",
            CircuitState::Open => "open",
            CircuitState::HalfOpen => "half-open",
        }
    }
}

/// Circuit breaker for a single service.
#[derive(Debug, Clone, PartialEq, Eq)]
pub struct CircuitBreaker {
    /// Current state of the circuit
    pub state: CircuitState,
    /// Number of consecutive failures
    pub failure_count: u32,
    /// Failure threshold before opening
    pub failure_threshold: u32,
    /// Time when circuit was opened
    pub opened_at: Option<u64>,
    /// Time to wait before attempting recovery, in milliseconds
    pub recovery_timeout_ms: u64,
    /// Last successful request time
    pub last_success: Option<u64>,
    /// Last failure time
    pub last_failure: Option<u64>,
}

/// Time elapsed from `since` to `now`, zero when the reading goes backwards.
pub open spec fn elapsed(since: u64, now: u64) -> nat {
    if now >= since {
        (now - since) as nat
    } else {
        0
    }
}

impl CircuitBreaker {
    /// A closed circuit with no failures recorded.
    pub open spec fn fresh(threshold: u32, timeout_ms: u64) -> CircuitBreaker {
        CircuitBreaker {
            state: CircuitState::Closed,
            failure_count: 0,
            failure_threshold: threshold,
            opened_at: None,
            recovery_timeout_ms: timeout_ms,
            last_success: None,
            last_failure: None,
        }
    }

    /// The breaker after a successful request at `now`.
    pub open spec fn after_success(self, now: u64) -> CircuitBreaker {
        CircuitBreaker {
            failure_count: 0,
            last_success: Some(now),
            state: CircuitState::Closed,
            opened_at: None,
            ..self
        }
    }

    /// The breaker after a failed request at `now`: one more failure, and the
    /// circuit opens (stamped `now`) once the count reaches the threshold.
    pub open spec fn after_failure(self, now: u64) -> CircuitBreaker
        recommends
            self.failure_count < u32::MAX,
    {
        let count = (self.failure_count + 1) as u32;
        if count >= self.failure_threshold {
            CircuitBreaker {
                failure_count: count,
                last_failure: Some(now),
                state: CircuitState::Open,
                opened_at: Some(now),
                ..self
            }
        } else {
            CircuitBreaker { failure_count: count, last_failure: Some(now), ..self }
        }
    }

    /// Whether a request is let through at `now`.
    pub open spec fn allows(self, now: u64) -> bool {
        match self.state {
            CircuitState::Open => match self.opened_at {
                Some(t) => elapsed(t, now) >= self.recovery_timeout_ms,
                None => true,
            },
            _ => true,
        }
    }

    /// The breaker after asking for permission at `now`: an open circuit whose
    /// recovery timeout has passed (or that has no opening time) goes half-open.
    pub open spec fn after_probe(self, now: u64) -> CircuitBreaker {
        if self.state == CircuitState::Open && self.allows(now) {
            CircuitBreaker { state: CircuitState::HalfOpen, ..self }
        } else {
            self
        }
    }

    /// Create a new circuit breaker with the given threshold and timeout.
    pub fn new(failure_threshold: u32, recovery_timeout_ms: u64) -> (cb: CircuitBreaker)
        ensures
            cb == CircuitBreaker::fresh(failure_threshold, recovery_timeout_ms),
    {
        CircuitBreaker {
            state: CircuitState::Closed,
            failure_count: 0,
            failure_threshold,
            opened_at: None,
            recovery_timeout_ms,
            last_success: None,
            last_failure: None,
        }
    }

    /// A breaker with the default threshold (5) and recovery timeout (60 s).
    pub fn default() -> (cb: CircuitBreaker)
        ensures
            cb == CircuitBreaker::fresh(DEFAULT_FAILURE_THRESHOLD, DEFAULT_RECOVERY_TIMEOUT_MS),
    {
        CircuitBreaker::new(DEFAULT_FAILURE_THRESHOLD, DEFAULT_RECOVERY_TIMEOUT_MS)
    }

    /// Record a successful request.
    pub fn record_success(&mut self, now_ms: u64)
        ensures
            *final(self) == old(self).after_success(now_ms),
    {
        self.failure_count = 0;
        self.last_success = Some(now_ms);
        self.state = CircuitState::Closed;
        self.opened_at = None;
    }

    /// Record a failed request.
    pub fn record_failure(&mut self, now_ms: u64)
        requires
            old(self).failure_count < u32::MAX,
        ensures
            *final(self) == old(self).after_failure(now_ms),
    {
        self.failure_count = self.failure_count + 1;
        self.last_failure = Some(now_ms);
        if self.failure_count >= self.failure_threshold {
            self.state = CircuitState::Open;
            self.opened_at = Some(now_ms);
        }
    }

    /// Check if the circuit should allow a request.
    pub fn should_allow(&mut self, now_ms: u64) -> (allowed: bool)
        ensures
            allowed == old(self).allows(now_ms),
            *final(self) == old(self).after_probe(now_ms),
    {
        match self.state {
            CircuitState::Open => {
                match self.opened_at {
                    Some(opened_at) => {
                        let waited: u64 = if now_ms >= opened_at { now_ms - opened_at } else { 0 };
                        if waited >= self.recovery_timeout_ms {
                            self.state = CircuitState::HalfOpen;
                            true
                        } else {
                            false
                        }
                    },
                    None => {
                        self.state = CircuitState::HalfOpen;
                        true
                    },
                }
            },
            CircuitState::Closed | CircuitState::HalfOpen => true,
        }
    }

    /// Get the current state of the circuit breaker.
    pub fn state(&self) -> (s: CircuitState)
        ensures
            s == self.state,
    {
        self.state
    }
}

/// `k` consecutive failures starting at time `now` (all stamped `now`).
pub open spec fn failures(cb: CircuitBreaker, k: nat, now: u64) -> CircuitBreaker
    decreases k,
{
    if k == 0 {
        cb
    } else {
        failures(cb, (k - 1) as nat, now).after_failure(now)
    }
}

/// Law: starting from a closed breaker with no failures, fewer than
/// `threshold` consecutive failures leave the circuit closed, and exactly
/// `threshold` failures open it.
pub proof fn law_opens_at_threshold(threshold: u32, timeout_ms: u64, k: nat, now: u64)
    requires
        k <= threshold,
    ensures
        failures(CircuitBreaker::fresh(threshold, timeout_ms), k, now).failure_count == k,
        failures(CircuitBreaker::fresh(threshold, timeout_ms), k, now).failure_threshold == threshold,
        k < threshold ==> failures(CircuitBreaker::fresh(threshold, timeout_ms), k, now).state
            == CircuitState::Closed,
        k == threshold && k > 0 ==> failures(CircuitBreaker::fresh(threshold, timeout_ms), k, now).state
            == CircuitState::Open,
    decreases k,
{
    if k > 0 {
        law_opens_at_threshold(threshold, timeout_ms, (k - 1) as nat, now);
        let prev = failures(CircuitBreaker::fresh(threshold, timeout_ms), (k - 1) as nat, now);
        assert(failures(CircuitBreaker::fresh(threshold, timeout_ms), k, now) == prev.after_failure(now));
        assert((prev.failure_count + 1) as u32 == k);
    }
}

/// Law: a success closes the circuit and forgets all failures, whatever the
/// state before, and the circuit then lets requests through.
pub proof fn law_success_resets(cb: CircuitBreaker, now: u64, later: u64)
    ensures
        cb.after_success(now).state == CircuitState::Closed,
        cb.after_success(now).failure_count == 0,
        cb.after_success(now).allows(later),
{
}

/// Law: an open circuit blocks requests until its recovery timeout has
/// passed, and from then on lets a probe through and goes half-open.
pub proof fn law_recovery_after_timeout(cb: CircuitBreaker, opened: u64, now: u64)
    requires
        cb.state == CircuitState::Open,
        cb.opened_at == Some(opened),
    ensures
        opened <= now < opened + cb.recovery_timeout_ms ==> !cb.allows(now) && cb.after_probe(now) == cb,
        now >= opened + cb.recovery_timeout_ms ==> cb.allows(now) && cb.after_probe(now).state
            == CircuitState::HalfOpen,
{
}

/// Law: asking for permission never changes the failure count or the
/// configuration, and only ever moves an open circuit to half-open.
pub proof fn law_probe_is_conservative(cb: CircuitBreaker, now: u64)
    ensures
        cb.after_probe(now).failure_count == cb.failure_count,
        cb.after_probe(now).failure_threshold == cb.failure_threshold,
        cb.after_probe(now).recovery_timeout_ms == cb.recovery_timeout_ms,
        cb.after_probe(now).state != cb.state ==> cb.state == CircuitState::Open
            && cb.after_probe(now).state == CircuitState::HalfOpen,
{
}

} // verus!
