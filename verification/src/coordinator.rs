//! Service coordinator: health bookkeeping for the six microservices, with a
//! circuit breaker per service and status-change events.
//!
//! The coordinator is a state machine: each message it handles is a method
//! that updates the state and returns the event to broadcast, if any. The
//! actor runtime, the broadcast channel and the timer that sends health
//! checks live outside the library.

use vstd::prelude::*;
use crate::circuit::{CircuitBreaker, CircuitState, DEFAULT_FAILURE_THRESHOLD, DEFAULT_RECOVERY_TIMEOUT_MS};
use crate::services::{ServiceId, id_at, id_index};
use crate::text::{decimal, push_decimal};

verus! {

/// Default health check interval, in milliseconds.
pub const DEFAULT_HEALTH_CHECK_INTERVAL_MS: u64 = 30_000;

/// Current state of a service.
#[derive(Debug, Clone, Copy, PartialEq, Eq, Structural)]
pub enum ServiceState {
    /// Service is healthy and accepting requests
    Healthy,
    /// Service is experiencing issues but still responding
    Degraded,
    /// Service is not responding (circuit breaker open)
    Unhealthy,
    /// Service state is unknown (not yet checked)
    Unknown,
}

impl ServiceState {
    /// The lower-case name of the state.
    pub fn as_str(&self) -> (r: &'static str)
        ensures
            r@ == (match *self {
                ServiceState::Healthy => "healthy"@,
                ServiceState::Degraded => "degraded"@,
                ServiceState::Unhealthy => "unhealthy"@,
                ServiceState::Unknown => "unknown"@,
            }),
    {
        match self {
            ServiceState::Healthy => "healthy",
            ServiceState::Degraded => "degraded",
            ServiceState::Unhealthy => "unhealthy",
            ServiceState::Unknown => "unknown",
        }
    }
}

/// The service state that a circuit implies after a failure: an open circuit
/// means unhealthy, any other circuit means degraded.
pub open spec fn spec_state_from_circuit(c: CircuitBreaker) -> ServiceState {
    match c.state {
        CircuitState::Open => ServiceState::Unhealthy,
        _ => ServiceState::Degraded,
    }
}

/// Determine service state from circuit breaker state.
pub fn state_from_circuit(circuit: &CircuitBreaker) -> (s: ServiceState)
    ensures
        s == spec_state_from_circuit(*circuit),
{
    match circuit.state {
        CircuitState::Open => ServiceState::Unhealthy,
        CircuitState::Closed | CircuitState::HalfOpen => ServiceState::Degraded,
    }
}

/// Service health status.
#[derive(Debug, Clone)]
pub struct ServiceHealth {
    /// Service identifier
    pub service_id: ServiceId,
    /// Current service state
    pub state: ServiceState,
    /// Circuit breaker state
    pub circuit: CircuitBreaker,
    /// Endpoint URL
    pub endpoint: String,
    /// Last health check time
    pub last_check: Option<u64>,
    /// Response time of last successful check (milliseconds)
    pub response_time_ms: Option<u64>,
}

impl ServiceHealth {
    /// Create a new service health entry: state unknown, default circuit.
    pub fn new(service_id: ServiceId, endpoint: String) -> (h: ServiceHealth)
        ensures
            h.service_id == service_id,
            h.state == ServiceState::Unknown,
            h.circuit == CircuitBreaker::fresh(DEFAULT_FAILURE_THRESHOLD, DEFAULT_RECOVERY_TIMEOUT_MS),
            h.endpoint@ == endpoint@,
            h.last_check.is_none(),
            h.response_time_ms.is_none(),
    {
        ServiceHealth {
            service_id,
            state: ServiceState::Unknown,
            circuit: CircuitBreaker::default(),
            endpoint,
            last_check: None,
            response_time_ms: None,
        }
    }
}

/// A service status change event.
#[derive(Debug, Clone, Copy, PartialEq, Eq)]
pub struct ServiceStatusEvent {
    /// Service that changed
    pub service_id: ServiceId,
    /// Previous state
    pub previous_state: ServiceState,
    /// New state
    pub new_state: ServiceState,
    /// Timestamp of change
    pub timestamp: u64,
}

/// The event to broadcast for a transition: one exactly when the state changed.
pub open spec fn spec_status_event(id: ServiceId, prev: ServiceState, new: ServiceState, now: u64)
    -> Option<ServiceStatusEvent>
{
    if prev == new {
        None
    } else {
        Some(ServiceStatusEvent { service_id: id, previous_state: prev, new_state: new, timestamp: now })
    }
}

fn status_event(id: ServiceId, prev: ServiceState, new: ServiceState, now: u64) -> (e: Option<ServiceStatusEvent>)
    ensures
        e == spec_status_event(id, prev, new, now),
{
    if prev == new {
        None
    } else {
        Some(ServiceStatusEvent { service_id: id, previous_state: prev, new_state: new, timestamp: now })
    }
}

/// Report of a health check for a service.
#[derive(Debug, Clone, PartialEq, Eq)]
pub struct HealthCheckResult {
    /// Service that was checked
    pub service_id: ServiceId,
    /// Whether the check succeeded
    pub healthy: bool,
    /// Response time in milliseconds (if successful)
    pub response_time_ms: Option<u64>,
    /// Error message (if failed)
    pub error: Option<String>,
}

impl HealthCheckResult {
    /// Create a successful health check result.
    pub fn success(service_id: ServiceId, response_time_ms: u64) -> (r: HealthCheckResult)
        ensures
            r.service_id == service_id,
            r.healthy,
            r.response_time_ms == Some(response_time_ms),
            r.error.is_none(),
    {
        HealthCheckResult { service_id, healthy: true, response_time_ms: Some(response_time_ms), error: None }
    }

    /// Create a failed health check result.
    pub fn failure(service_id: ServiceId, error: String) -> (r: HealthCheckResult)
        ensures
            r.service_id == service_id,
            !r.healthy,
            r.response_time_ms.is_none(),
            r.error == Some(error),
    {
        HealthCheckResult { service_id, healthy: false, response_time_ms: None, error: Some(error) }
    }
}

/// Mark a service as available (e.g., after successful request).
#[derive(Debug, Clone, Copy, PartialEq, Eq)]
pub struct ServiceAvailable {
    /// Service that is available
    pub service_id: ServiceId,
}

impl ServiceAvailable {
    /// Create a new message.
    pub fn new(service_id: ServiceId) -> (m: ServiceAvailable)
        ensures
            m.service_id == service_id,
    {
        ServiceAvailable { service_id }
    }
}

/// Mark a service as unavailable (e.g., after failed request).
#[derive(Debug, Clone, PartialEq, Eq)]
pub struct ServiceUnavailable {
    /// Service that is unavailable
    pub service_id: ServiceId,
    /// Error message
    pub error: Option<String>,
}

impl ServiceUnavailable {
    /// Create a new message.
    pub fn new(service_id: ServiceId, error: Option<String>) -> (m: ServiceUnavailable)
        ensures
            m.service_id == service_id,
            m.error == error,
    {
        ServiceUnavailable { service_id, error }
    }
}

/// Whether the endpoint entries name each service at most once.
pub open spec fn distinct_endpoint_ids(e: Seq<(ServiceId, String)>) -> bool {
    forall|i: int, j: int| 0 <= i < j < e.len() ==> e[i].0 != e[j].0
}

/// Configuration for the service coordinator.
#[derive(Debug, Clone)]
pub struct ServiceCoordinatorConfig {
    /// Health check interval per service, in milliseconds
    pub health_check_interval_ms: u64,
    /// Circuit breaker failure threshold
    pub failure_threshold: u32,
    /// Circuit breaker recovery timeout, in milliseconds
    pub recovery_timeout_ms: u64,
    /// Service endpoints (service id and endpoint URL, each id at most once)
    pub endpoints: Vec<(ServiceId, String)>,
    /// Whether health checking is enabled
    pub enabled: bool,
}

/// `http://127.0.0.1:<port>`.
pub open spec fn loopback_endpoint(port: nat) -> Seq<char> {
    "http://127.0.0.1:"@ + decimal(port)
}

fn loopback_url(port: u16) -> (s: String)
    ensures
        s@ == loopback_endpoint(port as nat),
{
    let mut s = String::from_str("http://127.0.0.1:");
    push_decimal(&mut s, port as u64);
    s
}

impl ServiceCoordinatorConfig {
    /// Whether the endpoints name each service at most once.
    pub open spec fn wf(&self) -> bool {
        distinct_endpoint_ids(self.endpoints@)
    }

    /// The default configuration: 30 s interval, threshold 5, 60 s recovery,
    /// every service at `http://127.0.0.1:<default port>`, enabled.
    pub fn default() -> (c: ServiceCoordinatorConfig)
        ensures
            c.wf(),
            c.health_check_interval_ms == DEFAULT_HEALTH_CHECK_INTERVAL_MS,
            c.failure_threshold == DEFAULT_FAILURE_THRESHOLD,
            c.recovery_timeout_ms == DEFAULT_RECOVERY_TIMEOUT_MS,
            c.enabled,
            c.endpoints@.len() == 6,
            forall|i: int| 0 <= i < 6 ==> (#[trigger] c.endpoints@[i]).0 == id_at(i)
                && c.endpoints@[i].1@ == loopback_endpoint(50051 + i as nat),
    {
        let mut endpoints: Vec<(ServiceId, String)> = Vec::new();
        let all = ServiceId::all();
        let mut i: usize = 0;
        while i < 6
            invariant
                all@.len() == 6,
                forall|k: int| 0 <= k < 6 ==> all@[k] == id_at(k),
                i <= 6,
                endpoints@.len() == i,
                forall|k: int| 0 <= k < i ==> (#[trigger] endpoints@[k]).0 == id_at(k)
                    && endpoints@[k].1@ == loopback_endpoint(50051 + k as nat),
            decreases 6 - i,
        {
            let id = all[i];
            let url = loopback_url(id.default_port());
            endpoints.push((id, url));
            i = i + 1;
        }
        ServiceCoordinatorConfig {
            health_check_interval_ms: DEFAULT_HEALTH_CHECK_INTERVAL_MS,
            failure_threshold: DEFAULT_FAILURE_THRESHOLD,
            recovery_timeout_ms: DEFAULT_RECOVERY_TIMEOUT_MS,
            endpoints,
            enabled: true,
        }
    }

    /// Create a new configuration with defaults.
    pub fn new() -> (c: ServiceCoordinatorConfig)
        ensures
            c.wf(),
            c.health_check_interval_ms == DEFAULT_HEALTH_CHECK_INTERVAL_MS,
            c.failure_threshold == DEFAULT_FAILURE_THRESHOLD,
            c.recovery_timeout_ms == DEFAULT_RECOVERY_TIMEOUT_MS,
            c.enabled,
            c.endpoints@.len() == 6,
            forall|i: int| 0 <= i < 6 ==> (#[trigger] c.endpoints@[i]).0 == id_at(i)
                && c.endpoints@[i].1@ == loopback_endpoint(50051 + i as nat),
    {
        ServiceCoordinatorConfig::default()
    }

    /// Set health check interval.
    pub fn with_health_check_interval(self, interval_ms: u64) -> (c: ServiceCoordinatorConfig)
        ensures
            c == (ServiceCoordinatorConfig { health_check_interval_ms: interval_ms, ..self }),
    {
        let mut c = self;
        c.health_check_interval_ms = interval_ms;
        c
    }

    /// Set circuit breaker failure threshold.
    pub fn with_failure_threshold(self, threshold: u32) -> (c: ServiceCoordinatorConfig)
        ensures
            c == (ServiceCoordinatorConfig { failure_threshold: threshold, ..self }),
    {
        let mut c = self;
        c.failure_threshold = threshold;
        c
    }

    /// Set circuit breaker recovery timeout.
    pub fn with_recovery_timeout(self, timeout_ms: u64) -> (c: ServiceCoordinatorConfig)
        ensures
            c == (ServiceCoordinatorConfig { recovery_timeout_ms: timeout_ms, ..self }),
    {
        let mut c = self;
        c.recovery_timeout_ms = timeout_ms;
        c
    }

    /// Enable or disable health checking.
    pub fn with_enabled(self, enabled: bool) -> (c: ServiceCoordinatorConfig)
        ensures
            c == (ServiceCoordinatorConfig { enabled, ..self }),
    {
        let mut c = self;
        c.enabled = enabled;
        c
    }

    /// Set the endpoint for a specific service (replacing any earlier one).
    pub fn with_endpoint(self, service_id: ServiceId, endpoint: String) -> (c: ServiceCoordinatorConfig)
        requires
            self.wf(),
        ensures
            c.wf(),
            c.health_check_interval_ms == self.health_check_interval_ms,
            c.failure_threshold == self.failure_threshold,
            c.recovery_timeout_ms == self.recovery_timeout_ms,
            c.enabled == self.enabled,
            (exists|i: int| 0 <= i < self.endpoints@.len() && self.endpoints@[i].0 == service_id)
                ==> (forall|i: int| 0 <= i < self.endpoints@.len() && self.endpoints@[i].0 == service_id
                    ==> c.endpoints@ == self.endpoints@.update(i, (service_id, endpoint))),
            (forall|i: int| 0 <= i < self.endpoints@.len() ==> self.endpoints@[i].0 != service_id)
                ==> c.endpoints@ == self.endpoints@.push((service_id, endpoint)),
    {
        let mut c = self;
        let n = c.endpoints.len();
        let mut i: usize = 0;
        while i < n
            invariant
                n == c.endpoints@.len(),
                c == self,
                self.wf(),
                i <= n,
                forall|k: int| 0 <= k < i ==> c.endpoints@[k].0 != service_id,
            decreases n - i,
        {
            if c.endpoints[i].0 == service_id {
                c.endpoints.set(i, (service_id, endpoint));
                proof {
                    assert forall|a: int, b: int| 0 <= a < b < c.endpoints@.len()
                        implies c.endpoints@[a].0 != c.endpoints@[b].0 by {
                        assert(self.endpoints@[a].0 != self.endpoints@[b].0);
                    }
                }
                return c;
            }
            i = i + 1;
        }
        c.endpoints.push((service_id, endpoint));
        proof {
            assert forall|a: int, b: int| 0 <= a < b < c.endpoints@.len()
                implies c.endpoints@[a].0 != c.endpoints@[b].0 by {
                if b < n {
                    assert(self.endpoints@[a].0 != self.endpoints@[b].0);
                }
            }
        }
        c
    }

    /// The endpoint configured for a service, if any.
    pub fn endpoint_for(&self, service_id: ServiceId) -> (r: Option<&String>)
        requires
            self.wf(),
        ensures
            match r {
                Some(e) => exists|i: int| 0 <= i < self.endpoints@.len()
                    && self.endpoints@[i].0 == service_id && self.endpoints@[i].1 == *e,
                None => forall|i: int| 0 <= i < self.endpoints@.len() ==> self.endpoints@[i].0 != service_id,
            },
    {
        let n = self.endpoints.len();
        let mut i: usize = 0;
        while i < n
            invariant
                n == self.endpoints@.len(),
                i <= n,
                forall|k: int| 0 <= k < i ==> self.endpoints@[k].0 != service_id,
            decreases n - i,
        {
            if self.endpoints[i].0 == service_id {
                return Some(&self.endpoints[i].1);
            }
            i = i + 1;
        }
        None
    }
}

/// Status of every tracked service, as reported to callers.
#[derive(Debug, Clone, PartialEq, Eq)]
pub struct ServiceStatusResponse {
    /// Service state and circuit state per service
    pub services: Vec<(ServiceId, ServiceState, CircuitState)>,
    /// Total health checks performed
    pub health_check_count: u64,
    /// Whether health checking is enabled
    pub enabled: bool,
}

impl ServiceStatusResponse {
    /// The states reported for one service, if it is tracked.
    pub fn get(&self, service_id: ServiceId) -> (r: Option<(ServiceState, CircuitState)>)
        ensures
            match r {
                Some(p) => exists|i: int| 0 <= i < self.services@.len()
                    && self.services@[i].0 == service_id && self.services@[i].1 == p.0
                    && self.services@[i].2 == p.1,
                None => forall|i: int| 0 <= i < self.services@.len() ==> self.services@[i].0 != service_id,
            },
    {
        let n = self.services.len();
        let mut i: usize = 0;
        while i < n
            invariant
                n == self.services@.len(),
                i <= n,
                forall|k: int| 0 <= k < i ==> self.services@[k].0 != service_id,
            decreases n - i,
        {
            let entry = self.services[i];
            if entry.0 == service_id {
                return Some((entry.1, entry.2));
            }
            i = i + 1;
        }
        None
    }
}

/// Whether the tracked services name each service at most once.
pub open spec fn distinct_service_ids(s: Seq<ServiceHealth>) -> bool {
    forall|i: int, j: int| 0 <= i < j < s.len() ==> s[i].service_id != s[j].service_id
}

/// A service's health after a health check at `now`.
pub open spec fn health_after_check(h: ServiceHealth, healthy: bool, response_time_ms: Option<u64>, now: u64)
    -> ServiceHealth
{
    if healthy {
        ServiceHealth {
            last_check: Some(now),
            circuit: h.circuit.after_success(now),
            response_time_ms: response_time_ms,
            state: ServiceState::Healthy,
            ..h
        }
    } else {
        ServiceHealth {
            last_check: Some(now),
            circuit: h.circuit.after_failure(now),
            state: spec_state_from_circuit(h.circuit.after_failure(now)),
            ..h
        }
    }
}

/// A service's health after it was reported available at `now`.
pub open spec fn health_after_available(h: ServiceHealth, now: u64) -> ServiceHealth {
    ServiceHealth { circuit: h.circuit.after_success(now), state: ServiceState::Healthy, ..h }
}

/// A service's health after it was reported unavailable at `now`.
pub open spec fn health_after_unavailable(h: ServiceHealth, now: u64) -> ServiceHealth {
    ServiceHealth {
        circuit: h.circuit.after_failure(now),
        state: spec_state_from_circuit(h.circuit.after_failure(now)),
        ..h
    }
}

/// Service coordinator model.
#[derive(Debug, Clone)]
pub struct ServiceCoordinatorAgent {
    /// Configuration
    pub config: ServiceCoordinatorConfig,
    /// Health status per service (each service at most once)
    pub services: Vec<ServiceHealth>,
    /// Total health checks performed
    pub health_check_count: u64,
}

impl ServiceCoordinatorAgent {
    /// Whether the configuration and the tracked services name each service at most once.
    pub open spec fn wf(&self) -> bool {
        &&& self.config.wf()
        &&& distinct_service_ids(self.services@)
    }

    /// Whether every tracked circuit can record one more failure.
    pub open spec fn failures_countable(&self) -> bool {
        forall|i: int| 0 <= i < self.services@.len() ==> (#[trigger] self.services@[i]).circuit.failure_count < u32::MAX
    }

    /// Create a coordinator tracking every configured endpoint, each with a
    /// default circuit breaker.
    pub fn new(config: ServiceCoordinatorConfig) -> (a: ServiceCoordinatorAgent)
        requires
            config.wf(),
        ensures
            a.wf(),
            a.config == config,
            a.health_check_count == 0,
            a.services@.len() == config.endpoints@.len(),
            forall|i: int| 0 <= i < a.services@.len() ==> {
                &&& (#[trigger] a.services@[i]).service_id == config.endpoints@[i].0
                &&& a.services@[i].endpoint@ == config.endpoints@[i].1@
                &&& a.services@[i].state == ServiceState::Unknown
                &&& a.services@[i].circuit == CircuitBreaker::fresh(DEFAULT_FAILURE_THRESHOLD, DEFAULT_RECOVERY_TIMEOUT_MS)
            },
    {
        let services = Self::track_endpoints(&config, false);
        ServiceCoordinatorAgent { config, services, health_check_count: 0 }
    }

    /// Create a coordinator whose circuit breakers use the configured
    /// threshold and recovery timeout (the configuration applied at spawn).
    pub fn with_config(config: ServiceCoordinatorConfig) -> (a: ServiceCoordinatorAgent)
        requires
            config.wf(),
        ensures
            a.wf(),
            a.config == config,
            a.health_check_count == 0,
            a.services@.len() == config.endpoints@.len(),
            forall|i: int| 0 <= i < a.services@.len() ==> {
                &&& (#[trigger] a.services@[i]).service_id == config.endpoints@[i].0
                &&& a.services@[i].endpoint@ == config.endpoints@[i].1@
                &&& a.services@[i].state == ServiceState::Unknown
                &&& a.services@[i].circuit == CircuitBreaker::fresh(config.failure_threshold, config.recovery_timeout_ms)
            },
    {
        let services = Self::track_endpoints(&config, true);
        ServiceCoordinatorAgent { config, services, health_check_count: 0 }
    }

    fn track_endpoints(config: &ServiceCoordinatorConfig, apply: bool) -> (s: Vec<ServiceHealth>)
        requires
            config.wf(),
        ensures
            distinct_service_ids(s@),
            s@.len() == config.endpoints@.len(),
            forall|i: int| 0 <= i < s@.len() ==> {
                &&& (#[trigger] s@[i]).service_id == config.endpoints@[i].0
                &&& s@[i].endpoint@ == config.endpoints@[i].1@
                &&& s@[i].state == ServiceState::Unknown
                &&& s@[i].circuit == if apply {
                    CircuitBreaker::fresh(config.failure_threshold, config.recovery_timeout_ms)
                } else {
                    CircuitBreaker::fresh(DEFAULT_FAILURE_THRESHOLD, DEFAULT_RECOVERY_TIMEOUT_MS)
                }
            },
    {
        let mut services: Vec<ServiceHealth> = Vec::new();
        let n = config.endpoints.len();
        let mut i: usize = 0;
        while i < n
            invariant
                n == config.endpoints@.len(),
                config.wf(),
                i <= n,
                services@.len() == i,
                forall|k: int| 0 <= k < i ==> {
                    &&& (#[trigger] services@[k]).service_id == config.endpoints@[k].0
                    &&& services@[k].endpoint@ == config.endpoints@[k].1@
                    &&& services@[k].state == ServiceState::Unknown
                    &&& services@[k].circuit == if apply {
                        CircuitBreaker::fresh(config.failure_threshold, config.recovery_timeout_ms)
                    } else {
                        CircuitBreaker::fresh(DEFAULT_FAILURE_THRESHOLD, DEFAULT_RECOVERY_TIMEOUT_MS)
                    }
                },
            decreases n - i,
        {
            let id = config.endpoints[i].0;
            let endpoint = config.endpoints[i].1.clone();
            let mut health = ServiceHealth::new(id, endpoint);
            if apply {
                health.circuit.failure_threshold = config.failure_threshold;
                health.circuit.recovery_timeout_ms = config.recovery_timeout_ms;
            }
            services.push(health);
            i = i + 1;
        }
        services
    }

    fn position(&self, service_id: ServiceId) -> (r: Option<usize>)
        ensures
            match r {
                Some(i) => i < self.services@.len() && self.services@[i as int].service_id == service_id,
                None => forall|k: int| 0 <= k < self.services@.len() ==> self.services@[k].service_id != service_id,
            },
    {
        let n = self.services.len();
        let mut i: usize = 0;
        while i < n
            invariant
                n == self.services@.len(),
                i <= n,
                forall|k: int| 0 <= k < i ==> self.services@[k].service_id != service_id,
            decreases n - i,
        {
            if self.services[i].service_id == service_id {
                return Some(i);
            }
            i = i + 1;
        }
        None
    }

    /// Handle a health check report at `now`: count it, update the service's
    /// circuit and state, and return the status change to broadcast.
    pub fn handle_health_check(&mut self, result: &HealthCheckResult, now_ms: u64) -> (event: Option<ServiceStatusEvent>)
        requires
            old(self).wf(),
            old(self).failures_countable(),
            old(self).health_check_count < u64::MAX,
        ensures
            final(self).wf(),
            final(self).health_check_count == old(self).health_check_count + 1,
            final(self).config == old(self).config,
            forall|i: int| 0 <= i < old(self).services@.len() && old(self).services@[i].service_id == result.service_id
                ==> {
                    &&& final(self).services@ == old(self).services@.update(i,
                        health_after_check(old(self).services@[i], result.healthy, result.response_time_ms, now_ms))
                    &&& event == spec_status_event(result.service_id, old(self).services@[i].state,
                        health_after_check(old(self).services@[i], result.healthy, result.response_time_ms, now_ms).state,
                        now_ms)
                },
            (forall|i: int| 0 <= i < old(self).services@.len() ==> old(self).services@[i].service_id != result.service_id)
                ==> final(self).services@ == old(self).services@ && event.is_none(),
    {
        self.health_check_count = self.health_check_count + 1;
        match self.position(result.service_id) {
            None => None,
            Some(i) => {
                let ghost before = self.services@;
                let health = &mut self.services[i];
                let previous = health.state;
                health.last_check = Some(now_ms);
                if result.healthy {
                    health.circuit.record_success(now_ms);
                    health.response_time_ms = result.response_time_ms;
                    health.state = ServiceState::Healthy;
                } else {
                    health.circuit.record_failure(now_ms);
                    health.state = state_from_circuit(&health.circuit);
                }
                let new_state = health.state;
                proof {
                    assert(self.services@ == before.update(i as int,
                        health_after_check(before[i as int], result.healthy, result.response_time_ms, now_ms)));
                }
                status_event(result.service_id, previous, new_state, now_ms)
            },
        }
    }
}


impl ServiceCoordinatorAgent {
    /// Handle a report that a service is available: close its circuit, mark it healthy.
    pub fn handle_service_available(&mut self, msg: &ServiceAvailable, now_ms: u64) -> (event: Option<ServiceStatusEvent>)
        requires
            old(self).wf(),
        ensures
            final(self).wf(),
            final(self).health_check_count == old(self).health_check_count,
            final(self).config == old(self).config,
            forall|i: int| 0 <= i < old(self).services@.len() && old(self).services@[i].service_id == msg.service_id
                ==> {
                    &&& final(self).services@ == old(self).services@.update(i,
                        health_after_available(old(self).services@[i], now_ms))
                    &&& event == spec_status_event(msg.service_id, old(self).services@[i].state,
                        ServiceState::Healthy, now_ms)
                },
            (forall|i: int| 0 <= i < old(self).services@.len() ==> old(self).services@[i].service_id != msg.service_id)
                ==> final(self).services@ == old(self).services@ && event.is_none(),
    {
        match self.position(msg.service_id) {
            None => None,
            Some(i) => {
                let ghost before = self.services@;
                let health = &mut self.services[i];
                let previous = health.state;
                health.circuit.record_success(now_ms);
                health.state = ServiceState::Healthy;
                proof {
                    assert(self.services@ == before.update(i as int, health_after_available(before[i as int], now_ms)));
                }
                status_event(msg.service_id, previous, ServiceState::Healthy, now_ms)
            },
        }
    }

    /// Handle a report that a service is unavailable: count a failure on its
    /// circuit and derive its state from the circuit.
    pub fn handle_service_unavailable(&mut self, msg: &ServiceUnavailable, now_ms: u64) -> (event: Option<ServiceStatusEvent>)
        requires
            old(self).wf(),
            old(self).failures_countable(),
        ensures
            final(self).wf(),
            final(self).health_check_count == old(self).health_check_count,
            final(self).config == old(self).config,
            forall|i: int| 0 <= i < old(self).services@.len() && old(self).services@[i].service_id == msg.service_id
                ==> {
                    &&& final(self).services@ == old(self).services@.update(i,
                        health_after_unavailable(old(self).services@[i], now_ms))
                    &&& event == spec_status_event(msg.service_id, old(self).services@[i].state,
                        health_after_unavailable(old(self).services@[i], now_ms).state, now_ms)
                },
            (forall|i: int| 0 <= i < old(self).services@.len() ==> old(self).services@[i].service_id != msg.service_id)
                ==> final(self).services@ == old(self).services@ && event.is_none(),
    {
        match self.position(msg.service_id) {
            None => None,
            Some(i) => {
                let ghost before = self.services@;
                let health = &mut self.services[i];
                let previous = health.state;
                health.circuit.record_failure(now_ms);
                let new_state = state_from_circuit(&health.circuit);
                health.state = new_state;
                proof {
                    assert(self.services@ == before.update(i as int, health_after_unavailable(before[i as int], now_ms)));
                }
                status_event(msg.service_id, previous, new_state, now_ms)
            },
        }
    }

    /// The state and circuit state of every tracked service, the number of
    /// health checks handled, and whether checking is enabled.
    pub fn status(&self) -> (r: ServiceStatusResponse)
        ensures
            r.health_check_count == self.health_check_count,
            r.enabled == self.config.enabled,
            r.services@.len() == self.services@.len(),
            forall|i: int| 0 <= i < r.services@.len() ==> (#[trigger] r.services@[i]) == (
                self.services@[i].service_id, self.services@[i].state, self.services@[i].circuit.state),
    {
        let mut services: Vec<(ServiceId, ServiceState, CircuitState)> = Vec::new();
        let n = self.services.len();
        let mut i: usize = 0;
        while i < n
            invariant
                n == self.services@.len(),
                i <= n,
                services@.len() == i,
                forall|k: int| 0 <= k < i ==> (#[trigger] services@[k]) == (
                    self.services@[k].service_id, self.services@[k].state, self.services@[k].circuit.state),
            decreases n - i,
        {
            let h = &self.services[i];
            services.push((h.service_id, h.state, h.circuit.state));
            i = i + 1;
        }
        ServiceStatusResponse {
            services,
            health_check_count: self.health_check_count,
            enabled: self.config.enabled,
        }
    }

    /// Replace the configuration: every circuit takes the new threshold and
    /// recovery timeout, and services with a new endpoint start being tracked.
    pub fn update_config(&mut self, config: ServiceCoordinatorConfig)
        requires
            old(self).wf(),
            config.wf(),
        ensures
            final(self).wf(),
            final(self).config == config,
            final(self).health_check_count == old(self).health_check_count,
            final(self).services@.len() >= old(self).services@.len(),
            forall|i: int| 0 <= i < old(self).services@.len() ==> (#[trigger] final(self).services@[i]) == retuned(
                old(self).services@[i], config.failure_threshold, config.recovery_timeout_ms),
            forall|i: int| 0 <= i < old(self).services@.len() ==> circuit_set_to(
                old(self).services@[i], #[trigger] final(self).services@[i], config.failure_threshold, config.recovery_timeout_ms),
            forall|i: int| old(self).services@.len() <= i < final(self).services@.len()
                ==> newly_tracked(#[trigger] final(self).services@[i], config.endpoints@),
            forall|k: int| 0 <= k < config.endpoints@.len() ==> has_service(final(self).services@, (#[trigger] config.endpoints@[k]).0),
    {
        retune_circuits(&mut self.services, config.failure_threshold, config.recovery_timeout_ms);
        track_missing(&mut self.services, &config.endpoints);
        self.config = config;
    }
}

impl ServiceCoordinatorAgent {
    /// Whether a service is tracked and currently healthy.
    pub fn is_healthy(&self, service_id: ServiceId) -> (r: bool)
        requires
            self.wf(),
        ensures
            r == exists|i: int| 0 <= i < self.services@.len() && self.services@[i].service_id == service_id
                && self.services@[i].state == ServiceState::Healthy,
    {
        match self.position(service_id) {
            Some(i) => self.services[i].state == ServiceState::Healthy,
            None => false,
        }
    }

    /// Whether a service is tracked and its circuit lets a request through
    /// at `now` (which may move an open circuit to half-open).
    pub fn should_allow_request(&mut self, service_id: ServiceId, now_ms: u64) -> (r: bool)
        requires
            old(self).wf(),
        ensures
            final(self).wf(),
            final(self).config == old(self).config,
            final(self).health_check_count == old(self).health_check_count,
            forall|i: int| 0 <= i < old(self).services@.len() && old(self).services@[i].service_id == service_id
                ==> {
                    &&& r == old(self).services@[i].circuit.allows(now_ms)
                    &&& final(self).services@ == old(self).services@.update(i,
                        ServiceHealth { circuit: old(self).services@[i].circuit.after_probe(now_ms), ..old(self).services@[i] })
                },
            (forall|i: int| 0 <= i < old(self).services@.len() ==> old(self).services@[i].service_id != service_id)
                ==> !r && final(self).services@ == old(self).services@,
    {
        match self.position(service_id) {
            Some(i) => {
                let ghost before = self.services@;
                let health = &mut self.services[i];
                let allowed = health.circuit.should_allow(now_ms);
                proof {
                    assert(self.services@ == before.update(i as int,
                        ServiceHealth { circuit: before[i as int].circuit.after_probe(now_ms), ..before[i as int] }));
                }
                allowed
            },
            None => false,
        }
    }
}

/// Law: a configuration update applies the new failure threshold and
/// recovery timeout to the circuit of every tracked service and changes
/// nothing else about it.
pub proof fn law_update_config_retunes(h: ServiceHealth, threshold: u32, timeout_ms: u64)
    ensures
        retuned(h, threshold, timeout_ms).circuit.failure_threshold == threshold,
        retuned(h, threshold, timeout_ms).circuit.recovery_timeout_ms == timeout_ms,
        retuned(h, threshold, timeout_ms).circuit.state == h.circuit.state,
        retuned(h, threshold, timeout_ms).circuit.failure_count == h.circuit.failure_count,
        retuned(h, threshold, timeout_ms).circuit.opened_at == h.circuit.opened_at,
        retuned(h, threshold, timeout_ms).service_id == h.service_id,
        retuned(h, threshold, timeout_ms).state == h.state,
        retuned(h, threshold, timeout_ms).endpoint == h.endpoint,
{
}

/// Law: a successful health check makes the service healthy, resets its
/// circuit, and produces an event exactly when the service was not healthy
/// before.
pub proof fn law_success_heals(h: ServiceHealth, rt: Option<u64>, now: u64)
    ensures
        health_after_check(h, true, rt, now).state == ServiceState::Healthy,
        health_after_check(h, true, rt, now).circuit.state == CircuitState::Closed,
        health_after_check(h, true, rt, now).circuit.failure_count == 0,
        spec_status_event(h.service_id, h.state, health_after_check(h, true, rt, now).state, now).is_some()
            <==> h.state != ServiceState::Healthy,
{
}

/// Law: a failed health check that brings the failure count to the circuit's
/// threshold opens the circuit and makes the service unhealthy; a failure
/// below the threshold leaves a closed circuit closed and the service degraded.
pub proof fn law_failure_degrades(h: ServiceHealth, now: u64)
    requires
        h.circuit.failure_count < u32::MAX,
    ensures
        h.circuit.failure_count + 1 >= h.circuit.failure_threshold
            ==> health_after_check(h, false, None, now).state == ServiceState::Unhealthy
                && health_after_check(h, false, None, now).circuit.state == CircuitState::Open,
        h.circuit.failure_count + 1 < h.circuit.failure_threshold && h.circuit.state == CircuitState::Closed
            ==> health_after_check(h, false, None, now).state == ServiceState::Degraded,
        health_after_check(h, false, None, now).circuit.failure_count == h.circuit.failure_count + 1,
{
}

/// Law: reporting a service available and a successful health check agree on
/// the resulting state and circuit.
pub proof fn law_available_matches_success(h: ServiceHealth, rt: Option<u64>, now: u64)
    ensures
        health_after_available(h, now).state == health_after_check(h, true, rt, now).state,
        health_after_available(h, now).circuit == health_after_check(h, true, rt, now).circuit,
{
}

/// Law: an event is produced exactly when the state changes, and it carries
/// the service, both states and the time.
pub proof fn law_events_track_changes(id: ServiceId, prev: ServiceState, new: ServiceState, now: u64)
    ensures
        spec_status_event(id, prev, new, now).is_some() <==> prev != new,
        spec_status_event(id, prev, new, now) matches Some(e) ==> e.service_id == id
            && e.previous_state == prev && e.new_state == new && e.timestamp == now,
{
}

/// Whether `after` is `before` with its circuit's failure threshold and
/// recovery timeout set to the given values, and nothing else changed: the
/// circuit's state, failure count and times, and the service's id, state,
/// endpoint and check results stay.
pub open spec fn circuit_set_to(before: ServiceHealth, after: ServiceHealth, threshold: u32, timeout_ms: u64) -> bool {
    &&& after.circuit.failure_threshold == threshold
    &&& after.circuit.recovery_timeout_ms == timeout_ms
    &&& after.circuit.state == before.circuit.state
    &&& after.circuit.failure_count == before.circuit.failure_count
    &&& after.circuit.opened_at == before.circuit.opened_at
    &&& after.circuit.last_success == before.circuit.last_success
    &&& after.circuit.last_failure == before.circuit.last_failure
    &&& after.service_id == before.service_id
    &&& after.state == before.state
    &&& after.endpoint == before.endpoint
    &&& after.last_check == before.last_check
    &&& after.response_time_ms == before.response_time_ms
}

/// A service's health with its circuit retuned to a threshold and timeout.
pub open spec fn retuned(h: ServiceHealth, threshold: u32, timeout_ms: u64) -> ServiceHealth {
    ServiceHealth {
        circuit: CircuitBreaker { failure_threshold: threshold, recovery_timeout_ms: timeout_ms, ..h.circuit },
        ..h
    }
}

fn retune_circuits(services: &mut Vec<ServiceHealth>, threshold: u32, timeout_ms: u64)
    requires
        distinct_service_ids(old(services)@),
    ensures
        distinct_service_ids(final(services)@),
        final(services)@.len() == old(services)@.len(),
        forall|k: int| 0 <= k < old(services)@.len() ==> (#[trigger] final(services)@[k]) == retuned(old(services)@[k], threshold, timeout_ms),
        forall|k: int| 0 <= k < old(services)@.len() ==> circuit_set_to(old(services)@[k], #[trigger] final(services)@[k], threshold, timeout_ms),
{
    let ghost before = services@;
    let n = services.len();
    let mut i: usize = 0;
    while i < n
        invariant
            n == services@.len(),
            n == before.len(),
            i <= n,
            forall|k: int| 0 <= k < i ==> (#[trigger] services@[k]) == retuned(before[k], threshold, timeout_ms),
            forall|k: int| i <= k < n ==> (#[trigger] services@[k]) == before[k],
        decreases n - i,
    {
        let health = &mut services[i];
        health.circuit.failure_threshold = threshold;
        health.circuit.recovery_timeout_ms = timeout_ms;
        i = i + 1;
    }
    assert forall|a: int, b: int| 0 <= a < b < services@.len()
        implies services@[a].service_id != services@[b].service_id by {
        assert(services@[a] == retuned(before[a], threshold, timeout_ms));
        assert(services@[b] == retuned(before[b], threshold, timeout_ms));
    }
}

fn find_service(services: &Vec<ServiceHealth>, id: ServiceId) -> (r: Option<usize>)
    ensures
        match r {
            Some(i) => i < services@.len() && services@[i as int].service_id == id,
            None => forall|k: int| 0 <= k < services@.len() ==> services@[k].service_id != id,
        },
{
    let n = services.len();
    let mut i: usize = 0;
    while i < n
        invariant
            n == services@.len(),
            i <= n,
            forall|k: int| 0 <= k < i ==> services@[k].service_id != id,
        decreases n - i,
    {
        if services[i].service_id == id {
            return Some(i);
        }
        i = i + 1;
    }
    None
}

/// Whether a service is tracked.
pub open spec fn has_service(s: Seq<ServiceHealth>, id: ServiceId) -> bool {
    exists|i: int| 0 <= i < s.len() && s[i].service_id == id
}

/// Whether an endpoint list holds this service at this URL.
pub open spec fn endpoint_listed(e: Seq<(ServiceId, String)>, id: ServiceId, url: Seq<char>) -> bool {
    exists|k: int| 0 <= k < e.len() && e[k].0 == id && e[k].1@ == url
}

/// A service entry just started from an endpoint of the list.
pub open spec fn newly_tracked(h: ServiceHealth, e: Seq<(ServiceId, String)>) -> bool {
    &&& h.state == ServiceState::Unknown
    &&& h.circuit == CircuitBreaker::fresh(DEFAULT_FAILURE_THRESHOLD, DEFAULT_RECOVERY_TIMEOUT_MS)
    &&& endpoint_listed(e, h.service_id, h.endpoint@)
}

proof fn lemma_has_service_push(s: Seq<ServiceHealth>, h: ServiceHealth, id: ServiceId)
    requires
        has_service(s, id),
    ensures
        has_service(s.push(h), id),
{
    let i = choose|i: int| 0 <= i < s.len() && s[i].service_id == id;
    assert(s.push(h)[i] == s[i]);
}

fn track_missing(services: &mut Vec<ServiceHealth>, endpoints: &Vec<(ServiceId, String)>)
    requires
        distinct_service_ids(old(services)@),
    ensures
        distinct_service_ids(final(services)@),
        final(services)@.len() >= old(services)@.len(),
        forall|k: int| 0 <= k < old(services)@.len() ==> (#[trigger] final(services)@[k]) == old(services)@[k],
        forall|i: int| old(services)@.len() <= i < final(services)@.len() ==> newly_tracked(#[trigger] final(services)@[i], endpoints@),
        forall|k: int| 0 <= k < endpoints@.len() ==> has_service(final(services)@, (#[trigger] endpoints@[k]).0),
{
    let ghost before = services@;
    let n = services.len();
    let m = endpoints.len();
    let mut j: usize = 0;
    while j < m
        invariant
            m == endpoints@.len(),
            n == before.len(),
            j <= m,
            services@.len() >= n,
            distinct_service_ids(services@),
            forall|k: int| 0 <= k < n ==> (#[trigger] services@[k]) == before[k],
            forall|k: int| n <= k < services@.len() ==> newly_tracked(#[trigger] services@[k], endpoints@),
            forall|e: int| 0 <= e < j ==> has_service(services@, (#[trigger] endpoints@[e]).0),
        decreases m - j,
    {
        let id = endpoints[j].0;
        let ghost prior = services@;
        match find_service(services, id) {
            Some(p) => {
                assert(services@[p as int].service_id == endpoints@[j as int].0);
            },
            None => {
                let endpoint = endpoints[j].1.clone();
                let health = ServiceHealth::new(id, endpoint);
                services.push(health);
                proof {
                    let last = prior.len() as int;
                    assert(services@ == prior.push(health));
                    assert(services@[last].service_id == id);
                    assert forall|a: int, b: int| 0 <= a < b < services@.len()
                        implies services@[a].service_id != services@[b].service_id by {
                        if b < prior.len() {
                            assert(prior[a].service_id != prior[b].service_id);
                        } else {
                            assert(services@[a] == prior[a]);
                        }
                    }
                    assert(endpoints@[j as int].0 == health.service_id && endpoints@[j as int].1@ == health.endpoint@);
                    assert(endpoint_listed(endpoints@, health.service_id, health.endpoint@));
                    assert forall|k: int| n <= k < services@.len() implies newly_tracked(#[trigger] services@[k], endpoints@) by {
                        if k < last {
                            assert(services@[k] == prior[k]);
                        }
                    }
                    assert forall|e: int| 0 <= e < j implies has_service(services@, (#[trigger] endpoints@[e]).0) by {
                        lemma_has_service_push(prior, health, endpoints@[e].0);
                    }
                }
            },
        }
        assert(has_service(services@, endpoints@[j as int].0));
        j = j + 1;
    }
}

} // verus!
