//! Configuration of the embedded services runtime, which runs every
//! service inside one process on sequential ports.

use vstd::prelude::*;
use crate::services::{ServiceType, type_offset, type_at, service_type_name};
use crate::registry::ServicesConfig;
use crate::text::{decimal, push_decimal};

verus! {

/// Base port of the embedded services.
pub const DEFAULT_BASE_PORT: u16 = 50051;

/// Configuration for embedded services.
#[derive(Debug, Clone)]
pub struct EmbeddedServicesConfig {
    /// Base port for services (services use sequential ports).
    pub base_port: u16,
    /// Host address to bind services to.
    pub host: String,
    /// Whether each service is enabled, by port offset; a service without
    /// an entry is enabled.
    pub enabled_services: [Option<bool>; 6],
}

/// Whether an entry of `enabled_services` enables its service.
pub open spec fn entry_enabled(e: Option<bool>) -> bool {
    match e {
        Some(b) => b,
        None => true,
    }
}

/// Whether a configuration enables a service.
pub open spec fn service_enabled(c: EmbeddedServicesConfig, s: ServiceType) -> bool {
    entry_enabled(c.enabled_services@[type_offset(s) as int])
}

/// The port of a service: the base port plus the service's offset.
pub open spec fn service_port(c: EmbeddedServicesConfig, s: ServiceType) -> int {
    c.base_port + type_offset(s)
}

/// `http://<host>:<port>` for a service.
pub open spec fn service_endpoint(c: EmbeddedServicesConfig, s: ServiceType) -> Seq<char> {
    "http://"@ + c.host@ + ":"@ + decimal(service_port(c, s) as nat)
}

/// Whether every enabled service's port fits in 16 bits.
pub open spec fn enabled_ports_fit(c: EmbeddedServicesConfig) -> bool {
    forall|s: ServiceType| #[trigger] service_enabled(c, s) ==> service_port(c, s) <= u16::MAX
}

impl EmbeddedServicesConfig {
    /// Every service enabled on ports from 50051, bound to `127.0.0.1`.
    pub fn default() -> (c: EmbeddedServicesConfig)
        ensures
            c.base_port == DEFAULT_BASE_PORT,
            c.host@ == "127.0.0.1"@,
            c.enabled_services@ == seq![Some(true), Some(true), Some(true), Some(true), Some(true), Some(true)],
            forall|s: ServiceType| service_enabled(c, s),
    {
        EmbeddedServicesConfig {
            base_port: DEFAULT_BASE_PORT,
            host: String::from_str("127.0.0.1"),
            enabled_services: [Some(true), Some(true), Some(true), Some(true), Some(true), Some(true)],
        }
    }

    /// The default configuration.
    pub fn new() -> (c: EmbeddedServicesConfig)
        ensures
            c.base_port == DEFAULT_BASE_PORT,
            c.host@ == "127.0.0.1"@,
            c.enabled_services@ == seq![Some(true), Some(true), Some(true), Some(true), Some(true), Some(true)],
            forall|s: ServiceType| service_enabled(c, s),
    {
        EmbeddedServicesConfig::default()
    }

    /// Set the base port for services.
    pub fn with_base_port(self, port: u16) -> (c: EmbeddedServicesConfig)
        ensures
            c == (EmbeddedServicesConfig { base_port: port, ..self }),
    {
        let mut c = self;
        c.base_port = port;
        c
    }

    /// Set the host address.
    pub fn with_host(self, host: String) -> (c: EmbeddedServicesConfig)
        ensures
            c == (EmbeddedServicesConfig { host, ..self }),
    {
        let mut c = self;
        c.host = host;
        c
    }

    /// Enable or disable a specific service.
    pub fn with_service(self, service: ServiceType, enabled: bool) -> (c: EmbeddedServicesConfig)
        ensures
            c.base_port == self.base_port,
            c.host == self.host,
            c.enabled_services@ == self.enabled_services@.update(type_offset(service) as int, Some(enabled)),
            service_enabled(c, service) == enabled,
            forall|s: ServiceType| s != service ==> service_enabled(c, s) == service_enabled(self, s),
    {
        let mut c = self;
        let i = service.port_offset() as usize;
        c.enabled_services[i] = Some(enabled);
        c
    }

    /// Disable all services.
    pub fn disable_all(self) -> (c: EmbeddedServicesConfig)
        ensures
            c.base_port == self.base_port,
            c.host == self.host,
            c.enabled_services@ == seq![Some(false), Some(false), Some(false), Some(false), Some(false), Some(false)],
            forall|s: ServiceType| !service_enabled(c, s),
    {
        let mut c = self;
        c.enabled_services = [Some(false), Some(false), Some(false), Some(false), Some(false), Some(false)];
        c
    }

    /// Enable exactly the listed services.
    pub fn enable_only(self, services: &[ServiceType]) -> (c: EmbeddedServicesConfig)
        ensures
            c.base_port == self.base_port,
            c.host == self.host,
            forall|i: int| 0 <= i < 6 ==> c.enabled_services@[i] == Some(services@.contains(type_at(i))),
            forall|s: ServiceType| service_enabled(c, s) == services@.contains(s),
    {
        let mut c = self.disable_all();
        let mut k: usize = 0;
        while k < services.len()
            invariant
                k <= services@.len(),
                c.base_port == self.base_port,
                c.host == self.host,
                forall|i: int| 0 <= i < 6 ==> c.enabled_services@[i] == Some(services@.take(k as int).contains(type_at(i))),
            decreases services@.len() - k,
        {
            let s = services[k];
            let i = s.port_offset() as usize;
            c.enabled_services[i] = Some(true);
            proof {
                assert(services@.take(k as int + 1) =~= services@.take(k as int).push(s));
                assert forall|j: int| 0 <= j < 6 implies c.enabled_services@[j] == Some(services@.take(k as int + 1).contains(type_at(j))) by {
                    if j == i as int {
                        assert(services@.take(k as int + 1)[k as int] == s);
                    } else {
                        if services@.take(k as int + 1).contains(type_at(j)) {
                            let w = choose|w: int| 0 <= w < k + 1 && #[trigger] services@.take(k as int + 1)[w] == type_at(j);
                            if w == k {
                                assert(type_offset(s) == j);
                            } else {
                                assert(services@.take(k as int)[w] == type_at(j));
                            }
                        }
                    }
                }
            }
            k = k + 1;
        }
        proof {
            assert(services@.take(k as int) =~= services@);
            assert forall|s: ServiceType| service_enabled(c, s) == services@.contains(s) by {
                assert(type_at(type_offset(s) as int) == s);
            }
        }
        c
    }

    /// Whether a service is enabled (enabled unless configured otherwise).
    pub fn is_enabled(&self, service: ServiceType) -> (r: bool)
        ensures
            r == service_enabled(*self, service),
    {
        match self.enabled_services[service.port_offset() as usize] {
            Some(b) => b,
            None => true,
        }
    }

    /// The port of a service: the base port plus its offset.
    pub fn port_for(&self, service: ServiceType) -> (p: u16)
        requires
            service_port(*self, service) <= u16::MAX,
        ensures
            p == service_port(*self, service),
    {
        self.base_port + service.port_offset()
    }

    /// The endpoint URL of a service, `http://<host>:<port>`.
    pub fn endpoint_for(&self, service: ServiceType) -> (s: String)
        requires
            service_port(*self, service) <= u16::MAX,
        ensures
            s@ == service_endpoint(*self, service),
    {
        let mut s = String::from_str("http://");
        s.append(self.host.as_str());
        s.append(":");
        push_decimal(&mut s, self.port_for(service) as u64);
        s
    }

    /// The `<host>:<port>` address of each enabled service, in the canonical
    /// order of services: what the runtime binds when it starts.
    pub fn bind_addresses(&self) -> (r: Vec<(ServiceType, String)>)
        requires
            enabled_ports_fit(*self),
        ensures
            r@.len() <= 6,
            forall|k: int| 0 <= k < r@.len() ==> service_enabled(*self, #[trigger] r@[k].0)
                && r@[k].1@ == self.host@ + ":"@ + decimal(service_port(*self, r@[k].0) as nat),
            forall|s: ServiceType| service_enabled(*self, s) <==> exists|k: int| 0 <= k < r@.len() && #[trigger] r@[k].0 == s,
            forall|a: int, b: int| 0 <= a < b < r@.len() ==> type_offset(r@[a].0) < type_offset(r@[b].0),
    {
        let all = ServiceType::all();
        let mut r: Vec<(ServiceType, String)> = Vec::new();
        let mut i: usize = 0;
        while i < 6
            invariant
                i <= 6,
                enabled_ports_fit(*self),
                all@.len() == 6,
                forall|j: int| 0 <= j < 6 ==> all@[j] == type_at(j),
                r@.len() <= i,
                forall|k: int| 0 <= k < r@.len() ==> service_enabled(*self, #[trigger] r@[k].0)
                    && type_offset(r@[k].0) < i
                    && r@[k].1@ == self.host@ + ":"@ + decimal(service_port(*self, r@[k].0) as nat),
                forall|s: ServiceType| type_offset(s) < i ==> (service_enabled(*self, s) <==> exists|k: int| 0 <= k < r@.len() && #[trigger] r@[k].0 == s),
                forall|a: int, b: int| 0 <= a < b < r@.len() ==> type_offset(r@[a].0) < type_offset(r@[b].0),
            decreases 6 - i,
        {
            let s = all[i];
            assert(s == type_at(i as int));
            assert(type_offset(s) == i);
            if self.is_enabled(s) {
                let mut addr = String::new();
                addr.append(self.host.as_str());
                addr.append(":");
                push_decimal(&mut addr, self.port_for(s) as u64);
                let ghost before = r@;
                r.push((s, addr));
                proof {
                    assert forall|t: ServiceType| type_offset(t) < i + 1 implies (service_enabled(*self, t) <==> exists|k: int| 0 <= k < r@.len() && #[trigger] r@[k].0 == t) by {
                        if type_offset(t) < i {
                            if service_enabled(*self, t) {
                                let k = choose|k: int| 0 <= k < before.len() && #[trigger] before[k].0 == t;
                                assert(r@[k].0 == t);
                            }
                            if exists|k: int| 0 <= k < r@.len() && #[trigger] r@[k].0 == t {
                                let k = choose|k: int| 0 <= k < r@.len() && #[trigger] r@[k].0 == t;
                                if k == before.len() {
                                    assert(type_offset(t) == i);
                                } else {
                                    assert(before[k].0 == t);
                                }
                            }
                        } else {
                            assert(type_at(type_offset(t) as int) == t);
                            assert(r@[before.len() as int].0 == t);
                        }
                    }
                }
            } else {
                proof {
                    assert forall|t: ServiceType| type_offset(t) < i + 1 implies (service_enabled(*self, t) <==> exists|k: int| 0 <= k < r@.len() && #[trigger] r@[k].0 == t) by {
                        if type_offset(t) == i {
                            assert(type_at(type_offset(t) as int) == t);
                            if exists|k: int| 0 <= k < r@.len() && #[trigger] r@[k].0 == t {
                                let k = choose|k: int| 0 <= k < r@.len() && #[trigger] r@[k].0 == t;
                                assert(type_offset(r@[k].0) < i);
                            }
                        }
                    }
                }
            }
            i = i + 1;
        }
        proof {
            assert forall|s: ServiceType| service_enabled(*self, s) <==> exists|k: int| 0 <= k < r@.len() && #[trigger] r@[k].0 == s by {
                assert(type_offset(s) < 6);
            }
        }
        r
    }
}

/// Embedded services runtime: runs all microservices within one process.
#[derive(Debug, Clone)]
pub struct EmbeddedServices {
    /// The configuration the services run with.
    pub config: EmbeddedServicesConfig,
}

/// The endpoint of a service when it is enabled.
pub open spec fn endpoint_if_enabled(c: EmbeddedServicesConfig, s: ServiceType, e: Option<String>) -> bool {
    if service_enabled(c, s) {
        e matches Some(x) && x@ == service_endpoint(c, s)
    } else {
        e.is_none()
    }
}

impl EmbeddedServices {
    /// A runtime for the given configuration.
    pub fn new(config: EmbeddedServicesConfig) -> (e: EmbeddedServices)
        ensures
            e.config == config,
    {
        EmbeddedServices { config }
    }

    /// A runtime with the default configuration.
    pub fn default() -> (e: EmbeddedServices)
        ensures
            e.config.base_port == DEFAULT_BASE_PORT,
            e.config.host@ == "127.0.0.1"@,
            e.config.enabled_services@ == seq![Some(true), Some(true), Some(true), Some(true), Some(true), Some(true)],
            forall|s: ServiceType| service_enabled(e.config, s),
    {
        EmbeddedServices::new(EmbeddedServicesConfig::default())
    }

    fn endpoint_if(&self, s: ServiceType) -> (e: Option<String>)
        requires
            service_enabled(self.config, s) ==> service_port(self.config, s) <= u16::MAX,
        ensures
            endpoint_if_enabled(self.config, s, e),
    {
        if self.config.is_enabled(s) {
            Some(self.config.endpoint_for(s))
        } else {
            None
        }
    }

    /// The endpoints for connecting to the embedded services: each enabled
    /// service's endpoint, and none for a disabled one.
    pub fn services_config(&self) -> (c: ServicesConfig)
        requires
            enabled_ports_fit(self.config),
        ensures
            endpoint_if_enabled(self.config, ServiceType::Auth, c.auth_endpoint),
            endpoint_if_enabled(self.config, ServiceType::Data, c.data_endpoint),
            endpoint_if_enabled(self.config, ServiceType::Cedar, c.cedar_endpoint),
            endpoint_if_enabled(self.config, ServiceType::Cache, c.cache_endpoint),
            endpoint_if_enabled(self.config, ServiceType::Email, c.email_endpoint),
            endpoint_if_enabled(self.config, ServiceType::File, c.file_endpoint),
    {
        ServicesConfig {
            auth_endpoint: self.endpoint_if(ServiceType::Auth),
            data_endpoint: self.endpoint_if(ServiceType::Data),
            cedar_endpoint: self.endpoint_if(ServiceType::Cedar),
            cache_endpoint: self.endpoint_if(ServiceType::Cache),
            email_endpoint: self.endpoint_if(ServiceType::Email),
            file_endpoint: self.endpoint_if(ServiceType::File),
        }
    }
}

/// Errors from embedded services.
#[derive(Debug, Clone)]
pub enum EmbeddedServicesError {
    /// Invalid address format.
    InvalidAddress(String),
    /// Service failed to start.
    StartFailed(String),
    /// A service task panicked.
    TaskPanicked(String),
}

/// The human-readable text of an embedded services error.
pub open spec fn embedded_error_text(e: EmbeddedServicesError) -> Seq<char> {
    match e {
        EmbeddedServicesError::InvalidAddress(m) => "Invalid address: "@ + m@,
        EmbeddedServicesError::StartFailed(m) => "Service failed to start: "@ + m@,
        EmbeddedServicesError::TaskPanicked(m) => "Service task panicked: "@ + m@,
    }
}

impl EmbeddedServicesError {
    /// The human-readable text of the error.
    pub fn message(&self) -> (s: String)
        ensures
            s@ == embedded_error_text(*self),
    {
        let (prefix, rest) = match self {
            EmbeddedServicesError::InvalidAddress(m) => ("Invalid address: ", m),
            EmbeddedServicesError::StartFailed(m) => ("Service failed to start: ", m),
            EmbeddedServicesError::TaskPanicked(m) => ("Service task panicked: ", m),
        };
        let mut s = String::from_str(prefix);
        s.append(rest.as_str());
        s
    }
}

/// Law: no two services of a configuration share a port.
pub proof fn law_ports_distinct(c: EmbeddedServicesConfig, a: ServiceType, b: ServiceType)
    requires
        a != b,
    ensures
        service_port(c, a) != service_port(c, b),
{
    assert(type_at(type_offset(a) as int) == a);
    assert(type_at(type_offset(b) as int) == b);
}

} // verus!
