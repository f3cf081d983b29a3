//! Identities of the six Acton DX microservices as seen by the CLI
//! (`ServiceName`), by the service coordinator (`ServiceId`) and by the
//! embedded runtime (`ServiceType`).

use vstd::prelude::*;

verus! {

/// A microservice managed by the command line tool.
#[derive(Debug, Clone, Copy, PartialEq, Eq, Hash, Structural)]
pub enum ServiceName {
    /// Authentication service (sessions, passwords, CSRF)
    Auth,
    /// Data service (database queries, transactions)
    Data,
    /// Cedar authorization service
    Cedar,
    /// Cache service (Redis operations)
    Cache,
    /// Email service
    Email,
    /// File storage service
    File,
}

/// Position of a service in the canonical order auth, data, cedar, cache, email, file.
pub open spec fn name_index(s: ServiceName) -> nat {
    match s {
        ServiceName::Auth => 0,
        ServiceName::Data => 1,
        ServiceName::Cedar => 2,
        ServiceName::Cache => 3,
        ServiceName::Email => 4,
        ServiceName::File => 5,
    }
}

/// The binary name of a service.
pub open spec fn binary_name_of(s: ServiceName) -> Seq<char> {
    match s {
        ServiceName::Auth => "auth-service"@,
        ServiceName::Data => "data-service"@,
        ServiceName::Cedar => "cedar-service"@,
        ServiceName::Cache => "cache-service"@,
        ServiceName::Email => "email-service"@,
        ServiceName::File => "file-service"@,
    }
}

/// The human readable name of a service.
pub open spec fn display_name_of(s: ServiceName) -> Seq<char> {
    match s {
        ServiceName::Auth => "Auth Service"@,
        ServiceName::Data => "Data Service"@,
        ServiceName::Cedar => "Cedar Service"@,
        ServiceName::Cache => "Cache Service"@,
        ServiceName::Email => "Email Service"@,
        ServiceName::File => "File Service"@,
    }
}

impl ServiceName {
    /// The binary name of this service.
    pub fn binary_name(&self) -> (r: &'static str)
        ensures
            r@ == binary_name_of(*self),
    {
        match self {
            ServiceName::Auth => "auth-service",
            ServiceName::Data => "data-service",
            ServiceName::Cedar => "cedar-service",
            ServiceName::Cache => "cache-service",
            ServiceName::Email => "email-service",
            ServiceName::File => "file-service",
        }
    }

    /// The default port of this service: 50051 for auth up to 50056 for file.
    pub fn default_port(&self) -> (p: u16)
        ensures
            p == 50051 + name_index(*self),
    {
        match self {
            ServiceName::Auth => 50051,
            ServiceName::Data => 50052,
            ServiceName::Cedar => 50053,
            ServiceName::Cache => 50054,
            ServiceName::Email => 50055,
            ServiceName::File => 50056,
        }
    }

    /// The human readable name of this service.
    pub fn display_name(&self) -> (r: &'static str)
        ensures
            r@ == display_name_of(*self),
    {
        match self {
            ServiceName::Auth => "Auth Service",
            ServiceName::Data => "Data Service",
            ServiceName::Cedar => "Cedar Service",
            ServiceName::Cache => "Cache Service",
            ServiceName::Email => "Email Service",
            ServiceName::File => "File Service",
        }
    }

    /// All services, in the canonical order.
    pub fn all() -> (r: Vec<ServiceName>)
        ensures
            r@ == seq![ServiceName::Auth, ServiceName::Data, ServiceName::Cedar,
                ServiceName::Cache, ServiceName::Email, ServiceName::File],
    {
        vec![ServiceName::Auth, ServiceName::Data, ServiceName::Cedar,
            ServiceName::Cache, ServiceName::Email, ServiceName::File]
    }
}

/// Identifier of a microservice watched by the service coordinator.
#[derive(Debug, Clone, Copy, PartialEq, Eq, Hash, Structural)]
pub enum ServiceId {
    /// Authentication service
    Auth,
    /// Data/database service
    Data,
    /// Cedar policy service
    Cedar,
    /// Cache service
    Cache,
    /// Email service
    Email,
    /// File storage service
    File,
}

/// Position of a service id in the canonical order.
pub open spec fn id_index(s: ServiceId) -> nat {
    match s {
        ServiceId::Auth => 0,
        ServiceId::Data => 1,
        ServiceId::Cedar => 2,
        ServiceId::Cache => 3,
        ServiceId::Email => 4,
        ServiceId::File => 5,
    }
}

/// The service id at a position of the canonical order.
pub open spec fn id_at(i: int) -> ServiceId {
    if i == 0 {
        ServiceId::Auth
    } else if i == 1 {
        ServiceId::Data
    } else if i == 2 {
        ServiceId::Cedar
    } else if i == 3 {
        ServiceId::Cache
    } else if i == 4 {
        ServiceId::Email
    } else {
        ServiceId::File
    }
}

/// The lower-case name of a service id.
pub open spec fn id_name(s: ServiceId) -> Seq<char> {
    match s {
        ServiceId::Auth => "auth"@,
        ServiceId::Data => "data"@,
        ServiceId::Cedar => "cedar"@,
        ServiceId::Cache => "cache"@,
        ServiceId::Email => "email"@,
        ServiceId::File => "file"@,
    }
}

impl ServiceId {
    /// All service ids, in the canonical order.
    pub fn all() -> (r: Vec<ServiceId>)
        ensures
            r@.len() == 6,
            forall|i: int| 0 <= i < 6 ==> r@[i] == id_at(i),
    {
        vec![ServiceId::Auth, ServiceId::Data, ServiceId::Cedar,
            ServiceId::Cache, ServiceId::Email, ServiceId::File]
    }

    /// The position of this id in the canonical order.
    pub fn index(&self) -> (i: usize)
        ensures
            i == id_index(*self),
            id_at(i as int) == *self,
    {
        match self {
            ServiceId::Auth => 0,
            ServiceId::Data => 1,
            ServiceId::Cedar => 2,
            ServiceId::Cache => 3,
            ServiceId::Email => 4,
            ServiceId::File => 5,
        }
    }

    /// The display name of this id (`auth`, `data`, ...).
    pub fn name(&self) -> (r: &'static str)
        ensures
            r@ == id_name(*self),
    {
        match self {
            ServiceId::Auth => "auth",
            ServiceId::Data => "data",
            ServiceId::Cedar => "cedar",
            ServiceId::Cache => "cache",
            ServiceId::Email => "email",
            ServiceId::File => "file",
        }
    }

    /// The default port of this service: 50051 for auth up to 50056 for file.
    pub fn default_port(&self) -> (p: u16)
        ensures
            p == 50051 + id_index(*self),
    {
        match self {
            ServiceId::Auth => 50051,
            ServiceId::Data => 50052,
            ServiceId::Cedar => 50053,
            ServiceId::Cache => 50054,
            ServiceId::Email => 50055,
            ServiceId::File => 50056,
        }
    }
}

/// A service that the embedded runtime can host.
#[derive(Debug, Clone, Copy, PartialEq, Eq, Hash, Structural)]
pub enum ServiceType {
    /// Authentication service.
    Auth,
    /// Data service.
    Data,
    /// Cedar authorization service.
    Cedar,
    /// Cache service.
    Cache,
    /// Email service.
    Email,
    /// File service.
    File,
}

/// Port offset of a service type from the base port.
pub open spec fn type_offset(s: ServiceType) -> nat {
    match s {
        ServiceType::Auth => 0,
        ServiceType::Data => 1,
        ServiceType::Cedar => 2,
        ServiceType::Cache => 3,
        ServiceType::Email => 4,
        ServiceType::File => 5,
    }
}

/// The service type at a position of the canonical order.
pub open spec fn type_at(i: int) -> ServiceType {
    if i == 0 {
        ServiceType::Auth
    } else if i == 1 {
        ServiceType::Data
    } else if i == 2 {
        ServiceType::Cedar
    } else if i == 3 {
        ServiceType::Cache
    } else if i == 4 {
        ServiceType::Email
    } else {
        ServiceType::File
    }
}

/// The lower-case name of a service type.
pub open spec fn service_type_name(s: ServiceType) -> Seq<char> {
    match s {
        ServiceType::Auth => "auth"@,
        ServiceType::Data => "data"@,
        ServiceType::Cedar => "cedar"@,
        ServiceType::Cache => "cache"@,
        ServiceType::Email => "email"@,
        ServiceType::File => "file"@,
    }
}

impl ServiceType {
    /// All service types, in the canonical order.
    pub fn all() -> (r: Vec<ServiceType>)
        ensures
            r@.len() == 6,
            forall|i: int| 0 <= i < 6 ==> r@[i] == type_at(i),
    {
        vec![ServiceType::Auth, ServiceType::Data, ServiceType::Cedar,
            ServiceType::Cache, ServiceType::Email, ServiceType::File]
    }

    /// The port offset of this service from the base port (0 for auth up to 5 for file).
    pub fn port_offset(&self) -> (o: u16)
        ensures
            o == type_offset(*self),
            type_at(o as int) == *self,
    {
        match self {
            ServiceType::Auth => 0,
            ServiceType::Data => 1,
            ServiceType::Cedar => 2,
            ServiceType::Cache => 3,
            ServiceType::Email => 4,
            ServiceType::File => 5,
        }
    }

    /// The display name of this service (`auth`, `data`, ...).
    pub fn name(&self) -> (r: &'static str)
        ensures
            r@ == service_type_name(*self),
    {
        match self {
            ServiceType::Auth => "auth",
            ServiceType::Data => "data",
            ServiceType::Cedar => "cedar",
            ServiceType::Cache => "cache",
            ServiceType::Email => "email",
            ServiceType::File => "file",
        }
    }
}

} // verus!
