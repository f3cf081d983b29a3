//! Endpoints of the services that an application talks to.

use vstd::prelude::*;

verus! {

/// Configuration for service endpoints.
#[derive(Debug, Clone)]
pub struct ServicesConfig {
    /// Auth service endpoint (e.g., `"http://localhost:50051"`).
    pub auth_endpoint: Option<String>,
    /// Data service endpoint.
    pub data_endpoint: Option<String>,
    /// Cedar service endpoint.
    pub cedar_endpoint: Option<String>,
    /// Cache service endpoint.
    pub cache_endpoint: Option<String>,
    /// Email service endpoint.
    pub email_endpoint: Option<String>,
    /// File service endpoint.
    pub file_endpoint: Option<String>,
}

impl ServicesConfig {
    /// No service configured.
    pub fn default() -> (c: ServicesConfig)
        ensures
            c.auth_endpoint.is_none(),
            c.data_endpoint.is_none(),
            c.cedar_endpoint.is_none(),
            c.cache_endpoint.is_none(),
            c.email_endpoint.is_none(),
            c.file_endpoint.is_none(),
    {
        ServicesConfig {
            auth_endpoint: None,
            data_endpoint: None,
            cedar_endpoint: None,
            cache_endpoint: None,
            email_endpoint: None,
            file_endpoint: None,
        }
    }
}

} // verus!
