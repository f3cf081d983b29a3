//! HTMX-specific application settings and their development defaults.

use vstd::prelude::*;
use std::collections::HashMap;
use crate::transport::{TransportConfig, TransportType, default_fallback};

verus! {

/// HTMX-specific configuration.
#[derive(Debug, Clone, Copy, PartialEq, Eq)]
pub struct HtmxSettings {
    /// Request timeout in milliseconds.
    pub request_timeout_ms: u64,
    /// Enable HTMX history support.
    pub history_enabled: bool,
    /// Enable auto-vary middleware for caching.
    pub auto_vary: bool,
    /// Enable request guards for HTMX-only routes.
    pub guards_enabled: bool,
}

impl HtmxSettings {
    /// 5 s timeout, history and auto-vary on, guards off.
    pub fn default() -> (s: HtmxSettings)
        ensures
            s == (HtmxSettings { request_timeout_ms: 5000, history_enabled: true, auto_vary: true, guards_enabled: false }),
    {
        HtmxSettings { request_timeout_ms: 5000, history_enabled: true, auto_vary: true, guards_enabled: false }
    }
}

/// Template engine configuration.
#[derive(Debug, Clone)]
pub struct TemplateSettings {
    /// Directory containing the templates.
    pub template_dir: String,
    /// Enable template caching.
    pub cache_enabled: bool,
    /// Enable hot reload (on in development builds).
    pub hot_reload: bool,
    /// Template file extensions to watch.
    pub watch_extensions: Vec<String>,
}

impl TemplateSettings {
    /// `./templates`, caching and hot reload on, watching `html` and `jinja` files.
    pub fn default() -> (s: TemplateSettings)
        ensures
            s.template_dir@ == "./templates"@,
            s.cache_enabled,
            s.hot_reload,
            s.watch_extensions@.len() == 2,
            s.watch_extensions@[0]@ == "html"@,
            s.watch_extensions@[1]@ == "jinja"@,
    {
        let mut exts: Vec<String> = Vec::new();
        exts.push(String::from_str("html"));
        exts.push(String::from_str("jinja"));
        TemplateSettings {
            template_dir: String::from_str("./templates"),
            cache_enabled: true,
            hot_reload: true,
            watch_extensions: exts,
        }
    }
}

/// Cookie `SameSite` policy.
#[derive(Debug, Clone, Copy, PartialEq, Eq, Structural)]
pub enum SameSitePolicy {
    /// Strict `SameSite` policy.
    Strict,
    /// Lax `SameSite` policy (recommended).
    Lax,
    /// No `SameSite` restriction (`SameSite=None`, requires secure cookies).
    Unrestricted,
}

/// Failure mode for rate limit backend errors.
#[derive(Debug, Clone, Copy, PartialEq, Eq, Structural)]
pub enum RateLimitFailureMode {
    /// Deny requests when rate limiting fails (strict, production).
    Closed,
    /// Allow requests when rate limiting fails (permissive, development).
    Open,
}

impl RateLimitFailureMode {
    /// Permissive in development builds.
    pub fn default() -> (m: RateLimitFailureMode)
        ensures
            m == RateLimitFailureMode::Open,
    {
        RateLimitFailureMode::Open
    }
}

/// Failure mode for policy evaluation errors.
#[derive(Debug, Clone, Copy, PartialEq, Eq, Structural)]
pub enum FailureMode {
    /// Deny requests when policy evaluation fails (strict).
    Closed,
    /// Allow requests when policy evaluation fails (permissive).
    Open,
}

impl FailureMode {
    /// Strict by default.
    pub fn default() -> (m: FailureMode)
        ensures
            m == FailureMode::Closed,
    {
        FailureMode::Closed
    }
}

/// HTMX-specific rate limiting configuration.
#[derive(Debug, Clone)]
pub struct HtmxRateLimitConfig {
    /// Enable HTMX-specific rate limiting.
    pub enabled: bool,
    /// Requests per minute per IP address (for anonymous requests).
    pub per_ip_rpm: u32,
    /// Requests per minute per authenticated user.
    pub per_user_rpm: u32,
    /// Requests per minute for specific routes (e.g., auth endpoints).
    pub per_route_rpm: u32,
    /// Rate limit window in seconds.
    pub window_secs: u64,
    /// Use Redis for distributed rate limiting.
    pub redis_enabled: bool,
    /// Failure mode when the rate limit backend fails.
    pub failure_mode: RateLimitFailureMode,
    /// Route patterns that use stricter rate limits.
    pub strict_routes: Vec<String>,
}

impl HtmxRateLimitConfig {
    /// Enabled; 60 per IP, 120 per user and 30 per route each minute;
    /// in-memory; permissive on backend failure; strict on the login,
    /// registration and password-reset routes.
    pub fn default() -> (c: HtmxRateLimitConfig)
        ensures
            c.enabled,
            c.per_ip_rpm == 60,
            c.per_user_rpm == 120,
            c.per_route_rpm == 30,
            c.window_secs == 60,
            !c.redis_enabled,
            c.failure_mode == RateLimitFailureMode::Open,
            c.strict_routes@.len() == 3,
            c.strict_routes@[0]@ == "/login"@,
            c.strict_routes@[1]@ == "/register"@,
            c.strict_routes@[2]@ == "/password-reset"@,
    {
        let mut routes: Vec<String> = Vec::new();
        routes.push(String::from_str("/login"));
        routes.push(String::from_str("/register"));
        routes.push(String::from_str("/password-reset"));
        HtmxRateLimitConfig {
            enabled: true,
            per_ip_rpm: 60,
            per_user_rpm: 120,
            per_route_rpm: 30,
            window_secs: 60,
            redis_enabled: false,
            failure_mode: RateLimitFailureMode::default(),
            strict_routes: routes,
        }
    }
}

/// Security configuration for HTMX applications.
#[derive(Debug, Clone)]
pub struct SecuritySettings {
    /// Enable CSRF protection.
    pub csrf_enabled: bool,
    /// Session maximum age in seconds.
    pub session_max_age_secs: u64,
    /// Enable secure cookies (HTTPS only; off in development builds).
    pub secure_cookies: bool,
    /// Cookie `SameSite` policy.
    pub same_site: SameSitePolicy,
    /// Enable security headers middleware.
    pub security_headers_enabled: bool,
    /// Rate limiting configuration for HTMX routes.
    pub rate_limit: HtmxRateLimitConfig,
}

impl SecuritySettings {
    /// CSRF on, 24 h sessions, plain cookies in development, `Lax`,
    /// security headers on, default rate limits.
    pub fn default() -> (s: SecuritySettings)
        ensures
            s.csrf_enabled,
            s.session_max_age_secs == 86400,
            !s.secure_cookies,
            s.same_site == SameSitePolicy::Lax,
            s.security_headers_enabled,
            s.rate_limit.enabled && s.rate_limit.per_ip_rpm == 60 && s.rate_limit.per_route_rpm == 30,
            s.rate_limit.strict_routes@.len() == 3,
    {
        SecuritySettings {
            csrf_enabled: true,
            session_max_age_secs: 86400,
            secure_cookies: false,
            same_site: SameSitePolicy::Lax,
            security_headers_enabled: true,
            rate_limit: HtmxRateLimitConfig::default(),
        }
    }
}

/// Cedar authorization configuration.
#[derive(Debug, Clone)]
pub struct CedarConfig {
    /// Enable Cedar authorization.
    pub enabled: bool,
    /// Path to the policy file.
    pub policy_path: String,
    /// Enable policy hot-reload (on in development builds).
    pub hot_reload: bool,
    /// Failure mode for policy evaluation errors.
    pub failure_mode: FailureMode,
    /// Enable policy caching.
    pub cache_enabled: bool,
}

impl CedarConfig {
    /// Disabled, `./policies/main.cedar`, hot reload in development, strict, cached.
    pub fn default() -> (c: CedarConfig)
        ensures
            !c.enabled,
            c.policy_path@ == "./policies/main.cedar"@,
            c.hot_reload,
            c.failure_mode == FailureMode::Closed,
            c.cache_enabled,
    {
        CedarConfig {
            enabled: false,
            policy_path: String::from_str("./policies/main.cedar"),
            hot_reload: true,
            failure_mode: FailureMode::default(),
            cache_enabled: true,
        }
    }
}

/// HTMX-specific configuration of an application.
#[derive(Debug, Clone)]
pub struct ActonHtmxConfig {
    /// HTMX-specific settings.
    pub htmx: HtmxSettings,
    /// Template engine settings.
    pub templates: TemplateSettings,
    /// Security settings.
    pub security: SecuritySettings,
    /// Services transport configuration (IPC by default, or gRPC).
    pub services: TransportConfig,
    /// Feature flags.
    pub features: HashMap<String, bool>,
}

impl ActonHtmxConfig {
    /// Every section at its default, no feature flags.
    pub fn default() -> (c: ActonHtmxConfig)
        ensures
            c.htmx == (HtmxSettings { request_timeout_ms: 5000, history_enabled: true, auto_vary: true, guards_enabled: false }),
            c.templates.template_dir@ == "./templates"@,
            c.security.csrf_enabled,
            c.security.session_max_age_secs == 86400,
            !c.security.secure_cookies,
            c.services.transport_type == TransportType::Ipc,
            c.services.fallback == default_fallback(),
            c.features@.len() == 0,
    {
        ActonHtmxConfig {
            htmx: HtmxSettings::default(),
            templates: TemplateSettings::default(),
            security: SecuritySettings::default(),
            services: TransportConfig::default(),
            features: HashMap::new(),
        }
    }

    /// Whether IPC transport is configured.
    pub fn is_ipc_transport(&self) -> (r: bool)
        ensures
            r == (self.services.transport_type == TransportType::Ipc),
    {
        self.services.transport_type == TransportType::Ipc
    }

    /// Whether gRPC transport is configured.
    pub fn is_grpc_transport(&self) -> (r: bool)
        ensures
            r == (self.services.transport_type == TransportType::Grpc),
    {
        self.services.transport_type == TransportType::Grpc
    }

    /// The configured transport type.
    pub fn transport_type(&self) -> (t: TransportType)
        ensures
            t == self.services.transport_type,
    {
        self.services.transport_type
    }
}

} // verus!
