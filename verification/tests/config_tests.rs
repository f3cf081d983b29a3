use acton_dx::config::{
    ActonHtmxConfig, CedarConfig, FailureMode, HtmxRateLimitConfig, HtmxSettings, RateLimitFailureMode,
    SameSitePolicy, SecuritySettings, TemplateSettings,
};
use acton_dx::transport::TransportType;

#[test]
fn test_default_config() {
    let config = ActonHtmxConfig::default();
    assert_eq!(config.htmx.request_timeout_ms, 5000);
    assert!(config.htmx.history_enabled);
    assert!(config.htmx.auto_vary);
    assert!(config.security.csrf_enabled);
    assert_eq!(config.security.session_max_age_secs, 86400);
}

#[test]
fn test_template_defaults() {
    let templates = TemplateSettings::default();
    assert_eq!(templates.template_dir, "./templates");
    assert!(templates.cache_enabled);
    assert_eq!(templates.watch_extensions, vec!["html", "jinja"]);
}

#[test]
fn test_security_defaults() {
    let security = SecuritySettings::default();
    assert!(security.csrf_enabled);
    assert!(security.security_headers_enabled);
    assert!(!security.secure_cookies);
}

#[test]
fn test_rate_limit_defaults() {
    let rate_limit = HtmxRateLimitConfig::default();
    assert!(rate_limit.enabled);
    assert_eq!(rate_limit.per_ip_rpm, 60);
    assert_eq!(rate_limit.per_route_rpm, 30);
    assert!(!rate_limit.strict_routes.is_empty());
}

#[test]
fn other_defaults() {
    let h = HtmxSettings::default();
    assert!(!h.guards_enabled);
    let r = HtmxRateLimitConfig::default();
    assert_eq!(r.per_user_rpm, 120);
    assert_eq!(r.window_secs, 60);
    assert_eq!(r.failure_mode, RateLimitFailureMode::Open);
    assert_eq!(r.strict_routes, vec!["/login", "/register", "/password-reset"]);
    assert_eq!(SecuritySettings::default().same_site, SameSitePolicy::Lax);
    let c = CedarConfig::default();
    assert!(!c.enabled);
    assert_eq!(c.policy_path, "./policies/main.cedar");
    assert_eq!(c.failure_mode, FailureMode::Closed);
    assert_eq!(FailureMode::default(), FailureMode::Closed);
}

#[test]
fn transport_selection() {
    let mut config = ActonHtmxConfig::default();
    assert!(config.is_ipc_transport());
    assert!(!config.is_grpc_transport());
    assert_eq!(config.transport_type(), TransportType::Ipc);
    config.services = config.services.with_transport_type(TransportType::Grpc);
    assert!(config.is_grpc_transport());
    assert_eq!(config.transport_type(), TransportType::Grpc);
    assert!(config.features.is_empty());
}
