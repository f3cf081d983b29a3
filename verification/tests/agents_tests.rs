use acton_dx::circuit::{CircuitBreaker, CircuitState, DEFAULT_FAILURE_THRESHOLD};
use acton_dx::coordinator::{
    HealthCheckResult, ServiceAvailable, ServiceCoordinatorAgent, ServiceCoordinatorConfig, ServiceState,
    ServiceUnavailable, DEFAULT_HEALTH_CHECK_INTERVAL_MS,
};
use acton_dx::hot_reload::{
    FileChanged, ForceReload, HotReloadConfig, HotReloadCoordinatorAgent, PendingChange, ReloadEvent, ReloadType,
    DEFAULT_DEBOUNCE_MS,
};
use acton_dx::services::ServiceId;

#[test]
fn test_reload_type_all() {
    let all = ReloadType::all();
    assert_eq!(all.len(), 4);
}

#[test]
fn test_reload_type_display() {
    assert_eq!(ReloadType::Templates.name(), "templates");
    assert_eq!(ReloadType::Config.name(), "config");
    assert_eq!(ReloadType::Policies.name(), "policies");
    assert_eq!(ReloadType::Assets.name(), "assets");
}

#[test]
fn test_reload_event_creation() {
    let event = ReloadEvent::new(ReloadType::Templates, vec!["test.html".to_string()], 0);
    assert_eq!(event.reload_type, ReloadType::Templates);
    assert_eq!(event.paths.len(), 1);
}

#[test]
fn test_hot_reload_config_default() {
    let config = HotReloadConfig::default();
    assert!(config.enabled);
    assert_eq!(config.debounce_for(ReloadType::Templates), DEFAULT_DEBOUNCE_MS);
}

#[test]
fn test_hot_reload_config_builder() {
    let config = HotReloadConfig::new()
        .with_debounce(ReloadType::Templates, 200)
        .with_watch_paths(ReloadType::Templates, vec!["templates/".to_string()])
        .with_enabled(false);

    assert!(!config.enabled);
    assert_eq!(config.debounce_for(ReloadType::Templates), 200);
    assert!(config.has_watch_paths(ReloadType::Templates));
}

#[test]
fn test_pending_change_debounce() {
    let change = PendingChange::new("test.html".to_string(), 1000);
    assert!(!change.should_trigger(100, 1000));
    assert!(change.should_trigger(100, 1100));
}

#[test]
fn test_hot_reload_file_change_and_force_reload() {
    let mut agent = HotReloadCoordinatorAgent::new(HotReloadConfig::default());
    agent.handle_file_changed(FileChanged::new(ReloadType::Templates, "test.html".to_string()), 10);
    let event = agent.handle_force_reload(ForceReload::new(ReloadType::Templates), 20).unwrap();
    assert_eq!(event.reload_type, ReloadType::Templates);
    assert_eq!(event.paths, vec!["test.html".to_string()]);
    assert_eq!(agent.stats().reload_count, 1);
}

#[test]
fn test_hot_reload_debouncing() {
    let mut agent = HotReloadCoordinatorAgent::new(HotReloadConfig::default());
    agent.handle_file_changed(FileChanged::new(ReloadType::Templates, "a.html".to_string()), 1000);
    agent.handle_file_changed(FileChanged::new(ReloadType::Templates, "b.html".to_string()), 1050);
    agent.handle_file_changed(FileChanged::new(ReloadType::Templates, "a.html".to_string()), 1080);
    assert!(agent.handle_trigger_pending(1150).is_empty());
    let events = agent.handle_trigger_pending(1180);
    assert_eq!(events.len(), 1);
    assert_eq!(events[0].paths, vec!["a.html".to_string(), "b.html".to_string()]);
    assert!(agent.handle_trigger_pending(1180).is_empty());
    let stats = agent.stats();
    assert_eq!(stats.reload_count, 1);
    assert!(stats.pending_counts.is_empty());
}

#[test]
fn test_hot_reload_stats() {
    let agent = HotReloadCoordinatorAgent::new(HotReloadConfig::default());
    let stats = agent.stats();
    assert_eq!(stats.reload_count, 0);
    assert!(stats.enabled);
}

#[test]
fn disabled_hot_reload_ignores_changes() {
    let mut agent = HotReloadCoordinatorAgent::new(HotReloadConfig::default().with_enabled(false));
    agent.handle_file_changed(FileChanged::new(ReloadType::Config, "c.toml".to_string()), 0);
    assert!(agent.handle_force_reload(ForceReload::new(ReloadType::Config), 1).is_none());
    assert!(agent.handle_trigger_pending(10_000).is_empty());
}

#[test]
fn test_service_id_all() {
    let all = ServiceId::all();
    assert_eq!(all.len(), 6);
}

#[test]
fn test_service_id_display() {
    assert_eq!(ServiceId::Auth.name(), "auth");
    assert_eq!(ServiceId::Data.name(), "data");
    assert_eq!(ServiceId::Cedar.name(), "cedar");
    assert_eq!(ServiceId::Cache.name(), "cache");
    assert_eq!(ServiceId::Email.name(), "email");
    assert_eq!(ServiceId::File.name(), "file");
}

#[test]
fn test_service_id_default_port() {
    assert_eq!(ServiceId::Auth.default_port(), 50051);
    assert_eq!(ServiceId::Data.default_port(), 50052);
    assert_eq!(ServiceId::Cedar.default_port(), 50053);
    assert_eq!(ServiceId::Cache.default_port(), 50054);
    assert_eq!(ServiceId::Email.default_port(), 50055);
    assert_eq!(ServiceId::File.default_port(), 50056);
}

#[test]
fn test_circuit_breaker_default() {
    let cb = CircuitBreaker::default();
    assert_eq!(cb.state, CircuitState::Closed);
    assert_eq!(cb.failure_count, 0);
    assert_eq!(cb.failure_threshold, DEFAULT_FAILURE_THRESHOLD);
}

#[test]
fn test_circuit_breaker_success() {
    let mut cb = CircuitBreaker::default();
    cb.record_failure(1);
    cb.record_failure(2);
    assert_eq!(cb.failure_count, 2);

    cb.record_success(3);
    assert_eq!(cb.failure_count, 0);
    assert_eq!(cb.state, CircuitState::Closed);
}

#[test]
fn test_circuit_breaker_opens_on_threshold() {
    let mut cb = CircuitBreaker::new(3, 60_000);
    cb.record_failure(1);
    assert_eq!(cb.state, CircuitState::Closed);
    cb.record_failure(2);
    assert_eq!(cb.state, CircuitState::Closed);
    cb.record_failure(3);
    assert_eq!(cb.state, CircuitState::Open);
}

#[test]
fn test_circuit_breaker_should_allow() {
    let mut cb = CircuitBreaker::new(2, 10);
    assert!(cb.should_allow(0));

    cb.record_failure(100);
    cb.record_failure(100);
    assert_eq!(cb.state, CircuitState::Open);
    assert!(!cb.should_allow(105));

    assert!(cb.should_allow(115));
    assert_eq!(cb.state, CircuitState::HalfOpen);
    assert_eq!(cb.state().as_str(), "half-open");
}

#[test]
fn test_service_state_display() {
    assert_eq!(ServiceState::Healthy.as_str(), "healthy");
    assert_eq!(ServiceState::Degraded.as_str(), "degraded");
    assert_eq!(ServiceState::Unhealthy.as_str(), "unhealthy");
    assert_eq!(ServiceState::Unknown.as_str(), "unknown");
}

#[test]
fn test_service_coordinator_config_default() {
    let config = ServiceCoordinatorConfig::default();
    assert!(config.enabled);
    assert_eq!(config.health_check_interval_ms, DEFAULT_HEALTH_CHECK_INTERVAL_MS);
    assert_eq!(config.failure_threshold, DEFAULT_FAILURE_THRESHOLD);
    assert_eq!(config.endpoints.len(), 6);
}

#[test]
fn test_service_coordinator_config_builder() {
    let config = ServiceCoordinatorConfig::new()
        .with_health_check_interval(60_000)
        .with_failure_threshold(10)
        .with_recovery_timeout(120_000)
        .with_enabled(false);

    assert!(!config.enabled);
    assert_eq!(config.health_check_interval_ms, 60_000);
    assert_eq!(config.failure_threshold, 10);
    assert_eq!(config.recovery_timeout_ms, 120_000);
}

#[test]
fn test_health_check_result_success() {
    let result = HealthCheckResult::success(ServiceId::Auth, 42);
    assert!(result.healthy);
    assert_eq!(result.response_time_ms, Some(42));
    assert!(result.error.is_none());
}

#[test]
fn test_health_check_result_failure() {
    let result = HealthCheckResult::failure(ServiceId::Data, "Connection refused".to_string());
    assert!(!result.healthy);
    assert!(result.response_time_ms.is_none());
    assert_eq!(result.error, Some("Connection refused".to_string()));
}

#[test]
fn test_service_coordinator_health_check_updates_state() {
    let mut agent = ServiceCoordinatorAgent::new(ServiceCoordinatorConfig::default());
    assert_eq!(agent.status().get(ServiceId::Auth), Some((ServiceState::Unknown, CircuitState::Closed)));
    let event = agent.handle_health_check(&HealthCheckResult::success(ServiceId::Auth, 5), 100).unwrap();
    assert_eq!(event.previous_state, ServiceState::Unknown);
    assert_eq!(event.new_state, ServiceState::Healthy);
    assert!(agent.is_healthy(ServiceId::Auth));
    assert!(agent.handle_health_check(&HealthCheckResult::success(ServiceId::Auth, 5), 200).is_none());
    assert_eq!(agent.status().health_check_count, 2);
}

#[test]
fn test_service_coordinator_circuit_breaker_integration() {
    let mut agent = ServiceCoordinatorAgent::new(ServiceCoordinatorConfig::default());
    for t in 0..4u64 {
        agent.handle_health_check(&HealthCheckResult::failure(ServiceId::Data, "down".to_string()), 10 + t);
    }
    assert_eq!(agent.status().get(ServiceId::Data), Some((ServiceState::Degraded, CircuitState::Closed)));
    agent.handle_health_check(&HealthCheckResult::failure(ServiceId::Data, "down".to_string()), 20);
    assert_eq!(agent.status().get(ServiceId::Data), Some((ServiceState::Unhealthy, CircuitState::Open)));
    assert!(!agent.should_allow_request(ServiceId::Data, 30));
    let event = agent.handle_service_available(&ServiceAvailable::new(ServiceId::Data), 40).unwrap();
    assert_eq!(event.new_state, ServiceState::Healthy);
    assert!(agent.should_allow_request(ServiceId::Data, 50));
    agent.handle_service_unavailable(&ServiceUnavailable::new(ServiceId::Data, Some("gone".to_string())), 60);
    assert!(!agent.is_healthy(ServiceId::Data));
}
