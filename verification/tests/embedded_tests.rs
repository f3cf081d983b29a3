use acton_dx::embedded::{EmbeddedServices, EmbeddedServicesConfig, EmbeddedServicesError};
use acton_dx::services::ServiceType;

#[test]
fn mod_test_default_config() {
    let config = EmbeddedServicesConfig::default();
    assert_eq!(config.base_port, 50051);
    assert_eq!(config.host, "127.0.0.1");

    for service_type in ServiceType::all() {
        assert!(config.is_enabled(service_type));
    }
}

#[test]
fn test_config_builder() {
    let config = EmbeddedServicesConfig::new()
        .with_base_port(60000)
        .with_host("0.0.0.0".to_string())
        .with_service(ServiceType::Auth, false);

    assert_eq!(config.base_port, 60000);
    assert_eq!(config.host, "0.0.0.0");
    assert!(!config.is_enabled(ServiceType::Auth));
    assert!(config.is_enabled(ServiceType::Data));
}

#[test]
fn test_port_calculation() {
    let config = EmbeddedServicesConfig::new().with_base_port(50051);

    assert_eq!(config.port_for(ServiceType::Auth), 50051);
    assert_eq!(config.port_for(ServiceType::Data), 50052);
    assert_eq!(config.port_for(ServiceType::Cedar), 50053);
    assert_eq!(config.port_for(ServiceType::Cache), 50054);
    assert_eq!(config.port_for(ServiceType::Email), 50055);
    assert_eq!(config.port_for(ServiceType::File), 50056);
}

#[test]
fn test_endpoint_generation() {
    let config = EmbeddedServicesConfig::new().with_base_port(50051).with_host("localhost".to_string());

    assert_eq!(config.endpoint_for(ServiceType::Auth), "http://localhost:50051");
    assert_eq!(config.endpoint_for(ServiceType::File), "http://localhost:50056");
}

#[test]
fn test_enable_only() {
    let config = EmbeddedServicesConfig::new().enable_only(&[ServiceType::Auth, ServiceType::Cache]);

    assert!(config.is_enabled(ServiceType::Auth));
    assert!(config.is_enabled(ServiceType::Cache));
    assert!(!config.is_enabled(ServiceType::Data));
    assert!(!config.is_enabled(ServiceType::Cedar));
    assert!(!config.is_enabled(ServiceType::Email));
    assert!(!config.is_enabled(ServiceType::File));
}

#[test]
fn test_disable_all() {
    let config = EmbeddedServicesConfig::new().disable_all();

    for service_type in ServiceType::all() {
        assert!(!config.is_enabled(service_type));
    }
}

#[test]
fn test_service_type_display() {
    assert_eq!(ServiceType::Auth.name(), "auth");
    assert_eq!(ServiceType::Data.name(), "data");
}

#[test]
fn unset_entry_counts_as_enabled() {
    let mut config = EmbeddedServicesConfig::new();
    config.enabled_services[2] = None;
    assert!(config.is_enabled(ServiceType::Cedar));
}

#[test]
fn bind_addresses_of_enabled_services() {
    let config = EmbeddedServicesConfig::new().enable_only(&[ServiceType::File, ServiceType::Auth]).with_base_port(61000);
    let addrs = config.bind_addresses();
    assert_eq!(addrs, vec![(ServiceType::Auth, "127.0.0.1:61000".to_string()), (ServiceType::File, "127.0.0.1:61005".to_string())]);
}

#[test]
fn services_config_of_embedded_services() {
    let services = EmbeddedServices::new(EmbeddedServicesConfig::new().enable_only(&[ServiceType::Auth]).with_base_port(61000));
    let c = services.services_config();
    assert_eq!(c.auth_endpoint, Some("http://127.0.0.1:61000".to_string()));
    assert_eq!(c.data_endpoint, None);
    assert_eq!(c.file_endpoint, None);
    let all = EmbeddedServices::default().services_config();
    assert_eq!(all.file_endpoint, Some("http://127.0.0.1:50056".to_string()));
}

#[test]
fn embedded_error_messages() {
    assert_eq!(EmbeddedServicesError::InvalidAddress("x".to_string()).message(), "Invalid address: x");
    assert_eq!(EmbeddedServicesError::StartFailed("y".to_string()).message(), "Service failed to start: y");
    assert_eq!(EmbeddedServicesError::TaskPanicked("z".to_string()).message(), "Service task panicked: z");
}
