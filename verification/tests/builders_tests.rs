use acton_dx::coordinator::{ServiceCoordinatorAgent, ServiceCoordinatorConfig};
use acton_dx::services::{ServiceId, ServiceType};
use acton_dx::session::{Session, SessionData, SessionId};
use acton_dx::transport::{GrpcTransportConfig, TransportConfig, TransportType};

#[test]
fn grpc_endpoint_builders() {
    let c = GrpcTransportConfig::new()
        .with_auth_endpoint("a".to_string())
        .with_data_endpoint("d".to_string())
        .with_cedar_endpoint("c".to_string())
        .with_cache_endpoint("k".to_string())
        .with_email_endpoint("e".to_string())
        .with_file_endpoint("f".to_string());
    assert_eq!(c.auth_endpoint, Some("a".to_string()));
    assert_eq!(c.data_endpoint, Some("d".to_string()));
    assert_eq!(c.cedar_endpoint, Some("c".to_string()));
    assert_eq!(c.cache_endpoint, Some("k".to_string()));
    assert_eq!(c.email_endpoint, Some("e".to_string()));
    assert_eq!(c.file_endpoint, Some("f".to_string()));
    let t = TransportConfig::default().with_grpc_config(c).with_transport_type(TransportType::Grpc);
    assert!(t.is_grpc());
    assert_eq!(t.grpc.file_endpoint, Some("f".to_string()));
}

#[test]
fn coordinator_endpoints_and_config_update() {
    let config = ServiceCoordinatorConfig::default().with_endpoint(ServiceId::Auth, "http://auth:1".to_string());
    assert_eq!(config.endpoint_for(ServiceId::Auth), Some(&"http://auth:1".to_string()));
    assert_eq!(config.endpoint_for(ServiceId::File), Some(&"http://127.0.0.1:50056".to_string()));
    let mut agent = ServiceCoordinatorAgent::with_config(ServiceCoordinatorConfig::default().with_failure_threshold(2));
    assert_eq!(agent.services[0].circuit.failure_threshold, 2);
    agent.update_config(ServiceCoordinatorConfig::default().with_failure_threshold(7));
    assert!(agent.services.iter().all(|h| h.circuit.failure_threshold == 7));
    assert_eq!(agent.services.len(), 6);
}

#[test]
fn session_data_mut_and_ports() {
    let mut s = Session::new(SessionId::new("x".to_string()), SessionData::new(0));
    s.data_mut().user_id = Some(5);
    assert_eq!(s.user_id(), Some(5));
    assert_eq!(s.id().as_str(), "x");
    assert_eq!(s.data().created_at, 0);
    assert_eq!(ServiceType::File.port_offset(), 5);
}
