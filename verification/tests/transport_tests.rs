use acton_dx::transport::{FallbackConfig, GrpcTransportConfig, IpcTransportConfig, TransportConfig, TransportType};

#[test]
fn test_default_transport_is_ipc() {
    let config = TransportConfig::default();
    assert_eq!(config.transport_type, TransportType::Ipc);
    assert!(config.is_ipc());
    assert!(!config.is_grpc());
}

#[test]
fn test_grpc_transport_config() {
    let config = TransportConfig::grpc();
    assert_eq!(config.transport_type, TransportType::Grpc);
    assert!(config.is_grpc());
    assert!(!config.is_ipc());
}

#[test]
fn test_ipc_socket_path_default() {
    let config = IpcTransportConfig::default();
    let path = config.socket_path();

    assert!(path.contains("acton"));
    assert!(path.contains("acton-dx"));
    assert!(path.ends_with("ipc.sock"));
}

#[test]
fn test_ipc_socket_path_custom() {
    let config = IpcTransportConfig::default().with_socket_path("/custom/path/service.sock".to_string());
    let path = config.socket_path();
    assert_eq!(path, "/custom/path/service.sock");
}

#[test]
fn socket_path_with_runtime_dir() {
    let config = IpcTransportConfig::default().with_app_name("shop".to_string());
    assert_eq!(config.socket_path_with(Some("/run/user/1000".to_string())), "/run/user/1000/acton/shop/ipc.sock");
    assert_eq!(config.socket_path_with(None), "/tmp/acton/shop/ipc.sock");
}

#[test]
fn socket_path_joins_like_pathbuf() {
    for (dir, app) in [
        (Some("/run/user/1000/"), "shop"),
        (Some("/run/user/1000"), ""),
        (Some("/run/user/1000"), "/abs/app"),
        (None, "a/b"),
        (None, ""),
    ] {
        let config = IpcTransportConfig::default().with_app_name(app.to_string());
        let expected = std::path::PathBuf::from(dir.unwrap_or("/tmp")).join("acton").join(app).join("ipc.sock");
        assert_eq!(config.socket_path_with(dir.map(str::to_string)), expected.to_string_lossy(), "{:?} {:?}", dir, app);
    }
    let config = IpcTransportConfig::default().with_app_name("shop".to_string());
    assert_eq!(config.socket_path_with(Some("/run/user/1000/".to_string())), "/run/user/1000/acton/shop/ipc.sock");
}

#[test]
fn test_grpc_localhost_config() {
    let config = GrpcTransportConfig::localhost(50051);

    assert_eq!(config.auth_endpoint, Some("http://localhost:50051".to_string()));
    assert_eq!(config.data_endpoint, Some("http://localhost:50052".to_string()));
    assert_eq!(config.file_endpoint, Some("http://localhost:50056".to_string()));
}

#[test]
fn test_transport_type_display() {
    assert_eq!(TransportType::Ipc.as_str(), "ipc");
    assert_eq!(TransportType::Grpc.as_str(), "grpc");
}

#[test]
fn test_fallback_auto() {
    let fallback = FallbackConfig::enable_auto(TransportType::Ipc);
    assert!(fallback.enabled);
    assert_eq!(fallback.fallback_type, Some(TransportType::Grpc));

    let fallback = FallbackConfig::enable_auto(TransportType::Grpc);
    assert_eq!(fallback.fallback_type, Some(TransportType::Ipc));
}

#[test]
fn test_transport_config_builder() {
    let config = TransportConfig::ipc()
        .with_ipc_config(
            IpcTransportConfig::default()
                .with_app_name("my-service".to_string())
                .with_timeout_ms(60_000),
        )
        .with_fallback(FallbackConfig::enable_auto(TransportType::Ipc));

    assert!(config.is_ipc());
    assert_eq!(config.ipc.app_name, "my-service");
    assert_eq!(config.ipc.timeout_ms, 60_000);
    assert!(config.fallback.enabled);
}

#[test]
fn fallback_default_and_retries() {
    let f = FallbackConfig::default();
    assert!(!f.enabled);
    assert_eq!(f.fallback_type, None);
    assert_eq!(f.fallback_timeout_ms, 1000);
    let c = IpcTransportConfig::default().with_retries(7, 250);
    assert_eq!(c.max_retries, 7);
    assert_eq!(c.retry_delay_ms, 250);
    assert_eq!(c.max_message_size, 1_048_576);
}
