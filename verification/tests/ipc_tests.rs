use acton_dx::error::ClientError;
use acton_dx::ipc::{
    correlation_id, encode_frame, frame_length, reply_payload, ConnectAttempts, CorrelationIdGenerator,
    IpcClientConfig, IpcEnvelope, IpcResponse, MSG_ERROR, MSG_PUSH, MSG_REQUEST, MSG_RESPONSE,
};
use acton_dx::transport::IpcTransportConfig;

#[test]
fn test_ipc_envelope_creation() {
    let mut ids = CorrelationIdGenerator::new();
    let envelope = IpcEnvelope::new(
        &mut ids,
        1_700_000_000_000,
        "auth_service".to_string(),
        "CreateSession".to_string(),
        serde_json::Value::from(3600),
    );

    assert_eq!(envelope.target, "auth_service");
    assert_eq!(envelope.message_type, "CreateSession");
    assert!(!envelope.expects_reply);
    assert!(!envelope.correlation_id.is_empty());
}

#[test]
fn test_ipc_envelope_request() {
    let mut ids = CorrelationIdGenerator::new();
    let envelope = IpcEnvelope::new_request(
        &mut ids,
        1_700_000_000_000,
        "auth_service".to_string(),
        "ValidateSession".to_string(),
        serde_json::Value::from("abc123"),
    );

    assert!(envelope.expects_reply);
    assert_eq!(envelope.response_timeout_ms, 30_000);
    assert_eq!(envelope.with_timeout(5).response_timeout_ms, 5);
}

#[test]
fn test_ipc_response_extract_success() {
    let mut payload = serde_json::Map::new();
    payload.insert("value".to_string(), serde_json::Value::from(42));
    let response = IpcResponse {
        correlation_id: "req_001".to_string(),
        success: true,
        error: None,
        error_code: None,
        payload: Some(serde_json::Value::Object(payload)),
    };

    let extracted = response.extract_value();
    assert!(extracted.is_ok());
    assert_eq!(extracted.unwrap()["value"], serde_json::Value::from(42));
}

#[test]
fn test_ipc_response_extract_error() {
    let response = IpcResponse {
        correlation_id: "req_001".to_string(),
        success: false,
        error: Some("Session not found".to_string()),
        error_code: Some("SESSION_NOT_FOUND".to_string()),
        payload: None,
    };

    let extracted = response.extract_value();
    assert!(extracted.is_err());

    match extracted.unwrap_err() {
        ClientError::ServiceError { code, message } => {
            assert_eq!(code, "SESSION_NOT_FOUND");
            assert_eq!(message, "Session not found");
        }
        _ => panic!("Expected ServiceError"),
    }
}

#[test]
fn response_error_defaults_and_missing_payload() {
    let response = IpcResponse {
        correlation_id: "req_002".to_string(),
        success: false,
        error: None,
        error_code: None,
        payload: None,
    };
    match response.extract_value().unwrap_err() {
        ClientError::ServiceError { code, message } => {
            assert_eq!(code, "UNKNOWN");
            assert_eq!(message, "Unknown error");
        }
        _ => panic!("Expected ServiceError"),
    }
    let response = IpcResponse {
        correlation_id: "req_003".to_string(),
        success: true,
        error: None,
        error_code: None,
        payload: None,
    };
    assert!(response.is_success());
    match response.extract_value().unwrap_err() {
        ClientError::ResponseError(m) => assert_eq!(m, "No payload in response"),
        _ => panic!("Expected ResponseError"),
    }
}

#[test]
fn test_correlation_id_uniqueness() {
    let mut ids = CorrelationIdGenerator::new();
    let now = 1_700_000_000_000;
    let id1 = ids.generate_correlation_id(now);
    let id2 = ids.generate_correlation_id(now);
    let id3 = ids.generate_correlation_id(now);

    assert_ne!(id1, id2);
    assert_ne!(id2, id3);
    assert_ne!(id1, id3);
}

#[test]
fn correlation_id_format() {
    assert_eq!(correlation_id(0x18c5, 1), "req_18c5_00000001");
    assert_eq!(correlation_id(255, 0x1_0000_0000), "req_ff_100000000");
    let mut ids = CorrelationIdGenerator { next: u64::MAX };
    assert_eq!(ids.generate_correlation_id(0x2a), "req_2a_ffffffffffffffff");
    assert_eq!(ids.next, 0);
}

#[test]
fn test_ipc_client_config_default() {
    let config = IpcClientConfig::default();

    assert_eq!(config.timeout_ms, 30_000);
    assert_eq!(config.max_retries, 3);
    assert_eq!(config.retry_delay_ms, 100);
    assert_eq!(config.max_message_size, 1_048_576);
    assert!(config.socket_path.ends_with("/acton/acton-dx/ipc.sock"));
}

#[test]
fn client_config_from_transport() {
    let t = IpcTransportConfig::default().with_socket_path("/s.sock".to_string()).with_timeout_ms(5);
    let c = IpcClientConfig::from_transport_config(&t);
    assert_eq!(c.socket_path, "/s.sock");
    assert_eq!(c.timeout_ms, 5);
    let c = c.with_socket_path("/other.sock".to_string());
    assert_eq!(c.socket_path, "/other.sock");
}

#[test]
fn frame_encoding_layout() {
    let frame = encode_frame(MSG_REQUEST, b"{}");
    assert_eq!(frame, vec![0, 0, 0, 5, 2, 1, 1, b'{', b'}']);
    let big = vec![7u8; 300];
    let frame = encode_frame(MSG_RESPONSE, &big);
    assert_eq!(&frame[..7], &[0, 0, 1, 47, 2, 2, 1]);
    assert_eq!(frame.len(), 307);
}

#[test]
fn frame_roundtrip() {
    let payload = br#"{"correlation_id":"x","success":true}"#;
    for t in [MSG_RESPONSE, MSG_ERROR] {
        let frame = encode_frame(t, payload);
        let len = frame_length([frame[0], frame[1], frame[2], frame[3]], 1_048_576).unwrap();
        assert_eq!(len, frame.len() - 4);
        assert_eq!(reply_payload(&frame[4..]).unwrap(), payload.to_vec());
    }
}

#[test]
fn frame_errors() {
    match frame_length([0, 0, 0, 200], 100).unwrap_err() {
        ClientError::ResponseError(m) => assert_eq!(m, "Frame too large: 200 > 100"),
        _ => panic!("Expected ResponseError"),
    }
    match frame_length([0, 0, 0, 2], 100).unwrap_err() {
        ClientError::ResponseError(m) => assert_eq!(m, "Frame too small"),
        _ => panic!("Expected ResponseError"),
    }
    let frame = encode_frame(MSG_PUSH, b"{}");
    match reply_payload(&frame[4..]).unwrap_err() {
        ClientError::ResponseError(m) => assert_eq!(m, "Unexpected message type: 5"),
        _ => panic!("Expected ResponseError"),
    }
}

#[test]
fn connect_attempts_retry_then_fail() {
    let a = ConnectAttempts::new(2, 100);
    assert_eq!(a.delay_before_attempt(), None);
    let a = a.after_failure("refused".to_string()).unwrap();
    assert_eq!(a.delay_before_attempt(), Some(100));
    let a = a.after_failure("refused".to_string()).unwrap();
    match a.after_failure("refused again".to_string()).unwrap_err() {
        ClientError::ConnectionFailed(m) => assert_eq!(m, "refused again"),
        _ => panic!("Expected ConnectionFailed"),
    }
}

#[test]
fn client_error_messages() {
    assert_eq!(ClientError::Timeout.message(), "Request timed out");
    assert_eq!(ClientError::NotConfigured("auth").message(), "Service not configured: auth");
    assert_eq!(
        ClientError::ServiceError { code: "E1".to_string(), message: "bad".to_string() }.message(),
        "Service error [E1]: bad"
    );
    assert_eq!(ClientError::IoError("x".to_string()).message(), "I/O error: x");
}
