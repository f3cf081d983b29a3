//! Errors of service client operations.

use vstd::prelude::*;

verus! {

/// Error type for service client operations.
#[derive(Debug, Clone)]
pub enum ClientError {
    /// Service is not configured.
    NotConfigured(&'static str),
    /// Connection to service failed.
    ConnectionFailed(String),
    /// Request to service failed.
    RequestFailed(String),
    /// Service returned an error status (older form without a code).
    ServiceErrorLegacy(String),
    /// Service returned an error with code and message.
    ServiceError {
        /// Machine-readable error code.
        code: String,
        /// Human-readable error message.
        message: String,
    },
    /// Response parsing failed.
    ResponseError(String),
    /// Circuit breaker is open.
    CircuitOpen(&'static str),
    /// Request timed out.
    Timeout,
    /// Serialization failed.
    SerializationError(String),
    /// Deserialization failed.
    DeserializationError(String),
    /// I/O error during communication.
    IoError(String),
    /// IPC socket not found.
    SocketNotFound(String),
    /// Transport not available.
    TransportUnavailable(String),
}

/// The human-readable text of an error.
pub open spec fn error_text(e: ClientError) -> Seq<char> {
    match e {
        ClientError::NotConfigured(s) => "Service not configured: "@ + s@,
        ClientError::ConnectionFailed(m) => "Connection failed: "@ + m@,
        ClientError::RequestFailed(m) => "Request failed: "@ + m@,
        ClientError::ServiceErrorLegacy(m) => "Service error: "@ + m@,
        ClientError::ServiceError { code, message } => "Service error ["@ + code@ + "]: "@ + message@,
        ClientError::ResponseError(m) => "Response error: "@ + m@,
        ClientError::CircuitOpen(s) => "Circuit breaker open for: "@ + s@,
        ClientError::Timeout => "Request timed out"@,
        ClientError::SerializationError(m) => "Serialization error: "@ + m@,
        ClientError::DeserializationError(m) => "Deserialization error: "@ + m@,
        ClientError::IoError(m) => "I/O error: "@ + m@,
        ClientError::SocketNotFound(p) => "IPC socket not found: "@ + p@,
        ClientError::TransportUnavailable(m) => "Transport unavailable: "@ + m@,
    }
}

/// `prefix` followed by `rest`, as a new string.
fn prefixed(prefix: &str, rest: &str) -> (s: String)
    ensures
        s@ == prefix@ + rest@,
{
    let mut s = String::from_str(prefix);
    s.append(rest);
    s
}

impl ClientError {
    /// The human-readable text of the error.
    pub fn message(&self) -> (s: String)
        ensures
            s@ == error_text(*self),
    {
        match self {
            ClientError::NotConfigured(service) => prefixed("Service not configured: ", service),
            ClientError::ConnectionFailed(msg) => prefixed("Connection failed: ", msg.as_str()),
            ClientError::RequestFailed(msg) => prefixed("Request failed: ", msg.as_str()),
            ClientError::ServiceErrorLegacy(msg) => prefixed("Service error: ", msg.as_str()),
            ClientError::ServiceError { code, message } => {
                let mut s = prefixed("Service error [", code.as_str());
                s.append("]: ");
                s.append(message.as_str());
                s
            },
            ClientError::ResponseError(msg) => prefixed("Response error: ", msg.as_str()),
            ClientError::CircuitOpen(service) => prefixed("Circuit breaker open for: ", service),
            ClientError::Timeout => String::from_str("Request timed out"),
            ClientError::SerializationError(msg) => prefixed("Serialization error: ", msg.as_str()),
            ClientError::DeserializationError(msg) => prefixed("Deserialization error: ", msg.as_str()),
            ClientError::IoError(msg) => prefixed("I/O error: ", msg.as_str()),
            ClientError::SocketNotFound(path) => prefixed("IPC socket not found: ", path.as_str()),
            ClientError::TransportUnavailable(msg) => prefixed("Transport unavailable: ", msg.as_str()),
        }
    }
}

} // verus!
