//! Transport configuration for service communication: IPC over Unix domain
//! sockets (the default) or gRPC, with an optional fallback to the other.

use vstd::prelude::*;
use crate::text::{decimal, push_decimal, chars_of, string_push};

verus! {

/// Type of transport to use for service communication.
#[derive(Debug, Clone, Copy, PartialEq, Eq, Structural)]
pub enum TransportType {
    /// Inter-Process Communication via Unix Domain Sockets (default).
    Ipc,
    /// gRPC over HTTP/2.
    Grpc,
}

impl TransportType {
    /// The default transport (IPC).
    pub fn default() -> (t: TransportType)
        ensures
            t == TransportType::Ipc,
    {
        TransportType::Ipc
    }

    /// The lower-case name of the transport (`ipc` or `grpc`).
    pub fn as_str(&self) -> (r: &'static str)
        ensures
            r@ == (match *self {
                TransportType::Ipc => "ipc"@,
                TransportType::Grpc => "grpc"@,
            }),
    {
        match self {
            TransportType::Ipc => "ipc",
            TransportType::Grpc => "grpc",
        }
    }
}

/// Configuration for IPC transport.
#[derive(Debug, Clone)]
pub struct IpcTransportConfig {
    /// Optional custom socket path.
    pub socket_path: Option<String>,
    /// Application name for socket path generation.
    pub app_name: String,
    /// Request timeout in milliseconds.
    pub timeout_ms: u64,
    /// Maximum number of connection retries.
    pub max_retries: u32,
    /// Delay between retries in milliseconds.
    pub retry_delay_ms: u64,
    /// Enable reconnection on connection loss.
    pub auto_reconnect: bool,
    /// Maximum message size in bytes.
    pub max_message_size: usize,
}

/// The runtime directory of the user (`dirs::runtime_dir`), as text.
///
/// The result depends on the environment (`$XDG_RUNTIME_DIR` on Linux, and
/// nothing on other systems), so no clause names it; the crate hands out
/// only absolute paths, so a directory it gives starts with `/`.
#[verifier::external_body]
fn runtime_dir() -> (r: Option<String>)
    ensures
        r matches Some(d) ==> d@.len() > 0 && d@[0] == '/',
{
    dirs::runtime_dir().map(|p| p.to_string_lossy().into_owned())
}

/// Whether a runtime directory, when there is one, is an absolute path.
pub open spec fn absolute_dir(d: Option<Seq<char>>) -> bool {
    d matches Some(x) ==> x.len() > 0 && x[0] == '/'
}

/// A path extended by one component, as `PathBuf::join` does on Unix: an
/// absolute component (starting with `/`) replaces the path; otherwise a
/// `/` is put between them unless the path is empty or already ends in `/`.
pub open spec fn path_join(base: Seq<char>, part: Seq<char>) -> Seq<char> {
    if part.len() > 0 && part[0] == '/' {
        part
    } else if base.len() > 0 && base.last() != '/' {
        base + seq!['/'] + part
    } else {
        base + part
    }
}

/// The socket path under a base directory: `<base>/acton/<app>/ipc.sock`,
/// each component joined as `PathBuf::join` joins it.
pub open spec fn socket_under(base: Seq<char>, app: Seq<char>) -> Seq<char> {
    path_join(path_join(path_join(base, "acton"@), app), "ipc.sock"@)
}

/// The socket path for a configuration, given the runtime directory:
/// the explicit path when set, else `acton/<app>/ipc.sock` under the
/// runtime directory, or under `/tmp` when there is none.
pub open spec fn socket_path_from(c: IpcTransportConfig, runtime: Option<Seq<char>>) -> Seq<char> {
    match c.socket_path {
        Some(p) => p@,
        None => {
            let base = match runtime {
                Some(d) => d,
                None => "/tmp"@,
            };
            socket_under(base, c.app_name@)
        },
    }
}

/// Extend a path by one component (see `path_join`).
fn join_path(base: String, part: &str) -> (r: String)
    ensures
        r@ == path_join(base@, part@),
{
    let pc = chars_of(part);
    if pc.len() > 0 && pc[0] == '/' {
        return String::from_str(part);
    }
    let bc = chars_of(base.as_str());
    let mut r = base;
    if bc.len() > 0 && bc[bc.len() - 1] != '/' {
        string_push(&mut r, '/');
    }
    r.append(part);
    r
}

/// The text held by an optional string.
pub open spec fn text_of(o: Option<String>) -> Option<Seq<char>> {
    match o {
        Some(s) => Some(s@),
        None => None,
    }
}

/// Whether an IPC configuration holds the default settings.
pub open spec fn is_default_ipc(c: IpcTransportConfig) -> bool {
    &&& c.socket_path.is_none()
    &&& c.app_name@ == "acton-dx"@
    &&& c.timeout_ms == 30_000
    &&& c.max_retries == 3
    &&& c.retry_delay_ms == 100
    &&& c.auto_reconnect
    &&& c.max_message_size == 1_048_576
}

/// Whether a gRPC configuration holds the default settings: no endpoints,
/// no timeout, no TLS.
pub open spec fn is_default_grpc(c: GrpcTransportConfig) -> bool {
    &&& c.auth_endpoint.is_none() && c.data_endpoint.is_none() && c.cedar_endpoint.is_none()
    &&& c.cache_endpoint.is_none() && c.email_endpoint.is_none() && c.file_endpoint.is_none()
    &&& c.timeout_ms == 0
    &&& !c.tls_enabled
}

impl IpcTransportConfig {
    /// Defaults: no explicit socket, app `acton-dx`, 30 s timeout, 3 retries
    /// 100 ms apart, reconnecting, 1 MiB messages.
    pub fn default() -> (c: IpcTransportConfig)
        ensures
            c.socket_path.is_none(),
            c.app_name@ == "acton-dx"@,
            c.timeout_ms == 30_000,
            c.max_retries == 3,
            c.retry_delay_ms == 100,
            c.auto_reconnect,
            c.max_message_size == 1_048_576,
    {
        IpcTransportConfig {
            socket_path: None,
            app_name: String::from_str("acton-dx"),
            timeout_ms: 30_000,
            max_retries: 3,
            retry_delay_ms: 100,
            auto_reconnect: true,
            max_message_size: 1_048_576,
        }
    }

    /// The socket path given the runtime directory (see `socket_path_from`).
    pub fn socket_path_with(&self, runtime: Option<String>) -> (p: String)
        ensures
            p@ == socket_path_from(*self, text_of(runtime)),
    {
        match &self.socket_path {
            Some(path) => path.clone(),
            None => {
                let base = match runtime {
                    Some(d) => d,
                    None => String::from_str("/tmp"),
                };
                let s = join_path(base, "acton");
                let s = join_path(s, self.app_name.as_str());
                join_path(s, "ipc.sock")
            },
        }
    }

    /// The socket path to use: the explicit one, or an XDG-compliant default
    /// under the user's runtime directory (or `/tmp`).
    pub fn socket_path(&self) -> (p: String)
        ensures
            self.socket_path matches Some(s) ==> p@ == s@,
            exists|d: Option<Seq<char>>| p@ == socket_path_from(*self, d) && absolute_dir(d),
    {
        let dir = runtime_dir();
        let ghost d = text_of(dir);
        let p = self.socket_path_with(dir);
        assert(p@ == socket_path_from(*self, d));
        assert(absolute_dir(d));
        p
    }

    /// Use a specific socket path.
    pub fn with_socket_path(self, path: String) -> (c: IpcTransportConfig)
        ensures
            c == (IpcTransportConfig { socket_path: Some(path), ..self }),
    {
        let mut c = self;
        c.socket_path = Some(path);
        c
    }

    /// Use a specific app name.
    pub fn with_app_name(self, name: String) -> (c: IpcTransportConfig)
        ensures
            c == (IpcTransportConfig { app_name: name, ..self }),
    {
        let mut c = self;
        c.app_name = name;
        c
    }

    /// Use a specific request timeout.
    pub fn with_timeout_ms(self, timeout: u64) -> (c: IpcTransportConfig)
        ensures
            c == (IpcTransportConfig { timeout_ms: timeout, ..self }),
    {
        let mut c = self;
        c.timeout_ms = timeout;
        c
    }

    /// Use specific retry settings.
    pub fn with_retries(self, max_retries: u32, delay_ms: u64) -> (c: IpcTransportConfig)
        ensures
            c == (IpcTransportConfig { max_retries, retry_delay_ms: delay_ms, ..self }),
    {
        let mut c = self;
        c.max_retries = max_retries;
        c.retry_delay_ms = delay_ms;
        c
    }
}

/// Configuration for gRPC transport.
#[derive(Debug, Clone)]
pub struct GrpcTransportConfig {
    /// Auth service endpoint (e.g., `"http://localhost:50051"`).
    pub auth_endpoint: Option<String>,
    /// Data service endpoint.
    pub data_endpoint: Option<String>,
    /// Cedar service endpoint.
    pub cedar_endpoint: Option<String>,
    /// Cache service endpoint.
    pub cache_endpoint: Option<String>,
    /// Email service endpoint.
    pub email_endpoint: Option<String>,
    /// File service endpoint.
    pub file_endpoint: Option<String>,
    /// Request timeout in milliseconds.
    pub timeout_ms: u64,
    /// Enable TLS for connections.
    pub tls_enabled: bool,
}

/// `http://localhost:<port>`.
pub open spec fn localhost_endpoint(port: nat) -> Seq<char> {
    "http://localhost:"@ + decimal(port)
}

fn localhost_url(port: u16) -> (s: String)
    ensures
        s@ == localhost_endpoint(port as nat),
{
    let mut s = String::from_str("http://localhost:");
    push_decimal(&mut s, port as u64);
    s
}

impl GrpcTransportConfig {
    /// No endpoints, no timeout, no TLS.
    pub fn default() -> (c: GrpcTransportConfig)
        ensures
            c.auth_endpoint.is_none() && c.data_endpoint.is_none() && c.cedar_endpoint.is_none(),
            c.cache_endpoint.is_none() && c.email_endpoint.is_none() && c.file_endpoint.is_none(),
            c.timeout_ms == 0,
            !c.tls_enabled,
    {
        GrpcTransportConfig {
            auth_endpoint: None,
            data_endpoint: None,
            cedar_endpoint: None,
            cache_endpoint: None,
            email_endpoint: None,
            file_endpoint: None,
            timeout_ms: 0,
            tls_enabled: false,
        }
    }

    /// No endpoints, a 30 s timeout, no TLS.
    pub fn new() -> (c: GrpcTransportConfig)
        ensures
            c.auth_endpoint.is_none() && c.data_endpoint.is_none() && c.cedar_endpoint.is_none(),
            c.cache_endpoint.is_none() && c.email_endpoint.is_none() && c.file_endpoint.is_none(),
            c.timeout_ms == 30_000,
            !c.tls_enabled,
    {
        let mut c = GrpcTransportConfig::default();
        c.timeout_ms = 30_000;
        c
    }

    /// Set the auth service endpoint.
    pub fn with_auth_endpoint(self, endpoint: String) -> (c: GrpcTransportConfig)
        ensures
            c == (GrpcTransportConfig { auth_endpoint: Some(endpoint), ..self }),
    {
        let mut c = self;
        c.auth_endpoint = Some(endpoint);
        c
    }

    /// Set the data service endpoint.
    pub fn with_data_endpoint(self, endpoint: String) -> (c: GrpcTransportConfig)
        ensures
            c == (GrpcTransportConfig { data_endpoint: Some(endpoint), ..self }),
    {
        let mut c = self;
        c.data_endpoint = Some(endpoint);
        c
    }

    /// Set the cedar service endpoint.
    pub fn with_cedar_endpoint(self, endpoint: String) -> (c: GrpcTransportConfig)
        ensures
            c == (GrpcTransportConfig { cedar_endpoint: Some(endpoint), ..self }),
    {
        let mut c = self;
        c.cedar_endpoint = Some(endpoint);
        c
    }

    /// Set the cache service endpoint.
    pub fn with_cache_endpoint(self, endpoint: String) -> (c: GrpcTransportConfig)
        ensures
            c == (GrpcTransportConfig { cache_endpoint: Some(endpoint), ..self }),
    {
        let mut c = self;
        c.cache_endpoint = Some(endpoint);
        c
    }

    /// Set the email service endpoint.
    pub fn with_email_endpoint(self, endpoint: String) -> (c: GrpcTransportConfig)
        ensures
            c == (GrpcTransportConfig { email_endpoint: Some(endpoint), ..self }),
    {
        let mut c = self;
        c.email_endpoint = Some(endpoint);
        c
    }

    /// Set the file service endpoint.
    pub fn with_file_endpoint(self, endpoint: String) -> (c: GrpcTransportConfig)
        ensures
            c == (GrpcTransportConfig { file_endpoint: Some(endpoint), ..self }),
    {
        let mut c = self;
        c.file_endpoint = Some(endpoint);
        c
    }

    /// All endpoints on localhost with sequential ports starting at
    /// `base_port` (auth, data, cedar, cache, email, file), 30 s timeout, no TLS.
    pub fn localhost(base_port: u16) -> (c: GrpcTransportConfig)
        requires
            base_port + 5 <= u16::MAX,
        ensures
            c.auth_endpoint matches Some(e) && e@ == localhost_endpoint(base_port as nat),
            c.data_endpoint matches Some(e) && e@ == localhost_endpoint((base_port + 1) as nat),
            c.cedar_endpoint matches Some(e) && e@ == localhost_endpoint((base_port + 2) as nat),
            c.cache_endpoint matches Some(e) && e@ == localhost_endpoint((base_port + 3) as nat),
            c.email_endpoint matches Some(e) && e@ == localhost_endpoint((base_port + 4) as nat),
            c.file_endpoint matches Some(e) && e@ == localhost_endpoint((base_port + 5) as nat),
            c.timeout_ms == 30_000,
            !c.tls_enabled,
    {
        GrpcTransportConfig {
            auth_endpoint: Some(localhost_url(base_port)),
            data_endpoint: Some(localhost_url(base_port + 1)),
            cedar_endpoint: Some(localhost_url(base_port + 2)),
            cache_endpoint: Some(localhost_url(base_port + 3)),
            email_endpoint: Some(localhost_url(base_port + 4)),
            file_endpoint: Some(localhost_url(base_port + 5)),
            timeout_ms: 30_000,
            tls_enabled: false,
        }
    }
}

/// Fallback configuration when the primary transport fails.
#[derive(Debug, Clone, Copy, PartialEq, Eq)]
pub struct FallbackConfig {
    /// Enable fallback to alternative transport.
    pub enabled: bool,
    /// The fallback transport type.
    pub fallback_type: Option<TransportType>,
    /// Maximum time to wait before trying fallback (milliseconds).
    pub fallback_timeout_ms: u64,
    /// Log fallback events.
    pub log_fallback: bool,
}

/// The default fallback settings: disabled, no type, 1 s timeout, logging on.
pub open spec fn default_fallback() -> FallbackConfig {
    FallbackConfig { enabled: false, fallback_type: None, fallback_timeout_ms: 1_000, log_fallback: true }
}

impl FallbackConfig {
    /// Fallback disabled, no type, 1 s timeout, logging on.
    pub fn default() -> (c: FallbackConfig)
        ensures
            c == default_fallback(),
    {
        FallbackConfig { enabled: false, fallback_type: None, fallback_timeout_ms: 1_000, log_fallback: true }
    }

    /// Enable fallback to the transport other than `primary`.
    pub fn enable_auto(primary: TransportType) -> (c: FallbackConfig)
        ensures
            c.enabled,
            c.fallback_type == Some(match primary {
                TransportType::Ipc => TransportType::Grpc,
                TransportType::Grpc => TransportType::Ipc,
            }),
            c.fallback_timeout_ms == 1_000,
            c.log_fallback,
    {
        let fallback_type = match primary {
            TransportType::Ipc => TransportType::Grpc,
            TransportType::Grpc => TransportType::Ipc,
        };
        FallbackConfig { enabled: true, fallback_type: Some(fallback_type), fallback_timeout_ms: 1_000, log_fallback: true }
    }
}

/// Law: the automatic fallback of a transport is never that transport, and
/// the fallback of the fallback is the transport itself.
pub proof fn law_fallback_is_other(primary: TransportType)
    ensures
        ({
            let other = match primary {
                TransportType::Ipc => TransportType::Grpc,
                TransportType::Grpc => TransportType::Ipc,
            };
            &&& other != primary
            &&& (match other {
                TransportType::Ipc => TransportType::Grpc,
                TransportType::Grpc => TransportType::Ipc,
            }) == primary
        }),
{
}

/// Transport configuration for service communication.
#[derive(Debug, Clone)]
pub struct TransportConfig {
    /// The transport type to use (default: IPC).
    pub transport_type: TransportType,
    /// IPC transport configuration.
    pub ipc: IpcTransportConfig,
    /// gRPC transport configuration.
    pub grpc: GrpcTransportConfig,
    /// Fallback behaviour when the primary transport fails.
    pub fallback: FallbackConfig,
}

impl TransportConfig {
    /// IPC with default IPC, gRPC and fallback settings.
    pub fn default() -> (c: TransportConfig)
        ensures
            c.transport_type == TransportType::Ipc,
            c.ipc.socket_path.is_none() && c.ipc.app_name@ == "acton-dx"@ && c.ipc.timeout_ms == 30_000,
            c.grpc.timeout_ms == 0 && c.grpc.auth_endpoint.is_none(),
            is_default_ipc(c.ipc),
            is_default_grpc(c.grpc),
            c.fallback == default_fallback(),
    {
        TransportConfig {
            transport_type: TransportType::Ipc,
            ipc: IpcTransportConfig::default(),
            grpc: GrpcTransportConfig::default(),
            fallback: FallbackConfig::default(),
        }
    }

    /// The default configuration with IPC selected.
    pub fn ipc() -> (c: TransportConfig)
        ensures
            c.transport_type == TransportType::Ipc,
            c.ipc.socket_path.is_none() && c.ipc.app_name@ == "acton-dx"@ && c.ipc.timeout_ms == 30_000,
            is_default_ipc(c.ipc),
            is_default_grpc(c.grpc),
            c.fallback == default_fallback(),
    {
        TransportConfig::default()
    }

    /// The default configuration with gRPC selected.
    pub fn grpc() -> (c: TransportConfig)
        ensures
            c.transport_type == TransportType::Grpc,
            c.ipc.socket_path.is_none() && c.ipc.app_name@ == "acton-dx"@ && c.ipc.timeout_ms == 30_000,
            is_default_ipc(c.ipc),
            is_default_grpc(c.grpc),
            c.fallback == default_fallback(),
    {
        let mut c = TransportConfig::default();
        c.transport_type = TransportType::Grpc;
        c
    }

    /// Set the transport type.
    pub fn with_transport_type(self, transport_type: TransportType) -> (c: TransportConfig)
        ensures
            c == (TransportConfig { transport_type, ..self }),
    {
        let mut c = self;
        c.transport_type = transport_type;
        c
    }

    /// Configure IPC transport settings.
    pub fn with_ipc_config(self, config: IpcTransportConfig) -> (c: TransportConfig)
        ensures
            c == (TransportConfig { ipc: config, ..self }),
    {
        let mut c = self;
        c.ipc = config;
        c
    }

    /// Configure gRPC transport settings.
    pub fn with_grpc_config(self, config: GrpcTransportConfig) -> (c: TransportConfig)
        ensures
            c == (TransportConfig { grpc: config, ..self }),
    {
        let mut c = self;
        c.grpc = config;
        c
    }

    /// Configure fallback behaviour.
    pub fn with_fallback(self, fallback: FallbackConfig) -> (c: TransportConfig)
        ensures
            c == (TransportConfig { fallback, ..self }),
    {
        let mut c = self;
        c.fallback = fallback;
        c
    }

    /// Whether IPC transport is selected.
    pub fn is_ipc(&self) -> (r: bool)
        ensures
            r == (self.transport_type == TransportType::Ipc),
    {
        self.transport_type == TransportType::Ipc
    }

    /// Whether gRPC transport is selected.
    pub fn is_grpc(&self) -> (r: bool)
        ensures
            r == (self.transport_type == TransportType::Grpc),
    {
        self.transport_type == TransportType::Grpc
    }
}

} // verus!
