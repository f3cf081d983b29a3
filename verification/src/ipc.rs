//! The IPC wire protocol spoken with the services over a Unix domain socket,
//! and the values exchanged over it.
//!
//! ```text
//! +-------------------------------------------------------------+
//! | Frame Length (4 bytes, big-endian u32)                      |
//! | Protocol Version (1 byte, 0x02)                             |
//! | Message Type (1 byte: Request=0x01, Response=0x02, ...)     |
//! | Format (1 byte: JSON=0x01, MessagePack=0x02)                |
//! | Payload (JSON or MessagePack encoded)                       |
//! +-------------------------------------------------------------+
//! ```
//!
//! The frame length counts the three header bytes and the payload, not the
//! four length bytes themselves.

use vstd::prelude::*;
use std::collections::HashMap;
use crate::error::ClientError;
use crate::text::{decimal, hex, zero_pad, push_decimal, push_hex, push_hex_padded, digit_char};
use crate::transport::{IpcTransportConfig, socket_path_from, socket_under, absolute_dir};

verus! {

/// Protocol version for IPC communication.
pub const PROTOCOL_VERSION: u8 = 2;

/// Message type: request.
pub const MSG_REQUEST: u8 = 1;
/// Message type: response.
pub const MSG_RESPONSE: u8 = 2;
/// Message type: error.
pub const MSG_ERROR: u8 = 3;
/// Message type: heartbeat.
pub const MSG_HEARTBEAT: u8 = 4;
/// Message type: push notification.
pub const MSG_PUSH: u8 = 5;
/// Message type: subscribe.
pub const MSG_SUBSCRIBE: u8 = 6;
/// Message type: unsubscribe.
pub const MSG_UNSUBSCRIBE: u8 = 7;
/// Message type: service discovery.
pub const MSG_DISCOVERY: u8 = 8;

/// Serialization format: JSON.
pub const FORMAT_JSON: u8 = 1;
/// Serialization format: MessagePack.
pub const FORMAT_MESSAGEPACK: u8 = 2;

/// Default response timeout of an envelope, in milliseconds.
pub const DEFAULT_RESPONSE_TIMEOUT_MS: u64 = 30_000;

// ---------------------------------------------------------------------------
// Framing
// ---------------------------------------------------------------------------

/// The four big-endian bytes of `n` modulo 2^32.
pub open spec fn be32(n: nat) -> Seq<u8> {
    seq![
        (n / 0x100_0000 % 0x100) as u8,
        (n / 0x1_0000 % 0x100) as u8,
        (n / 0x100 % 0x100) as u8,
        (n % 0x100) as u8,
    ]
}

/// The number that four big-endian bytes stand for.
pub open spec fn be32_value(b: Seq<u8>) -> nat {
    (b[0] as nat) * 0x100_0000 + (b[1] as nat) * 0x1_0000 + (b[2] as nat) * 0x100 + (b[3] as nat)
}

/// The frame carrying `payload` as a JSON message of type `msg_type`: the
/// length (three header bytes plus the payload, modulo 2^32), the protocol
/// version, the type, the format, then the payload.
pub open spec fn frame_bytes(msg_type: u8, payload: Seq<u8>) -> Seq<u8> {
    be32((3 + payload.len()) % 0x1_0000_0000) + seq![PROTOCOL_VERSION, msg_type, FORMAT_JSON] + payload
}

/// Whether a message type is one the client accepts as a reply.
pub open spec fn is_reply_type(t: u8) -> bool {
    t == MSG_RESPONSE || t == MSG_ERROR
}

/// Text of the error for a frame longer than allowed.
pub open spec fn frame_too_large_text(len: nat, max: nat) -> Seq<char> {
    "Frame too large: "@ + decimal(len) + " > "@ + decimal(max)
}

/// Text of the error for a frame of an unexpected message type.
pub open spec fn unexpected_type_text(t: u8) -> Seq<char> {
    "Unexpected message type: "@ + decimal(t as nat)
}

/// Builds the frame that carries `payload` as a JSON message of type `msg_type`.
pub fn encode_frame(msg_type: u8, payload: &[u8]) -> (frame: Vec<u8>)
    requires
        payload@.len() + 3 <= usize::MAX,
    ensures
        frame@ == frame_bytes(msg_type, payload@),
{
    let frame_len: usize = 3 + payload.len();
    let n: u64 = (frame_len as u64) % 0x1_0000_0000;
    let mut frame: Vec<u8> = Vec::new();
    frame.push((n / 0x100_0000) as u8);
    frame.push((n / 0x1_0000 % 0x100) as u8);
    frame.push((n / 0x100 % 0x100) as u8);
    frame.push((n % 0x100) as u8);
    frame.push(PROTOCOL_VERSION);
    frame.push(msg_type);
    frame.push(FORMAT_JSON);
    let ghost head = frame@;
    assert(head =~= be32((3 + payload@.len()) % 0x1_0000_0000) + seq![PROTOCOL_VERSION, msg_type, FORMAT_JSON]);
    let mut i: usize = 0;
    while i < payload.len()
        invariant
            i <= payload@.len(),
            frame@ == head + payload@.take(i as int),
        decreases payload@.len() - i,
    {
        frame.push(payload[i]);
        assert(payload@.take(i as int + 1) =~= payload@.take(i as int).push(payload@[i as int]));
        i = i + 1;
    }
    assert(payload@.take(i as int) =~= payload@);
    frame
}

/// Reads the frame length from the four length bytes and checks it against
/// `max_size`: a frame longer than `max_size`, or too short to hold the
/// three header bytes, is refused.
pub fn frame_length(len_buf: [u8; 4], max_size: usize) -> (r: Result<usize, ClientError>)
    ensures
        ({
            let v = be32_value(len_buf@);
            match r {
                Ok(n) => n == v && 3 <= v <= max_size,
                Err(ClientError::ResponseError(m)) => if v > max_size {
                    m@ == frame_too_large_text(v, max_size as nat)
                } else {
                    v < 3 && m@ == "Frame too small"@
                },
                Err(_) => false,
            }
        }),
{
    let v: u64 = (len_buf[0] as u64) * 0x100_0000 + (len_buf[1] as u64) * 0x1_0000
        + (len_buf[2] as u64) * 0x100 + (len_buf[3] as u64);
    assert(v == be32_value(len_buf@));
    let frame_len = v as usize;
    if frame_len > max_size {
        let mut m = String::from_str("Frame too large: ");
        push_decimal(&mut m, frame_len as u64);
        m.append(" > ");
        push_decimal(&mut m, max_size as u64);
        return Err(ClientError::ResponseError(m));
    }
    if frame_len < 3 {
        return Err(ClientError::ResponseError(String::from_str("Frame too small")));
    }
    Ok(frame_len)
}

/// The payload of a reply frame (the bytes after the length): the bytes
/// after the three header bytes, for a response or error message; any other
/// message type is refused.
pub fn reply_payload(frame: &[u8]) -> (r: Result<Vec<u8>, ClientError>)
    requires
        frame@.len() >= 3,
    ensures
        is_reply_type(frame@[1]) ==> (r matches Ok(p) && p@ == frame@.skip(3)),
        !is_reply_type(frame@[1]) ==> (r matches Err(ClientError::ResponseError(m))
            && m@ == unexpected_type_text(frame@[1])),
{
    let msg_type = frame[1];
    if msg_type == MSG_RESPONSE || msg_type == MSG_ERROR {
        let mut p: Vec<u8> = Vec::new();
        let mut i: usize = 3;
        while i < frame.len()
            invariant
                3 <= i <= frame@.len(),
                p@ == frame@.subrange(3, i as int),
            decreases frame@.len() - i,
        {
            p.push(frame[i]);
            assert(frame@.subrange(3, i as int + 1) =~= frame@.subrange(3, i as int).push(frame@[i as int]));
            i = i + 1;
        }
        assert(frame@.subrange(3, i as int) =~= frame@.skip(3));
        Ok(p)
    } else {
        let mut m = String::from_str("Unexpected message type: ");
        push_decimal(&mut m, msg_type as u64);
        Err(ClientError::ResponseError(m))
    }
}

proof fn lemma_be32_value(n: nat)
    requires
        n < 0x1_0000_0000,
    ensures
        be32_value(be32(n)) == n,
        be32(n).len() == 4,
{
    let b = be32(n);
    assert(b[0] as nat == n / 0x100_0000);
    assert(b[1] as nat == n / 0x1_0000 % 0x100);
    assert(b[2] as nat == n / 0x100 % 0x100);
    assert(b[3] as nat == n % 0x100);
    assert((n / 0x100_0000) * 0x100_0000 + (n / 0x1_0000 % 0x100) * 0x1_0000
        + (n / 0x100 % 0x100) * 0x100 + n % 0x100 == n) by (nonlinear_arith)
        requires
            n < 0x1_0000_0000,
    ;
}

/// Law: a frame written for a payload reads back as that payload. Its length
/// field counts exactly the bytes after it, the header holds the protocol
/// version, the message type and the JSON format, and the rest is the
/// payload. So a reply frame passes `frame_length` whenever its length is
/// within the limit, and `reply_payload` gives the payload back.
pub proof fn law_frame_roundtrip(msg_type: u8, payload: Seq<u8>)
    requires
        3 + payload.len() < 0x1_0000_0000,
    ensures
        ({
            let f = frame_bytes(msg_type, payload);
            let body = f.skip(4);
            &&& be32_value(f.take(4)) == 3 + payload.len()
            &&& f.len() == 4 + be32_value(f.take(4))
            &&& body[0] == PROTOCOL_VERSION
            &&& body[1] == msg_type
            &&& body[2] == FORMAT_JSON
            &&& body.skip(3) == payload
        }),
{
    let n = (3 + payload.len()) as nat;
    lemma_be32_value(n);
    let f = frame_bytes(msg_type, payload);
    assert(f.take(4) =~= be32(n));
    assert(f.skip(4).skip(3) =~= payload);
}

// ---------------------------------------------------------------------------
// Correlation ids
// ---------------------------------------------------------------------------

/// The correlation id for a request made at `timestamp_ms` (Unix time in
/// milliseconds) with sequence number `counter`:
/// `req_<timestamp in hex>_<counter in hex, at least 8 digits>`.
pub open spec fn correlation_id_text(timestamp_ms: u128, counter: u64) -> Seq<char> {
    "req_"@ + hex(timestamp_ms as nat) + "_"@ + zero_pad(hex(counter as nat), 8)
}

/// Formats the correlation id for a request made at `timestamp_ms` with
/// sequence number `counter`.
pub fn correlation_id(timestamp_ms: u128, counter: u64) -> (s: String)
    ensures
        s@ == correlation_id_text(timestamp_ms, counter),
{
    let mut s = String::from_str("req_");
    push_hex(&mut s, timestamp_ms);
    s.append("_");
    push_hex_padded(&mut s, counter as u128, 8);
    s
}

/// Source of unique correlation ids: a sequence counter combined with the
/// time of the request.
pub struct CorrelationIdGenerator {
    /// Sequence number of the next id.
    pub next: u64,
}

impl CorrelationIdGenerator {
    /// A generator whose first id has sequence number zero.
    pub fn new() -> (g: CorrelationIdGenerator)
        ensures
            g.next == 0,
    {
        CorrelationIdGenerator { next: 0 }
    }

    /// A fresh correlation id for a request made at `now_ms` (Unix time in
    /// milliseconds), with the current sequence number, which then advances
    /// (wrapping after `u64::MAX`).
    pub fn generate_correlation_id(&mut self, now_ms: u128) -> (s: String)
        ensures
            s@ == correlation_id_text(now_ms, old(self).next),
            final(self).next == (old(self).next + 1) % 0x1_0000_0000_0000_0000,
    {
        let counter = self.next;
        self.next = counter.wrapping_add(1);
        correlation_id(now_ms, counter)
    }
}

/// Whether a character is a lower-case hexadecimal digit.
pub open spec fn is_hex_digit(c: char) -> bool {
    ('0' <= c && c <= '9') || ('a' <= c && c <= 'f')
}

/// The value of a lower-case hexadecimal digit.
pub open spec fn hex_digit_value(c: char) -> nat {
    if c <= '9' {
        (c as nat - 48) as nat
    } else {
        (c as nat - 87) as nat
    }
}

/// The number that a string of lower-case hexadecimal digits stands for.
pub open spec fn hex_value(s: Seq<char>) -> nat
    decreases s.len(),
{
    if s.len() == 0 {
        0
    } else {
        hex_value(s.drop_last()) * 16 + hex_digit_value(s.last())
    }
}

proof fn lemma_digit_char(d: nat)
    requires
        d < 16,
    ensures
        is_hex_digit(digit_char(d)),
        hex_digit_value(digit_char(d)) == d,
{
    if d < 10 {
        assert(((d + 48) as u32) as char as nat == d + 48);
    } else {
        assert(((d + 87) as u32) as char as nat == d + 87);
    }
}

proof fn lemma_hex(n: nat)
    ensures
        forall|i: int| 0 <= i < hex(n).len() ==> is_hex_digit(#[trigger] hex(n)[i]),
        hex_value(hex(n)) == n,
    decreases n,
{
    if n < 16 {
        lemma_digit_char(n);
        assert(hex(n).drop_last() =~= Seq::<char>::empty());
        assert(hex_value(Seq::<char>::empty()) == 0);
    } else {
        lemma_hex(n / 16);
        lemma_digit_char(n % 16);
        assert(hex(n).drop_last() =~= hex(n / 16));
        assert(hex(n).last() == digit_char(n % 16));
        assert(hex_value(hex(n)) == hex_value(hex(n / 16)) * 16 + hex_digit_value(digit_char(n % 16)));
        assert((n / 16) * 16 + n % 16 == n);
    }
}

proof fn lemma_leading_zeros(k: nat, s: Seq<char>)
    ensures
        hex_value(Seq::new(k, |i: int| '0') + s) == hex_value(s),
    decreases s.len(), k,
{
    let z = Seq::new(k, |i: int| '0');
    if s.len() == 0 {
        assert(z + s =~= z);
        if k > 0 {
            assert(z.drop_last() =~= Seq::new((k - 1) as nat, |i: int| '0'));
            lemma_leading_zeros((k - 1) as nat, s);
            assert(Seq::new((k - 1) as nat, |i: int| '0') + s =~= Seq::new((k - 1) as nat, |i: int| '0'));
        }
    } else {
        assert((z + s).drop_last() =~= z + s.drop_last());
        lemma_leading_zeros(k, s.drop_last());
    }
}

proof fn lemma_padded_hex(n: nat, width: nat)
    ensures
        forall|i: int| 0 <= i < zero_pad(hex(n), width).len() ==> is_hex_digit(#[trigger] zero_pad(hex(n), width)[i]),
        hex_value(zero_pad(hex(n), width)) == n,
{
    lemma_hex(n);
    let h = hex(n);
    if h.len() < width {
        lemma_leading_zeros((width - h.len()) as nat, h);
        let p = zero_pad(h, width);
        assert forall|i: int| 0 <= i < p.len() implies is_hex_digit(#[trigger] p[i]) by {
            if i >= width - h.len() {
                assert(p[i] == h[i - (width - h.len())]);
            }
        }
    }
}

/// Law: correlation ids with different sequence numbers differ, whatever
/// their timestamps.
pub proof fn law_correlation_ids_distinct(ts1: u128, c1: u64, ts2: u128, c2: u64)
    requires
        c1 != c2,
    ensures
        correlation_id_text(ts1, c1) != correlation_id_text(ts2, c2),
{
    let p1 = zero_pad(hex(c1 as nat), 8);
    let p2 = zero_pad(hex(c2 as nat), 8);
    lemma_padded_hex(c1 as nat, 8);
    lemma_padded_hex(c2 as nat, 8);
    let a = "req_"@ + hex(ts1 as nat) + "_"@;
    let b = "req_"@ + hex(ts2 as nat) + "_"@;
    let id1 = a + p1;
    let id2 = b + p2;
    assert(id1 == correlation_id_text(ts1, c1));
    assert(id2 == correlation_id_text(ts2, c2));
    if id1 == id2 {
        reveal_strlit("_");
        let len = id1.len();
        assert(a.last() == '_');
        assert(b.last() == '_');
        if p1.len() == p2.len() {
            assert(id1.skip(len - p1.len()) =~= p1);
            assert(id2.skip(len - p2.len()) =~= p2);
        } else if p1.len() < p2.len() {
            let k = len - p1.len() - 1;
            assert(id1[k] == a.last());
            assert(id2[k] == p2[k - b.len()]);
            assert(is_hex_digit(p2[k - b.len()]));
        } else {
            let k = len - p2.len() - 1;
            assert(id2[k] == b.last());
            assert(id1[k] == p1[k - a.len()]);
            assert(is_hex_digit(p1[k - a.len()]));
        }
    }
}

// ---------------------------------------------------------------------------
// Messages
// ---------------------------------------------------------------------------

/// `serde_json::Value`, the JSON payload type, carried through unopened.
#[verifier::external_type_specification]
#[verifier::external_body]
pub struct ExJsonValue(serde_json::Value);

/// IPC request envelope sent to the server.
#[derive(Debug)]
pub struct IpcEnvelope {
    /// Unique request id for correlation.
    pub correlation_id: String,
    /// Target actor name or ERN.
    pub target: String,
    /// Message type name for deserialization.
    pub message_type: String,
    /// Serialized message payload.
    pub payload: serde_json::Value,
    /// Whether a reply is expected.
    pub expects_reply: bool,
    /// Whether a streaming response is expected.
    pub expects_stream: bool,
    /// Request timeout in milliseconds.
    pub response_timeout_ms: u64,
}

impl IpcEnvelope {
    /// A fire-and-forget envelope made at `now_ms`, with a fresh correlation
    /// id from `ids`.
    pub fn new(ids: &mut CorrelationIdGenerator, now_ms: u128, target: String, message_type: String, payload: serde_json::Value) -> (e: IpcEnvelope)
        ensures
            e.correlation_id@ == correlation_id_text(now_ms, old(ids).next),
            final(ids).next == (old(ids).next + 1) % 0x1_0000_0000_0000_0000,
            e.target == target,
            e.message_type == message_type,
            e.payload == payload,
            !e.expects_reply,
            !e.expects_stream,
            e.response_timeout_ms == DEFAULT_RESPONSE_TIMEOUT_MS,
    {
        IpcEnvelope {
            correlation_id: ids.generate_correlation_id(now_ms),
            target,
            message_type,
            payload,
            expects_reply: false,
            expects_stream: false,
            response_timeout_ms: DEFAULT_RESPONSE_TIMEOUT_MS,
        }
    }

    /// An envelope that expects a reply, made at `now_ms`, with a fresh
    /// correlation id from `ids`.
    pub fn new_request(ids: &mut CorrelationIdGenerator, now_ms: u128, target: String, message_type: String, payload: serde_json::Value) -> (e: IpcEnvelope)
        ensures
            e.correlation_id@ == correlation_id_text(now_ms, old(ids).next),
            final(ids).next == (old(ids).next + 1) % 0x1_0000_0000_0000_0000,
            e.target == target,
            e.message_type == message_type,
            e.payload == payload,
            e.expects_reply,
            !e.expects_stream,
            e.response_timeout_ms == DEFAULT_RESPONSE_TIMEOUT_MS,
    {
        IpcEnvelope {
            correlation_id: ids.generate_correlation_id(now_ms),
            target,
            message_type,
            payload,
            expects_reply: true,
            expects_stream: false,
            response_timeout_ms: DEFAULT_RESPONSE_TIMEOUT_MS,
        }
    }

    /// Set the response timeout.
    pub fn with_timeout(self, timeout_ms: u64) -> (e: IpcEnvelope)
        ensures
            e == (IpcEnvelope { response_timeout_ms: timeout_ms, ..self }),
    {
        let mut e = self;
        e.response_timeout_ms = timeout_ms;
        e
    }
}

/// IPC response from the server.
#[derive(Debug)]
pub struct IpcResponse {
    /// Correlation id matching the request.
    pub correlation_id: String,
    /// Whether the request was successful.
    pub success: bool,
    /// Error message if unsuccessful.
    pub error: Option<String>,
    /// Machine-readable error code.
    pub error_code: Option<String>,
    /// Response payload if successful.
    pub payload: Option<serde_json::Value>,
}

impl IpcResponse {
    /// The payload of a successful response. An unsuccessful one gives a
    /// service error with its code (`UNKNOWN` when absent) and message
    /// (`Unknown error` when absent); a successful one without payload
    /// gives a response error.
    pub fn extract_value(self) -> (r: Result<serde_json::Value, ClientError>)
        ensures
            !self.success ==> (r matches Err(ClientError::ServiceError { code, message })
                && code@ == (match self.error_code { Some(c) => c@, None => "UNKNOWN"@ })
                && message@ == (match self.error { Some(m) => m@, None => "Unknown error"@ })),
            self.success && self.payload.is_none() ==> (r matches Err(ClientError::ResponseError(m))
                && m@ == "No payload in response"@),
            self.success && self.payload.is_some() ==> r == Ok::<serde_json::Value, ClientError>(self.payload.unwrap()),
    {
        if !self.success {
            let code = match self.error_code {
                Some(c) => c,
                None => String::from_str("UNKNOWN"),
            };
            let message = match self.error {
                Some(m) => m,
                None => String::from_str("Unknown error"),
            };
            return Err(ClientError::ServiceError { code, message });
        }
        match self.payload {
            Some(p) => Ok(p),
            None => Err(ClientError::ResponseError(String::from_str("No payload in response"))),
        }
    }

    /// Whether the response indicates success.
    pub fn is_success(&self) -> (r: bool)
        ensures
            r == self.success,
    {
        self.success
    }
}

// ---------------------------------------------------------------------------
// Client configuration and connection
// ---------------------------------------------------------------------------

/// Configuration for the IPC client.
#[derive(Debug, Clone)]
pub struct IpcClientConfig {
    /// Socket path to connect to.
    pub socket_path: String,
    /// Request timeout in milliseconds.
    pub timeout_ms: u64,
    /// Maximum retries for connection.
    pub max_retries: u32,
    /// Delay between retries in milliseconds.
    pub retry_delay_ms: u64,
    /// Maximum message size in bytes.
    pub max_message_size: usize,
}

/// The default socket path under a runtime directory (or `/tmp` without one).
pub open spec fn default_socket_path(runtime: Option<Seq<char>>) -> Seq<char> {
    match runtime {
        Some(d) => socket_under(d, "acton-dx"@),
        None => socket_under("/tmp"@, "acton-dx"@),
    }
}

impl IpcClientConfig {
    /// The client settings of a transport configuration: its socket path
    /// (see `IpcTransportConfig::socket_path`), timeout, retries and
    /// message size limit.
    pub fn from_transport_config(config: &IpcTransportConfig) -> (c: IpcClientConfig)
        ensures
            exists|d: Option<Seq<char>>| c.socket_path@ == socket_path_from(*config, d) && absolute_dir(d),
            config.socket_path matches Some(p) ==> c.socket_path@ == p@,
            c.timeout_ms == config.timeout_ms,
            c.max_retries == config.max_retries,
            c.retry_delay_ms == config.retry_delay_ms,
            c.max_message_size == config.max_message_size,
    {
        IpcClientConfig {
            socket_path: config.socket_path(),
            timeout_ms: config.timeout_ms,
            max_retries: config.max_retries,
            retry_delay_ms: config.retry_delay_ms,
            max_message_size: config.max_message_size,
        }
    }

    /// The client settings of the default transport configuration: 30 s
    /// timeout, 3 retries 100 ms apart, 1 MiB messages.
    pub fn default() -> (c: IpcClientConfig)
        ensures
            exists|d: Option<Seq<char>>| c.socket_path@ == #[trigger] default_socket_path(d) && absolute_dir(d),
            c.timeout_ms == 30_000,
            c.max_retries == 3,
            c.retry_delay_ms == 100,
            c.max_message_size == 1_048_576,
    {
        let t = IpcTransportConfig::default();
        let c = IpcClientConfig::from_transport_config(&t);
        proof {
            let d = choose|d: Option<Seq<char>>| c.socket_path@ == socket_path_from(t, d) && absolute_dir(d);
            assert(c.socket_path@ == default_socket_path(d));
        }
        c
    }

    /// Use a specific socket path.
    pub fn with_socket_path(self, path: String) -> (c: IpcClientConfig)
        ensures
            c == (IpcClientConfig { socket_path: path, ..self }),
    {
        let mut c = self;
        c.socket_path = path;
        c
    }
}

/// Progress of connecting to the socket: the first attempt is made at once,
/// each retry after the retry delay, and after `max_retries` retries the
/// last failure is final.
#[derive(Debug, Clone, Copy, PartialEq, Eq)]
pub struct ConnectAttempts {
    /// Number of the attempt about to be made (0 for the first).
    pub attempt: u32,
    /// Number of retries allowed after the first attempt.
    pub max_retries: u32,
    /// Delay before each retry, in milliseconds.
    pub retry_delay_ms: u64,
}

impl ConnectAttempts {
    /// Before the first attempt.
    pub fn new(max_retries: u32, retry_delay_ms: u64) -> (a: ConnectAttempts)
        ensures
            a == (ConnectAttempts { attempt: 0, max_retries, retry_delay_ms }),
    {
        ConnectAttempts { attempt: 0, max_retries, retry_delay_ms }
    }

    /// How long to wait before the attempt about to be made: nothing before
    /// the first, the retry delay before each retry.
    pub fn delay_before_attempt(&self) -> (d: Option<u64>)
        ensures
            d == (if self.attempt == 0 { None } else { Some(self.retry_delay_ms) }),
    {
        if self.attempt == 0 {
            None
        } else {
            Some(self.retry_delay_ms)
        }
    }

    /// After a failed attempt with the given error text: the state for the
    /// next attempt while retries remain, else the final connection error.
    pub fn after_failure(self, error: String) -> (r: Result<ConnectAttempts, ClientError>)
        requires
            self.attempt <= self.max_retries,
        ensures
            self.attempt < self.max_retries ==> r == Ok::<ConnectAttempts, ClientError>(ConnectAttempts { attempt: (self.attempt + 1) as u32, ..self }),
            self.attempt == self.max_retries ==> (r matches Err(ClientError::ConnectionFailed(m)) && m == error),
            r matches Ok(next) ==> next.attempt <= next.max_retries,
    {
        if self.attempt < self.max_retries {
            Ok(ConnectAttempts { attempt: self.attempt + 1, ..self })
        } else {
            Err(ClientError::ConnectionFailed(error))
        }
    }
}

/// Session data from an IPC response.
#[derive(Debug, Clone)]
pub struct IpcSession {
    /// Unique session identifier.
    pub session_id: String,
    /// Associated user id (if authenticated).
    pub user_id: Option<i64>,
    /// Session data as key-value pairs.
    pub data: HashMap<String, String>,
    /// Session creation timestamp (Unix ms).
    pub created_at: i64,
    /// Session expiration timestamp (Unix ms).
    pub expires_at: i64,
}

} // verus!
