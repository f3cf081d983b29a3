//! Verified core of the Acton DX HTMX toolkit: configuration models, service
//! identities, the IPC wire format, circuit breaking, session handling and
//! the decision logic of the background agents.

pub mod text;
pub mod services;
pub mod circuit;
pub mod coordinator;
pub mod hot_reload;
pub mod session;
pub mod store;
pub mod cookie;
pub mod transport;
pub mod error;
pub mod ipc;
pub mod config;
pub mod registry;
pub mod embedded;
pub mod cli;
pub mod email;
pub mod helpers;
pub mod extractors;
pub mod results;
pub mod jobs;
pub mod oauth;
pub mod rate_limit;
pub mod session_flow;
