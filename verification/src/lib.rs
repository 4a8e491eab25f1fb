//! Worker-side library for the stdio bus.
//!
//! Workers read JSON-RPC messages line by line, answer them and keep them apart by
//! session. This crate holds what they decide: how messages are routed and what
//! session identifiers stand for, the worker's loop, the app server, the MCP server
//! and the MCP proxy as workers, and the configuration of the bus. Reading, writing
//! and running processes is left to its callers, who tell it what happened and are
//! told what to do.

pub mod app_server;
pub mod config;
pub mod json;
pub mod managed_server;
pub mod mcp_model;
pub mod mcp_proxy;
pub mod mcp_server;
pub mod message;
pub mod routing;
pub mod rpc;
pub mod session;
pub mod signal;
pub mod startup;
pub mod string_map;
pub mod string_set;
pub mod text;
pub mod transport;
pub mod worker;

pub use crate::config::{ConfigError, LimitsConfig, PoolConfig, RoutingConfig, StdioBusConfig};
pub use crate::message::{Message, RequestId, RoutingFields};
pub use crate::routing::{
    extract_routing_fields, parse_message, MAX_REQUEST_ID_LEN, MAX_SESSION_ID_LEN,
};
pub use crate::session::{
    conn_to_session_id, extract_mcp_server_name, extract_thread_id, mcp_to_session_id,
    thread_to_session_id, SessionType, CONN_PREFIX, MCP_PREFIX, THREAD_PREFIX,
};
pub use crate::transport::{
    create_transport, DirectStdioTransport, StdioBusWorkerTransport, Transport,
};
pub use crate::worker::{StdioBusWorker, WorkerError};
