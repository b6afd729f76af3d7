//! A verified core for an HTTP reverse proxy that interposes a chain of
//! out-of-process middleware extensions between inbound clients and a single
//! upstream backend.
//!
//! The crate holds the per-request orchestration engine: the state machine
//! that drives a request through the request-phase middleware chain, the
//! backend call, and the response-phase middleware chain, applying middleware
//! outcomes to an evolving request/response container, classifying failures
//! into HTTP statuses, and stamping timing headers. It also holds the endpoint
//! registry with its lazy reconnection logic. All I/O — the HTTP server, the
//! middleware RPC transport, the backend HTTP client, clocks and timeouts —
//! lives outside; the engine consumes their results as plain values.

use vstd::prelude::*;

pub mod config;
pub mod container;
pub mod handler;
pub mod headers;
pub mod laws;
pub mod messages;
pub mod middleware;
pub mod middlewares;
pub mod orchestrator;
pub mod responses;
pub mod strutil;

verus! {

/// Per-call middleware deadline and backend deadline, when not configured.
pub const DEFAULT_TIMEOUT_MILLIS: u32 = 5000;

} // verus!
