//! Supervisor and event-stream relay for a local "opencode" sidecar server.
//!
//! The library holds the decision logic: discovering the sidecar's port from
//! its log output, gating readiness, tracking the shared server state,
//! preparing request/response calls, and turning the server-sent event
//! stream into routable publications.  Process control and network I/O are
//! left to the embedding application.
pub mod client;
pub mod encode;
pub mod jsonq;
pub mod message;
pub mod numfmt;
pub mod portscan;
pub mod relay;
pub mod scan;
pub mod supervisor;
pub mod types;
