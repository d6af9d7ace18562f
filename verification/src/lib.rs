//! Request-execution core of an HTTP trigger for sandboxed WebAssembly
//! guest components.
//!
//! The library holds the decision logic of one guest invocation: resource
//! accounting shared by concurrent requests, the lifecycle hook chain run
//! while an instance is prepared, derivation-time header sanitization,
//! dispatch over the versioned guest handler interfaces, the reconciliation
//! of the response signal with the invocation task's terminal state, and
//! the post-invocation metrics formatting.

pub mod coordinator;
pub mod dispatch;
pub mod format;
pub mod headers;
pub mod hooks;
pub mod telemetry;
pub mod tracker;
