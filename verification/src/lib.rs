//! Telemetry rules for actor invocations: ray identity, span descriptions,
//! trace context propagation and export configuration.

pub mod callback;
pub mod context;
pub mod export;
pub mod headers;
pub mod invocation;
pub mod laws;
pub mod propagation;
pub mod ray;
pub mod schema;
pub mod span;
pub mod span_laws;
pub mod text;
