//! The decisions of the WASM component boundary: resource limits, the
//! host-call payload gate, the WASI permission set, the import policy and
//! the classification of call outcomes.
pub mod error;
pub mod limits;
pub mod wasi;
pub mod bridge;
pub mod host;
