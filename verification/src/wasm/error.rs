//! Typed failure classes of the WASM component boundary.
use vstd::prelude::*;

use crate::text::{decimal, push_decimal};

verus! {

/// Typed failure classes of the WASM component boundary.
#[derive(Clone, Debug, PartialEq, Eq)]
pub enum WasmHostError {
    /// The component imports interfaces the host does not provide (any
    /// `wasi:*` import among them), or does not decode as a component.
    UnsupportedExternalAbi { reason: String },
    /// The guest trapped; the trap is isolated to its own instance.
    WasmTrap { message: String },
    /// A declared resource limit (`"fuel"`, `"memory"`, `"table"`) was
    /// exhausted.
    WasmResourceLimitExceeded { dimension: String },
    /// The guest returned `err(message)` from its exported operation.
    GuestReturnedError { message: String },
    /// A host-call payload exceeded the configured limit.
    ExternalPayloadTooLarge { limit: usize, actual: usize },
    /// The component binary exceeded the configured size limit.
    ComponentTooLarge { limit: usize, actual: usize },
    /// Instantiation failed for a reason that is neither an authority
    /// failure nor a resource-limit denial.
    InstantiationFailed { reason: String },
}

/// The human-readable text of a failure.
pub open spec fn error_text(e: WasmHostError) -> Seq<char> {
    match e {
        WasmHostError::UnsupportedExternalAbi { reason } => "unsupported external ABI: "@
            + reason@,
        WasmHostError::WasmTrap { message } => "guest trapped: "@ + message@,
        WasmHostError::WasmResourceLimitExceeded { dimension } => "resource limit exceeded: "@
            + dimension@,
        WasmHostError::GuestReturnedError { message } => "guest returned error: "@ + message@,
        WasmHostError::ExternalPayloadTooLarge { limit, actual } => "host-call payload too large: "@
            + decimal(actual as nat) + " bytes (limit "@ + decimal(limit as nat) + ")"@,
        WasmHostError::ComponentTooLarge { limit, actual } => "component too large: "@ + decimal(
            actual as nat,
        ) + " bytes (limit "@ + decimal(limit as nat) + ")"@,
        WasmHostError::InstantiationFailed { reason } => "instantiation failed: "@ + reason@,
    }
}

/// Whether `e` is the exhaustion of the resource dimension named `dimension`.
pub open spec fn is_limit_exceeded(e: WasmHostError, dimension: Seq<char>) -> bool {
    e matches WasmHostError::WasmResourceLimitExceeded { dimension: d } && d@ == dimension
}

fn prefixed(prefix: &str, rest: &String) -> (s: String)
    ensures
        s@ == prefix@ + rest@,
{
    let mut s = String::from_str(prefix);
    s.append(rest.as_str());
    s
}

fn sizes(before: &str, actual: usize, limit: usize) -> (s: String)
    ensures
        s@ == before@ + decimal(actual as nat) + " bytes (limit "@ + decimal(limit as nat) + ")"@,
{
    let mut s = String::from_str(before);
    push_decimal(&mut s, actual as u64);
    s.append(" bytes (limit ");
    push_decimal(&mut s, limit as u64);
    s.append(")");
    s
}

impl WasmHostError {
    /// The human-readable text of this failure.
    pub fn describe(&self) -> (s: String)
        ensures
            s@ == error_text(*self),
    {
        match self {
            WasmHostError::UnsupportedExternalAbi { reason } => prefixed(
                "unsupported external ABI: ",
                reason,
            ),
            WasmHostError::WasmTrap { message } => prefixed("guest trapped: ", message),
            WasmHostError::WasmResourceLimitExceeded { dimension } => prefixed(
                "resource limit exceeded: ",
                dimension,
            ),
            WasmHostError::GuestReturnedError { message } => prefixed(
                "guest returned error: ",
                message,
            ),
            WasmHostError::ExternalPayloadTooLarge { limit, actual } => sizes(
                "host-call payload too large: ",
                *actual,
                *limit,
            ),
            WasmHostError::ComponentTooLarge { limit, actual } => sizes(
                "component too large: ",
                *actual,
                *limit,
            ),
            WasmHostError::InstantiationFailed { reason } => prefixed(
                "instantiation failed: ",
                reason,
            ),
        }
    }
}

} // verus!
