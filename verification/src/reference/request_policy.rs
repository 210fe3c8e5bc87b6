//! Engine-neutral identities shared by the reference request-policy
//! fixtures.
use vstd::prelude::*;

verus! {

/// Stable evaluator identity used by the bounded reference feasibility
/// fixture.
pub const REFERENCE_REQUEST_POLICY_PROVIDER_ID: &'static str = "worldline.reference.request-policy";

/// Human-readable topology label for local reference-only evidence.
pub const REFERENCE_REQUEST_POLICY_TOPOLOGY: &'static str = "reference broker only; no CEF or native IPC";

} // verus!
