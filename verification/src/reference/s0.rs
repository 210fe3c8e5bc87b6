//! The host-level S0 proving slice's report.
use vstd::prelude::*;


verus! {

/// Report of the host-level S0 proving slice: state continues across a
/// restart while runtime identity and authority do not.
#[derive(Clone, Debug, PartialEq, Eq)]
pub struct S0Report {
    pub installation_id: String,
    pub state_before_restart: String,
    pub state_after_restart: String,
    pub old_runtime_id: String,
    pub new_runtime_id: String,
    pub old_runtime: String,
    pub new_runtime: String,
    pub first_result: String,
    pub restarted_result: String,
    pub observations: usize,
    pub old_runtime_grant_revoked: bool,
    pub new_runtime_did_not_inherit_authority: bool,
}

} // verus!
