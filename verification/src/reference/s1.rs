//! The S1 proving slice's report.
use vstd::prelude::*;


verus! {

/// Report of the S1 proving slice: RPC, events and restart compose.
#[derive(Clone, Debug, PartialEq, Eq)]
pub struct S1Report {
    pub installation_id: String,
    pub state_before_restart: String,
    pub state_after_restart: String,
    pub old_runtime_id: String,
    pub new_runtime_id: String,
    pub first_result: String,
    pub restarted_result: String,
    pub follow_up_result: String,
    pub observed_events: usize,
    pub control_observation_was_metadata_only: bool,
    pub old_runtime_authority_revoked: bool,
    pub new_runtime_required_explicit_authority: bool,
}

} // verus!
