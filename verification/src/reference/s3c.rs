//! The S3C request-policy proving slice: its report, the decisions drawn
//! from the deterministic fixture, and the hosted fixture's page.
use vstd::prelude::*;

use crate::reference::hosted::hosted_only_text;
use crate::reference::request_policy_feasibility::{
    push_scripts, scripts_text, RequestPolicyAction, RequestPolicyOutcome,
};

verus! {

/// Report of the S3C request-policy proving slice.
#[derive(Clone, Debug, PartialEq, Eq)]
pub struct S3CReport {
    pub topology: String,
    pub blocked_origin_hits: usize,
    pub allowed_origin_hits: usize,
    pub page_usable: bool,
    pub exact_scope_isolated: bool,
    pub replacement_isolated: bool,
    pub lifecycle_cleanup: bool,
    pub fail_open_timeout: bool,
    pub fail_open_unavailable: bool,
    pub safe_observations: bool,
    pub accepted: bool,
}

/// Runs the hosted S3C slice; only the hosted Windows runtime can.
pub fn run() -> (r: Result<S3CReport, String>)
    ensures
        r matches Err(m) && m@ == hosted_only_text("S3C"@),
{
    let mut m = String::from_str("S3C");
    m.append("-real requires the hosted Windows CEF runtime");
    Err(m)
}

/// What the deterministic S3C fixture observed.
#[derive(Debug)]
pub struct S3CEvidence {
    /// The decisions for the blocked and the allowed script.
    pub blocked: RequestPolicyAction,
    pub allowed: RequestPolicyAction,
    /// A decision from a foreign context was refused.
    pub exact_scope_isolated: bool,
    /// The replacement profile allowed the once-blocked script.
    pub replacement_isolated: bool,
    /// A decision for an invalidated page was refused.
    pub lifecycle_cleanup: bool,
    /// The slow evaluator's decision under a short deadline.
    pub timeout_action: RequestPolicyAction,
    pub timeout_outcome: RequestPolicyOutcome,
    /// The unavailable evaluator's decision.
    pub unavailable_action: RequestPolicyAction,
    pub unavailable_outcome: RequestPolicyOutcome,
    /// No drained observation carried a URL or headers.
    pub safe_observations: bool,
}

/// The S3C report drawn from `e`.
pub open spec fn report_of(e: S3CEvidence, r: S3CReport) -> bool {
    let blocked_hits: usize = if e.blocked == RequestPolicyAction::Allow { 1 } else { 0 };
    let allowed_hits: usize = if e.allowed == RequestPolicyAction::Allow { 1 } else { 0 };
    let fail_open_timeout = e.timeout_action == RequestPolicyAction::Allow && e.timeout_outcome
        == RequestPolicyOutcome::DeadlineExceeded;
    let fail_open_unavailable = e.unavailable_action == RequestPolicyAction::Allow
        && e.unavailable_outcome == RequestPolicyOutcome::FailureFallback;
    &&& r.topology@ == "deterministic loopback contract/broker/evaluator; no CEF"@
    &&& r.blocked_origin_hits == blocked_hits
    &&& r.allowed_origin_hits == allowed_hits
    &&& r.page_usable == (e.allowed == RequestPolicyAction::Allow)
    &&& r.exact_scope_isolated == e.exact_scope_isolated
    &&& r.replacement_isolated == e.replacement_isolated
    &&& r.lifecycle_cleanup == e.lifecycle_cleanup
    &&& r.fail_open_timeout == fail_open_timeout
    &&& r.fail_open_unavailable == fail_open_unavailable
    &&& r.safe_observations == e.safe_observations
    &&& r.accepted == (e.blocked == RequestPolicyAction::Block && blocked_hits == 0 && allowed_hits
        == 1 && e.allowed == RequestPolicyAction::Allow && e.exact_scope_isolated
        && e.replacement_isolated && e.lifecycle_cleanup && fail_open_timeout
        && fail_open_unavailable && e.safe_observations)
}

/// Draws the S3C report from what the deterministic fixture observed.
pub fn reference_report(e: S3CEvidence) -> (r: S3CReport)
    ensures
        report_of(e, r),
{
    let blocked_hits: usize = if e.blocked == RequestPolicyAction::Allow {
        1
    } else {
        0
    };
    let allowed_hits: usize = if e.allowed == RequestPolicyAction::Allow {
        1
    } else {
        0
    };
    let fail_open_timeout = e.timeout_action == RequestPolicyAction::Allow && e.timeout_outcome
        == RequestPolicyOutcome::DeadlineExceeded;
    let fail_open_unavailable = e.unavailable_action == RequestPolicyAction::Allow
        && e.unavailable_outcome == RequestPolicyOutcome::FailureFallback;
    S3CReport {
        topology: String::from_str("deterministic loopback contract/broker/evaluator; no CEF"),
        blocked_origin_hits: blocked_hits,
        allowed_origin_hits: allowed_hits,
        page_usable: e.allowed == RequestPolicyAction::Allow,
        exact_scope_isolated: e.exact_scope_isolated,
        replacement_isolated: e.replacement_isolated,
        lifecycle_cleanup: e.lifecycle_cleanup,
        fail_open_timeout,
        fail_open_unavailable,
        safe_observations: e.safe_observations,
        accepted: e.blocked == RequestPolicyAction::Block && blocked_hits == 0 && allowed_hits == 1
            && e.allowed == RequestPolicyAction::Allow && e.exact_scope_isolated
            && e.replacement_isolated && e.lifecycle_cleanup && fail_open_timeout
            && fail_open_unavailable && e.safe_observations,
    }
}

/// Scripts on the hosted S3C page besides the fixed ones.
pub const S3C_SCRIPT_COUNT: usize = 4;

/// The page the hosted S3C fixture serves.
pub open spec fn index_body_text(nonce: Seq<char>) -> Seq<char> {
    "<!doctype html><html><head><meta charset=\"utf-8\"><title>Worldline S3C</title></head><body><h1>Worldline S3C</h1>"@
        + scripts_text(nonce, S3C_SCRIPT_COUNT as nat) + "<script src=\"/allowed.js?run="@ + nonce
        + "\"></script><script src=\"/blocked.js?run="@ + nonce
        + "\"></script><script src=\"/slow.js?run="@ + nonce
        + "\"></script><script src=\"/unavailable.js?run="@ + nonce
        + "\"></script></body></html>"@
}

/// The page the hosted S3C fixture serves: run-tagged active scripts, then
/// the allowed, blocked, slow and unavailable ones.
pub fn index_body(nonce: &str) -> (body: String)
    ensures
        body@ == index_body_text(nonce@),
{
    let mut body = String::from_str(
        "<!doctype html><html><head><meta charset=\"utf-8\"><title>Worldline S3C</title></head><body><h1>Worldline S3C</h1>",
    );
    push_scripts(&mut body, nonce, S3C_SCRIPT_COUNT);
    body.append("<script src=\"/allowed.js?run=");
    body.append(nonce);
    body.append("\"></script><script src=\"/blocked.js?run=");
    body.append(nonce);
    body.append("\"></script><script src=\"/slow.js?run=");
    body.append(nonce);
    body.append("\"></script><script src=\"/unavailable.js?run=");
    body.append(nonce);
    body.append("\"></script></body></html>");
    assert(body@ =~= index_body_text(nonce@));
    body
}

} // verus!
