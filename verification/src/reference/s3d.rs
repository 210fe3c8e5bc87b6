//! The S3D diagnostics proving slice: its report, the decision drawn from
//! the deterministic fixture, and the hosted fixture's page.
use vstd::prelude::*;

use crate::reference::hosted::hosted_only_text;

verus! {

/// Report of the S3D diagnostics proving slice.
#[derive(Clone, Debug, PartialEq, Eq)]
pub struct S3DReport {
    pub topology: String,
    pub console_log_captured: bool,
    pub console_warn_captured: bool,
    pub console_error_captured: bool,
    pub network_ok_captured: bool,
    pub network_404_captured: bool,
    pub runtime_snapshot_valid: bool,
    pub context_isolation_enforced: bool,
    pub overflow_drops_counted: bool,
    pub lifecycle_cleanup_verified: bool,
    pub accepted: bool,
}

/// Runs the hosted S3D slice; only the hosted Windows runtime can.
pub fn run() -> (r: Result<S3DReport, String>)
    ensures
        r matches Err(m) && m@ == hosted_only_text("S3D"@),
{
    let mut m = String::from_str("S3D");
    m.append("-real requires the hosted Windows CEF runtime");
    Err(m)
}

/// The checks of the deterministic S3D fixture, in report order.
#[derive(Clone, Copy, Debug)]
pub struct S3DChecks {
    pub console_log_captured: bool,
    pub console_warn_captured: bool,
    pub console_error_captured: bool,
    pub network_ok_captured: bool,
    pub network_404_captured: bool,
    pub runtime_snapshot_valid: bool,
    pub context_isolation_enforced: bool,
    pub overflow_drops_counted: bool,
    pub lifecycle_cleanup_verified: bool,
}

/// Draws the S3D report: every check is carried over, and the slice is
/// accepted exactly when all pass.
pub fn reference_report(c: S3DChecks) -> (r: S3DReport)
    ensures
        r.topology@ == "reference"@,
        r.console_log_captured == c.console_log_captured,
        r.console_warn_captured == c.console_warn_captured,
        r.console_error_captured == c.console_error_captured,
        r.network_ok_captured == c.network_ok_captured,
        r.network_404_captured == c.network_404_captured,
        r.runtime_snapshot_valid == c.runtime_snapshot_valid,
        r.context_isolation_enforced == c.context_isolation_enforced,
        r.overflow_drops_counted == c.overflow_drops_counted,
        r.lifecycle_cleanup_verified == c.lifecycle_cleanup_verified,
        r.accepted == (c.console_log_captured && c.console_warn_captured && c.console_error_captured
            && c.network_ok_captured && c.network_404_captured && c.runtime_snapshot_valid
            && c.context_isolation_enforced && c.overflow_drops_counted
            && c.lifecycle_cleanup_verified),
{
    S3DReport {
        topology: String::from_str("reference"),
        console_log_captured: c.console_log_captured,
        console_warn_captured: c.console_warn_captured,
        console_error_captured: c.console_error_captured,
        network_ok_captured: c.network_ok_captured,
        network_404_captured: c.network_404_captured,
        runtime_snapshot_valid: c.runtime_snapshot_valid,
        context_isolation_enforced: c.context_isolation_enforced,
        overflow_drops_counted: c.overflow_drops_counted,
        lifecycle_cleanup_verified: c.lifecycle_cleanup_verified,
        accepted: c.console_log_captured && c.console_warn_captured && c.console_error_captured
            && c.network_ok_captured && c.network_404_captured && c.runtime_snapshot_valid
            && c.context_isolation_enforced && c.overflow_drops_counted
            && c.lifecycle_cleanup_verified,
    }
}

/// The diagnostics page the hosted S3D fixture serves.
pub open spec fn index_body_text(nonce: Seq<char>) -> Seq<char> {
    "<!DOCTYPE html>\n<html>\n<head>\n<meta charset=\"utf-8\">\n<title>__worldline_s3d_init_"@
        + nonce + "</title>\n<link rel=\"stylesheet\" href=\"/missing_"@ + nonce
        + ".css\">\n</head>\n<body>\n<h1>Worldline S3D Diagnostics Proving Page</h1>\n<script src=\"/asset_"@
        + nonce + ".js\"></script>\n<script>\nconsole.log(\"diagnostic-log-"@ + nonce
        + "\");\nconsole.warn(\"diagnostic-warn-"@ + nonce + "\");\nconsole.error(\"diagnostic-error-"@
        + nonce + "\");\ndocument.title = \"__worldline_s3d_ready_"@ + nonce
        + "\";\n</script>\n</body>\n</html>"@
}

/// The diagnostics page the hosted S3D fixture serves: a missing
/// stylesheet, an asset script, and one console message of each level,
/// all tagged with the run.
pub fn index_body(nonce: &str) -> (body: String)
    ensures
        body@ == index_body_text(nonce@),
{
    let mut body = String::from_str(
        "<!DOCTYPE html>\n<html>\n<head>\n<meta charset=\"utf-8\">\n<title>__worldline_s3d_init_",
    );
    body.append(nonce);
    body.append("</title>\n<link rel=\"stylesheet\" href=\"/missing_");
    body.append(nonce);
    body.append(
        ".css\">\n</head>\n<body>\n<h1>Worldline S3D Diagnostics Proving Page</h1>\n<script src=\"/asset_",
    );
    body.append(nonce);
    body.append(".js\"></script>\n<script>\nconsole.log(\"diagnostic-log-");
    body.append(nonce);
    body.append("\");\nconsole.warn(\"diagnostic-warn-");
    body.append(nonce);
    body.append("\");\nconsole.error(\"diagnostic-error-");
    body.append(nonce);
    body.append("\");\ndocument.title = \"__worldline_s3d_ready_");
    body.append(nonce);
    body.append("\";\n</script>\n</body>\n</html>");
    assert(body@ =~= index_body_text(nonce@));
    body
}

} // verus!
