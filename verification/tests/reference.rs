use worldline_host::reference::activation::{activation_count_bytes, next_activation_count};
use worldline_host::reference::request_policy::{
    REFERENCE_REQUEST_POLICY_PROVIDER_ID, REFERENCE_REQUEST_POLICY_TOPOLOGY,
};
use worldline_host::reference::request_policy_feasibility::{
    self as request_policy_feasibility, index_body, percentile, reference_decision,
    reference_report, request_url, sort_ascending, MeasuringEvaluator, ReferenceEvidence,
    RequestPolicyAction, RequestPolicyOutcome,
};
use worldline_host::reference::s3c::{self, reference_report as s3c_report, S3CEvidence};
use worldline_host::reference::s3d::{self, reference_report as s3d_report, S3DChecks};
use worldline_host::reference::s3e::{
    self, reference_report as s3e_report, search_query, urlencoding_decode, S3EChecks,
};

#[test]
fn request_policy_real_cef_feasibility_is_explicitly_separate_from_reference() {
    // Off the hosted Windows runtime the slice cannot run; that refusal is
    // asserted exactly by `hosted_slices_refuse_to_run_off_the_hosted_runtime`.
    let report = match request_policy_feasibility::run_real() {
        Err(message) if message == "T-004 real CEF feasibility requires the hosted Windows runtime" => {
            return;
        }
        other => other.expect("T-004 real CEF feasibility must execute on the hosted runtime"),
    };
    println!("T-004 run_id=T004-real-20260902-local-01 report: {report:?}");
    assert!(
        report.accepted,
        "unexpected real feasibility report: {report:?}"
    );
    assert!(!report.topology.contains("reference broker only"));
}

#[test]
fn s3c_real_native_provider_uses_adblock_contract_before_origin() {
    // Off the hosted Windows runtime the slice cannot run; that refusal is
    // asserted exactly by `hosted_slices_refuse_to_run_off_the_hosted_runtime`.
    let report = match s3c::run() {
        Err(message) if message == "S3C-real requires the hosted Windows CEF runtime" => return,
        other => other.expect("S3C-real must execute through the hosted native CEF provider"),
    };
    println!("S3C run_id=S3C-real-20260902-local-01 report: {report:?}");
    assert!(report.accepted, "unexpected real S3C report: {report:?}");
    assert!(!report.topology.contains("no CEF"));
    assert_eq!(report.blocked_origin_hits, 0);
    assert!(report.allowed_origin_hits >= 1);
}

#[test]
fn s3d_real_native_provider_diagnostics_proving_slice_executes() {
    // Off the hosted Windows runtime the slice cannot run; that refusal is
    // asserted exactly by `hosted_slices_refuse_to_run_off_the_hosted_runtime`.
    let report = match s3d::run() {
        Err(message) if message == "S3D-real requires the hosted Windows CEF runtime" => return,
        other => other.expect("S3D-real must execute through the hosted native CEF provider"),
    };
    println!("S3D run_id=S3D-real-20260903-local-01 report: {report:?}");
    assert!(report.accepted, "unexpected real S3D report: {report:?}");
    assert_eq!(report.topology, "cef_hosted");
    assert!(report.console_log_captured);
    assert!(report.console_warn_captured);
    assert!(report.console_error_captured);
    assert!(report.network_ok_captured);
    assert!(report.network_404_captured);
    assert!(report.runtime_snapshot_valid);
    assert!(report.context_isolation_enforced);
    assert!(report.overflow_drops_counted);
    assert!(report.lifecycle_cleanup_verified);
}

#[test]
fn hosted_slices_refuse_to_run_off_the_hosted_runtime() {
    assert_eq!(
        request_policy_feasibility::run_real(),
        Err("T-004 real CEF feasibility requires the hosted Windows runtime".to_string())
    );
    assert_eq!(s3c::run(), Err("S3C-real requires the hosted Windows CEF runtime".to_string()));
    assert_eq!(s3d::run(), Err("S3D-real requires the hosted Windows CEF runtime".to_string()));
    assert_eq!(s3e::run(), Err("S3E-real requires the hosted Windows CEF runtime".to_string()));
}

#[test]
fn percentiles_index_the_sorted_values() {
    assert_eq!(percentile(&[], 50), 0);
    assert_eq!(percentile(&[7], 95), 7);
    let values: Vec<u64> = (1..=100).collect();
    assert_eq!(percentile(&values, 50), 50);
    assert_eq!(percentile(&values, 95), 95);
    assert_eq!(percentile(&values, 100), 100);
    assert_eq!(percentile(&values, 250), 100);
    assert_eq!(sort_ascending(vec![5, 1, 4, 1, 3]), vec![1, 1, 3, 4, 5]);
    assert_eq!(sort_ascending(vec![]), Vec::<u64>::new());
}

#[test]
fn measuring_evaluator_tracks_the_peak() {
    let mut evaluator = MeasuringEvaluator::new();
    evaluator.enter();
    evaluator.enter();
    evaluator.leave();
    evaluator.enter();
    evaluator.enter();
    assert_eq!(evaluator.current, 3);
    assert_eq!(evaluator.max_observed, 3);
    evaluator.leave();
    evaluator.leave();
    evaluator.leave();
    assert_eq!(evaluator.current, 0);
    assert_eq!(evaluator.max_observed, 3);
    evaluator.leave();
    assert_eq!(evaluator.current, usize::MAX);
    assert_eq!(evaluator.max_observed, 3);
}

#[test]
fn reference_fixture_blocks_every_fourth_request() {
    assert_eq!(request_url(0), "http://127.0.0.1/blocked-0.js");
    assert_eq!(request_url(5), "http://127.0.0.1/allowed-5.js");
    assert_eq!(reference_decision(&request_url(8)), RequestPolicyAction::Block);
    assert_eq!(reference_decision(&request_url(9)), RequestPolicyAction::Allow);
    assert_eq!(REFERENCE_REQUEST_POLICY_PROVIDER_ID, "worldline.reference.request-policy");
}

fn evidence() -> ReferenceEvidence {
    let actions: Vec<RequestPolicyAction> = (0..64).map(|i| reference_decision(&request_url(i))).collect();
    let latencies: Vec<u64> = (0..64u64).rev().map(|i| 1000 + i).collect();
    ReferenceEvidence {
        actions,
        latencies_us: latencies,
        max_observed_in_flight: 8,
        timeout_action: RequestPolicyAction::Allow,
        timeout_outcome: RequestPolicyOutcome::DeadlineExceeded,
        observations: 65,
        scope_probe_refused: true,
    }
}

#[test]
fn reference_feasibility_report_is_bounded_and_fail_open_is_profile_scoped() {
    let report = reference_report(evidence());
    assert!(report.accepted, "unexpected feasibility report: {report:?}");
    assert_eq!(report.topology, REFERENCE_REQUEST_POLICY_TOPOLOGY);
    assert_eq!(report.completed_decisions, 64);
    assert_eq!(report.blocked_decisions, 16);
    assert_eq!(report.allowed_decisions, 48);
    assert_eq!(report.fallback_decisions, 1);
    assert_eq!(report.timeout_decisions, 1);
    assert_eq!(report.p50_latency_us, 1031);
    assert_eq!(report.p95_latency_us, 1059);
    assert_eq!(report.max_latency_us, 1063);
    assert_eq!(report.baseline_page_load_ms, None);
    let mut over = evidence();
    over.max_observed_in_flight = 9;
    assert!(!reference_report(over).accepted);
    let mut closed = evidence();
    closed.timeout_outcome = RequestPolicyOutcome::Evaluated;
    let report = reference_report(closed);
    assert!(!report.accepted);
    assert_eq!(report.fallback_decisions, 0);
}

#[test]
fn s3c_report_requires_every_check() {
    let good = S3CEvidence {
        blocked: RequestPolicyAction::Block,
        allowed: RequestPolicyAction::Allow,
        exact_scope_isolated: true,
        replacement_isolated: true,
        lifecycle_cleanup: true,
        timeout_action: RequestPolicyAction::Allow,
        timeout_outcome: RequestPolicyOutcome::DeadlineExceeded,
        unavailable_action: RequestPolicyAction::Allow,
        unavailable_outcome: RequestPolicyOutcome::FailureFallback,
        safe_observations: true,
    };
    let report = s3c_report(good);
    assert!(report.accepted);
    assert_eq!(report.blocked_origin_hits, 0);
    assert_eq!(report.allowed_origin_hits, 1);
    assert!(report.fail_open_timeout && report.fail_open_unavailable && report.page_usable);
    assert_eq!(report.topology, "deterministic loopback contract/broker/evaluator; no CEF");
    let leaked = s3c_report(S3CEvidence {
        blocked: RequestPolicyAction::Allow,
        allowed: RequestPolicyAction::Allow,
        exact_scope_isolated: true,
        replacement_isolated: true,
        lifecycle_cleanup: true,
        timeout_action: RequestPolicyAction::Allow,
        timeout_outcome: RequestPolicyOutcome::DeadlineExceeded,
        unavailable_action: RequestPolicyAction::Allow,
        unavailable_outcome: RequestPolicyOutcome::FailureFallback,
        safe_observations: true,
    });
    assert_eq!(leaked.blocked_origin_hits, 1);
    assert!(!leaked.accepted);
}

#[test]
fn s3d_and_s3e_reports_accept_only_when_all_checks_pass() {
    let checks = S3DChecks {
        console_log_captured: true,
        console_warn_captured: true,
        console_error_captured: true,
        network_ok_captured: true,
        network_404_captured: true,
        runtime_snapshot_valid: true,
        context_isolation_enforced: true,
        overflow_drops_counted: true,
        lifecycle_cleanup_verified: true,
    };
    let report = s3d_report(checks);
    assert!(report.accepted);
    assert_eq!(report.topology, "reference");
    assert!(!s3d_report(S3DChecks { overflow_drops_counted: false, ..checks }).accepted);
    let checks = S3EChecks {
        provider_a_resolved: true,
        provider_b_resolved: true,
        distinct_targets_produced: true,
        resolve_alone_zero_origin_hits: true,
        navigation_produced_origin_hit: true,
        query_decoded_intact: true,
        search_only_cannot_navigate: true,
        navigation_only_cannot_search: true,
        lifecycle_isolation_verified: true,
        query_privacy_verified: true,
    };
    assert!(s3e_report(checks).accepted);
    assert!(!s3e_report(S3EChecks { query_privacy_verified: false, ..checks }).accepted);
}

#[test]
fn query_values_are_url_decoded() {
    assert_eq!(urlencoding_decode("hello+world"), "hello world");
    assert_eq!(urlencoding_decode("a%20b%2Bc"), "a b+c");
    assert_eq!(urlencoding_decode("100%"), "100%");
    assert_eq!(urlencoding_decode("%zzq"), "%q");
    assert_eq!(urlencoding_decode("%4"), "%");
    assert_eq!(urlencoding_decode("caf%E9"), "caf\u{e9}");
    assert_eq!(urlencoding_decode(""), "");
}

#[test]
fn fixture_pages_tag_every_script_with_the_run() {
    let body = index_body("n1");
    assert!(body.starts_with("<!doctype html>"));
    assert!(body.contains("<script src=\"/active-0.js?run=n1\"></script>"));
    assert!(body.contains("<script src=\"/active-7.js?run=n1\"></script>"));
    assert!(!body.contains("/active-8.js"));
    assert!(body.ends_with("<script src=\"/blocked.js?run=n1\"></script><script src=\"/slow.js?run=n1\"></script></body></html>"));
    let s3c_body = s3c::index_body("r");
    assert!(s3c_body.contains("<title>Worldline S3C</title>"));
    assert!(s3c_body.contains("/active-3.js?run=r"));
    assert!(!s3c_body.contains("/active-4.js"));
    assert!(s3c_body.contains("/unavailable.js?run=r"));
    let s3d_body = s3d::index_body("x");
    assert!(s3d_body.starts_with("<!DOCTYPE html>\n<html>\n<head>\n<meta charset=\"utf-8\">\n<title>__worldline_s3d_init_x</title>"));
    assert!(s3d_body.contains("console.warn(\"diagnostic-warn-x\");\n"));
    assert!(s3d_body.ends_with("document.title = \"__worldline_s3d_ready_x\";\n</script>\n</body>\n</html>"));
}

#[test]
fn loopback_requests_carry_their_decoded_search_term() {
    assert_eq!(
        search_query("GET /search?q=hello+world%21 HTTP/1.1\r\nHost: 127.0.0.1\r\n\r\n"),
        Some("hello world!".to_string())
    );
    assert_eq!(
        search_query("GET /search?term=first&q=second HTTP/1.1\r\n"),
        Some("second".to_string())
    );
    assert_eq!(search_query("GET /s?lang=en&term=%E2 HTTP/1.1"), Some("\u{e2}".to_string()));
    assert_eq!(search_query("GET /s?q HTTP/1.1"), Some(String::new()));
    assert_eq!(search_query("GET /s?q=a=b HTTP/1.1"), Some("a".to_string()));
    assert_eq!(search_query("GET /s?x=1&qq=2 HTTP/1.1"), None);
    assert_eq!(search_query("GET /search HTTP/1.1"), None);
    assert_eq!(search_query("GET"), None);
    assert_eq!(search_query(""), None);
    assert_eq!(search_query("\nGET /s?q=a HTTP/1.1"), None);
}

#[test]
fn activation_count_advances_from_what_was_stored() {
    assert_eq!(next_activation_count(None), Ok(1));
    assert_eq!(next_activation_count(Some(b"41".to_vec())), Ok(42));
    assert_eq!(next_activation_count(Some(b"+7".to_vec())), Ok(8));
    assert_eq!(next_activation_count(Some(b"seven".to_vec())), Ok(1));
    assert_eq!(next_activation_count(Some(vec![0xff, 0x31])), Ok(1));
    assert_eq!(next_activation_count(Some(b"18446744073709551616".to_vec())), Ok(1));
    assert_eq!(
        next_activation_count(Some(b"18446744073709551615".to_vec())),
        Err("activation count exhausted".to_string())
    );
    assert_eq!(activation_count_bytes(42), b"42".to_vec());
    let stored = activation_count_bytes(9_999);
    assert_eq!(next_activation_count(Some(stored)), Ok(10_000));
}
