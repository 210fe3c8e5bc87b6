//! Request-policy hot-path feasibility evidence.
use vstd::prelude::*;

use crate::reference::request_policy::REFERENCE_REQUEST_POLICY_TOPOLOGY;
use crate::text::{contains_text, decimal, occurs_in, push_decimal};

verus! {

/// Policy decisions intentionally issued concurrently.
pub const DECLARED_CONCURRENCY: usize = 8;

/// Decision requests submitted by the reference fixture.
pub const REQUEST_COUNT: usize = 64;

/// Scripts on the hosted feasibility page besides the fixed ones.
pub const SCRIPT_COUNT: usize = 8;

/// What a request policy decided for one request.
#[derive(Clone, Copy, Debug, PartialEq, Eq, Structural)]
pub enum RequestPolicyAction {
    Allow,
    Block,
}

/// How a request policy decision came about.
#[derive(Clone, Copy, Debug, PartialEq, Eq, Structural)]
pub enum RequestPolicyOutcome {
    /// The evaluator answered in time.
    Evaluated,
    /// The finite deadline passed; the registration's failure mode applied.
    DeadlineExceeded,
    /// The evaluator failed; the registration's failure mode applied.
    FailureFallback,
}

/// Evidence emitted by the early feasibility gate.
#[derive(Clone, Debug, PartialEq, Eq)]
pub struct RequestPolicyFeasibilityReport {
    /// Provider/runtime topology used by the fixture.
    pub topology: String,
    /// Maximum number of policy decisions intentionally issued concurrently.
    pub declared_concurrency: usize,
    /// Number of decision requests submitted by the fixture.
    pub request_count: usize,
    /// Number of decisions that completed with a result or declared fallback.
    pub completed_decisions: usize,
    /// Number of Allow results observed.
    pub allowed_decisions: usize,
    /// Number of Block results observed.
    pub blocked_decisions: usize,
    /// Highest evaluator concurrency observed.
    pub max_observed_in_flight: usize,
    /// Explicit queue/in-flight bound used by the fixture.
    pub queue_bound: usize,
    /// Number of deadline/failure fallbacks observed.
    pub fallback_decisions: usize,
    /// Number of decisions that exceeded their finite deadline.
    pub timeout_decisions: usize,
    /// Number of policy results that completed the browser callback path.
    pub callback_completions: usize,
    /// Number of completed callbacks that selected cancellation.
    pub callback_cancellations: usize,
    /// Number of safe post-outcome observations drained.
    pub observations: usize,
    /// Median decision latency in microseconds.
    pub p50_latency_us: u64,
    /// P95 decision latency in microseconds.
    pub p95_latency_us: u64,
    /// Maximum decision latency in microseconds.
    pub max_latency_us: u64,
    /// No-policy page-load baseline, when the hosted fixture ran it.
    pub baseline_page_load_ms: Option<u64>,
    /// Active-policy page-load measurement, when the hosted fixture ran it.
    pub active_page_load_ms: Option<u64>,
    /// Whether all local gate assertions passed.
    pub accepted: bool,
}

/// Why the hosted feasibility run is unavailable on this platform.
pub open spec fn hosted_only_text() -> Seq<char> {
    "T-004 real CEF feasibility requires the hosted Windows runtime"@
}

/// Runs the hosted real-browser feasibility fixture. Only the hosted Windows
/// runtime can run it; everywhere else the run is refused.
pub fn run_real() -> (r: Result<RequestPolicyFeasibilityReport, String>)
    ensures
        r matches Err(m) && m@ == hosted_only_text(),
{
    Err(String::from_str("T-004 real CEF feasibility requires the hosted Windows runtime"))
}

/// Counts the evaluations in flight and the most seen at once.
#[derive(Debug)]
pub struct MeasuringEvaluator {
    pub current: usize,
    pub max_observed: usize,
}

impl MeasuringEvaluator {
    /// An evaluator with nothing in flight and nothing seen.
    pub fn new() -> (e: Self)
        ensures
            e.current == 0,
            e.max_observed == 0,
    {
        MeasuringEvaluator { current: 0, max_observed: 0 }
    }

    /// One evaluation starts: the count rises and the maximum follows it.
    pub fn enter(&mut self)
        requires
            old(self).current < usize::MAX,
        ensures
            final(self).current == old(self).current + 1,
            final(self).max_observed == if old(self).max_observed < old(self).current + 1 {
                (old(self).current + 1) as usize
            } else {
                old(self).max_observed
            },
    {
        let current = self.current + 1;
        self.current = current;
        if self.max_observed < current {
            self.max_observed = current;
        }
    }

    /// One evaluation ends. The count wraps as an atomic counter does.
    pub fn leave(&mut self)
        ensures
            final(self).current == if old(self).current == 0 {
                usize::MAX
            } else {
                (old(self).current - 1) as usize
            },
            final(self).max_observed == old(self).max_observed,
    {
        self.current = self.current.wrapping_sub(1);
    }
}

/// The reference evaluator's rule: block any URL with a `/blocked-` path
/// segment, allow everything else.
pub open spec fn reference_rule(url: Seq<char>) -> RequestPolicyAction {
    if occurs_in(url, "/blocked-"@) {
        RequestPolicyAction::Block
    } else {
        RequestPolicyAction::Allow
    }
}

/// Applies the reference evaluator's rule.
pub fn reference_decision(url: &str) -> (a: RequestPolicyAction)
    ensures
        a == reference_rule(url@),
{
    if contains_text(url, "/blocked-") {
        RequestPolicyAction::Block
    } else {
        RequestPolicyAction::Allow
    }
}

/// The URL of request `index` of the reference fixture: every fourth
/// request asks for a blocked script.
pub open spec fn request_url_text(index: usize) -> Seq<char> {
    if index % 4 == 0 {
        "http://127.0.0.1/blocked-"@ + decimal(index as nat) + ".js"@
    } else {
        "http://127.0.0.1/allowed-"@ + decimal(index as nat) + ".js"@
    }
}

/// The URL of request `index` of the reference fixture.
pub fn request_url(index: usize) -> (u: String)
    ensures
        u@ == request_url_text(index),
{
    let mut u = if index % 4 == 0 {
        String::from_str("http://127.0.0.1/blocked-")
    } else {
        String::from_str("http://127.0.0.1/allowed-")
    };
    push_decimal(&mut u, index as u64);
    u.append(".js");
    u
}

/// The value at `percent` percent of `values` (taken as sorted), or 0
/// for no values.
pub open spec fn percentile_of(values: Seq<u64>, percent: usize) -> u64 {
    if values.len() == 0 {
        0
    } else {
        let index = (values.len() - 1) * percent / 100;
        if index < values.len() - 1 {
            values[index]
        } else {
            values[values.len() - 1]
        }
    }
}

/// The value at `percent` percent of sorted `values`, or 0 for none.
pub fn percentile(values: &[u64], percent: usize) -> (v: u64)
    requires
        values@.len() == 0 || (values@.len() - 1) * percent <= usize::MAX,
    ensures
        v == percentile_of(values@, percent),
{
    if values.len() == 0 {
        return 0;
    }
    let last = values.len() - 1;
    let scaled = last * percent;
    let index = scaled / 100;
    if index < last {
        values[index]
    } else {
        values[last]
    }
}

/// Whether `s` is in ascending order.
pub open spec fn ascending(s: Seq<u64>) -> bool {
    forall|i: int, j: int| 0 <= i <= j < s.len() ==> s[i] <= s[j]
}

/// Sorts latencies ascending, keeping every value.
pub fn sort_ascending(values: Vec<u64>) -> (sorted: Vec<u64>)
    ensures
        ascending(sorted@),
        sorted@.to_multiset() == values@.to_multiset(),
        sorted@.len() == values@.len(),
{
    let mut sorted: Vec<u64> = Vec::new();
    let mut i: usize = 0;
    proof {
        assert(values@.subrange(0, 0) =~= Seq::<u64>::empty());
        assert(sorted@ =~= Seq::<u64>::empty());
    }
    while i < values.len()
        invariant
            i <= values@.len(),
            ascending(sorted@),
            sorted@.to_multiset() == values@.subrange(0, i as int).to_multiset(),
            sorted@.len() == i,
        decreases values.len() - i,
    {
        let x = values[i];
        let mut k: usize = 0;
        while k < sorted.len() && sorted[k] <= x
            invariant
                k <= sorted@.len(),
                ascending(sorted@),
                forall|j: int| 0 <= j < k ==> sorted@[j] <= x,
            decreases sorted.len() - k,
        {
            k += 1;
        }
        let ghost before = sorted@;
        sorted.insert(k, x);
        proof {
            assert(sorted@ =~= before.insert(k as int, x));
            assert forall|a: int, b: int| 0 <= a <= b < sorted@.len() implies sorted@[a] <= sorted@[b] by {
                if a < k && b > k {
                    assert(before[a] <= x);
                    assert(x <= before[b - 1]);
                } else if a == k && b > k {
                    assert(x <= before[b - 1]);
                } else if a < k && b == k {
                    assert(before[a] <= x);
                }
            }
            vstd::seq_lib::to_multiset_insert(before, k as int, x);
            vstd::seq_lib::to_multiset_build(values@.subrange(0, i as int), x);
            assert(values@.subrange(0, i + 1) =~= values@.subrange(0, i as int).push(x));
        }
        i += 1;
    }
    assert(values@.subrange(0, values@.len() as int) =~= values@);
    sorted
}

/// The number of `action` among `actions`.
pub open spec fn count_action(actions: Seq<RequestPolicyAction>, action: RequestPolicyAction) -> nat
    decreases actions.len(),
{
    if actions.len() == 0 {
        0
    } else {
        count_action(actions.drop_last(), action) + if actions.last() == action {
            1nat
        } else {
            0nat
        }
    }
}

fn count(actions: &Vec<RequestPolicyAction>, action: RequestPolicyAction) -> (n: usize)
    ensures
        n == count_action(actions@, action),
{
    let mut n: usize = 0;
    let mut i: usize = 0;
    while i < actions.len()
        invariant
            i <= actions@.len(),
            n == count_action(actions@.subrange(0, i as int), action),
            n <= i,
        decreases actions.len() - i,
    {
        proof {
            assert(actions@.subrange(0, i + 1).drop_last() =~= actions@.subrange(0, i as int));
        }
        if actions[i] == action {
            n += 1;
        }
        i += 1;
    }
    assert(actions@.subrange(0, actions@.len() as int) =~= actions@);
    n
}

/// What the reference feasibility fixture observed.
#[derive(Debug)]
pub struct ReferenceEvidence {
    /// The action and latency of every completed decision, in completion
    /// order.
    pub actions: Vec<RequestPolicyAction>,
    pub latencies_us: Vec<u64>,
    /// The highest evaluator concurrency observed.
    pub max_observed_in_flight: usize,
    /// The action and outcome of the decision against the slow evaluator
    /// under a short deadline.
    pub timeout_action: RequestPolicyAction,
    pub timeout_outcome: RequestPolicyOutcome,
    /// The number of observations drained afterwards.
    pub observations: usize,
    /// Whether a decision from another browser context was refused.
    pub scope_probe_refused: bool,
}

/// Whether the reference evidence is accepted: every request completed
/// with an allow or block, concurrency stayed within the declared bound, the
/// slow decision fell back to allow on its deadline, every decision plus
/// the fallback was observed, and the foreign context was refused.
pub open spec fn reference_accepted(e: ReferenceEvidence) -> bool {
    &&& e.actions@.len() == REQUEST_COUNT
    &&& count_action(e.actions@, RequestPolicyAction::Allow) + count_action(
        e.actions@,
        RequestPolicyAction::Block,
    ) == REQUEST_COUNT
    &&& e.max_observed_in_flight <= DECLARED_CONCURRENCY
    &&& e.timeout_action == RequestPolicyAction::Allow
    &&& e.timeout_outcome == RequestPolicyOutcome::DeadlineExceeded
    &&& e.observations == REQUEST_COUNT + 1
    &&& e.scope_probe_refused
}

/// The report of the reference feasibility fixture.
pub fn reference_report(evidence: ReferenceEvidence) -> (r: RequestPolicyFeasibilityReport)
    requires
        evidence.latencies_us@.len() == evidence.actions@.len(),
        evidence.latencies_us@.len() == 0 || (evidence.latencies_us@.len() - 1) * 95
            <= usize::MAX,
    ensures
        r.topology@ == REFERENCE_REQUEST_POLICY_TOPOLOGY@,
        r.declared_concurrency == DECLARED_CONCURRENCY,
        r.request_count == REQUEST_COUNT,
        r.completed_decisions == evidence.actions@.len(),
        r.allowed_decisions == count_action(evidence.actions@, RequestPolicyAction::Allow),
        r.blocked_decisions == count_action(evidence.actions@, RequestPolicyAction::Block),
        r.max_observed_in_flight == evidence.max_observed_in_flight,
        r.queue_bound == DECLARED_CONCURRENCY,
        r.fallback_decisions == if evidence.timeout_outcome != RequestPolicyOutcome::Evaluated {
            1usize
        } else {
            0usize
        },
        r.timeout_decisions == if evidence.timeout_outcome == RequestPolicyOutcome::DeadlineExceeded {
            1usize
        } else {
            0usize
        },
        r.callback_completions == 0,
        r.callback_cancellations == 0,
        r.observations == evidence.observations,
        exists|sorted: Seq<u64>|
            ascending(sorted) && sorted.to_multiset() == evidence.latencies_us@.to_multiset()
                && sorted.len() == evidence.latencies_us@.len()
                && r.p50_latency_us == percentile_of(sorted, 50)
                && r.p95_latency_us == percentile_of(sorted, 95)
                && r.max_latency_us == (if sorted.len() == 0 {
                0
            } else {
                sorted[sorted.len() - 1]
            }),
        r.baseline_page_load_ms is None,
        r.active_page_load_ms is None,
        r.accepted == reference_accepted(evidence),
{
    let ReferenceEvidence {
        actions,
        latencies_us,
        max_observed_in_flight,
        timeout_action,
        timeout_outcome,
        observations,
        scope_probe_refused,
    } = evidence;
    let sorted = sort_ascending(latencies_us);
    let allowed = count(&actions, RequestPolicyAction::Allow);
    let blocked = count(&actions, RequestPolicyAction::Block);
    proof {
        lemma_counts_bounded(actions@);
    }
    let p50 = if sorted.len() == 0 {
        0
    } else {
        proof {
            let n: int = sorted@.len() - 1;
            assert(n * 50 <= n * 95) by (nonlinear_arith)
                requires
                    n >= 0,
            ;
        }
        percentile(sorted.as_slice(), 50)
    };
    let max_latency = if sorted.len() == 0 {
        0
    } else {
        sorted[sorted.len() - 1]
    };
    let p95 = if sorted.len() == 0 {
        0
    } else {
        percentile(sorted.as_slice(), 95)
    };
    let completed = actions.len();
    let accepted = completed == REQUEST_COUNT && allowed + blocked == REQUEST_COUNT
        && max_observed_in_flight <= DECLARED_CONCURRENCY && timeout_action
        == RequestPolicyAction::Allow && timeout_outcome == RequestPolicyOutcome::DeadlineExceeded
        && observations == REQUEST_COUNT + 1 && scope_probe_refused;
    RequestPolicyFeasibilityReport {
        topology: String::from_str(REFERENCE_REQUEST_POLICY_TOPOLOGY),
        declared_concurrency: DECLARED_CONCURRENCY,
        request_count: REQUEST_COUNT,
        completed_decisions: completed,
        allowed_decisions: allowed,
        blocked_decisions: blocked,
        max_observed_in_flight,
        queue_bound: DECLARED_CONCURRENCY,
        fallback_decisions: if timeout_outcome != RequestPolicyOutcome::Evaluated {
            1
        } else {
            0
        },
        timeout_decisions: if timeout_outcome == RequestPolicyOutcome::DeadlineExceeded {
            1
        } else {
            0
        },
        callback_completions: 0,
        callback_cancellations: 0,
        observations,
        p50_latency_us: p50,
        p95_latency_us: p95,
        max_latency_us: max_latency,
        baseline_page_load_ms: None,
        active_page_load_ms: None,
        accepted,
    }
}

proof fn lemma_counts_bounded(actions: Seq<RequestPolicyAction>)
    ensures
        count_action(actions, RequestPolicyAction::Allow) + count_action(
            actions,
            RequestPolicyAction::Block,
        ) == actions.len(),
    decreases actions.len(),
{
    if actions.len() > 0 {
        lemma_counts_bounded(actions.drop_last());
    }
}

/// The page the hosted feasibility fixture serves: a run-tagged script for
/// each active resource, then a blocked and a slow one.
pub open spec fn index_body_text(nonce: Seq<char>) -> Seq<char> {
    "<!doctype html><html><head><meta charset=\"utf-8\"><title>Worldline T004</title></head><body><h1>Worldline T004</h1>"@
        + scripts_text(nonce, SCRIPT_COUNT as nat) + "<script src=\"/blocked.js?run="@ + nonce
        + "\"></script><script src=\"/slow.js?run="@ + nonce + "\"></script></body></html>"@
}

/// The active-resource scripts `0..count`, each tagged with the run.
pub open spec fn scripts_text(nonce: Seq<char>, count: nat) -> Seq<char>
    decreases count,
{
    if count == 0 {
        seq![]
    } else {
        scripts_text(nonce, (count - 1) as nat) + "<script src=\"/active-"@ + decimal(
            (count - 1) as nat,
        ) + ".js?run="@ + nonce + "\"></script>"@
    }
}

/// Appends the active-resource scripts `0..count`.
pub fn push_scripts(body: &mut String, nonce: &str, count: usize)
    ensures
        final(body)@ == old(body)@ + scripts_text(nonce@, count as nat),
{
    let mut index: usize = 0;
    while index < count
        invariant
            index <= count,
            body@ == old(body)@ + scripts_text(nonce@, index as nat),
        decreases count - index,
    {
        body.append("<script src=\"/active-");
        push_decimal(body, index as u64);
        body.append(".js?run=");
        body.append(nonce);
        body.append("\"></script>");
        index += 1;
        assert(body@ =~= old(body)@ + scripts_text(nonce@, index as nat));
    }
}

/// The page the hosted feasibility fixture serves.
pub fn index_body(nonce: &str) -> (body: String)
    ensures
        body@ == index_body_text(nonce@),
{
    let mut body = String::from_str(
        "<!doctype html><html><head><meta charset=\"utf-8\"><title>Worldline T004</title></head><body><h1>Worldline T004</h1>",
    );
    push_scripts(&mut body, nonce, SCRIPT_COUNT);
    body.append("<script src=\"/blocked.js?run=");
    body.append(nonce);
    body.append("\"></script><script src=\"/slow.js?run=");
    body.append(nonce);
    body.append("\"></script></body></html>");
    assert(body@ =~= index_body_text(nonce@));
    body
}

} // verus!
