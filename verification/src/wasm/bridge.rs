//! The store-side decisions between a guest and the host broker: the
//! payload gate in front of every handoff, the record of memory and table
//! denials, and the classification of call and instantiation outcomes.
use vstd::prelude::*;

use crate::text::{contains_text, occurs_in};
use crate::wasm::error::{is_limit_exceeded, WasmHostError};
use crate::wasm::limits::WasmResourceLimits;

verus! {

/// Host-side delegation surface behind the two imported interfaces: state
/// reads and writes of the installation, and event publication. The bridge
/// only forwards to it; authorization stays with the implementation.
///
/// An implementation says, through its three spec functions, what it
/// answers a read with, which writes it has taken and which events it has
/// taken with which answer. The bridge's contracts are stated over them:
/// they hold of an implementation exactly as far as its methods keep the
/// `ensures` below. An implementation that leaves them as they are claims
/// nothing: every answer is one it may give, and every write and event one
/// it may have taken.
pub trait WasmHostBroker: Send + Sync {
    /// Whether `answer` is an answer this broker gives to a read of `key`.
    open spec fn answers(&self, key: Seq<char>, answer: Option<Seq<u8>>) -> bool {
        true
    }

    /// Whether this broker has taken the write of `value` at `key`.
    open spec fn took(&self, key: Seq<char>, value: Seq<u8>) -> bool {
        true
    }

    /// Whether this broker has taken the event `namespace`/`name` with
    /// `payload`, answering `answer`.
    open spec fn published(
        &self,
        namespace: Seq<char>,
        name: Seq<char>,
        payload: Seq<u8>,
        answer: Result<(), Seq<char>>,
    ) -> bool {
        true
    }

    /// Reads the installation-scoped value at `key`, or `None` when absent.
    fn state_get(&self, key: String) -> (r: Option<Vec<u8>>)
        ensures
            self.answers(key@, bytes_view(r)),
    ;

    /// Writes the installation-scoped value at `key`.
    fn state_set(&self, key: String, value: Vec<u8>)
        ensures
            self.took(key@, value@),
    ;

    /// Publishes one event into the host's typed event transport.
    fn event_publish(&self, namespace: String, name: String, payload: Vec<u8>) -> (r: Result<
        (),
        String,
    >)
        ensures
            self.published(namespace@, name@, payload@, answer_view(r)),
    ;
}

/// The bytes of an optional value.
pub open spec fn bytes_view(v: Option<Vec<u8>>) -> Option<Seq<u8>> {
    match v {
        Some(b) => Some(b@),
        None => None,
    }
}

/// The text of a publication answer.
pub open spec fn answer_view(r: Result<(), String>) -> Result<(), Seq<char>> {
    match r {
        Ok(()) => Ok(()),
        Err(m) => Err(m@),
    }
}

/// The payload-gate denial recorded inside a host import, reported as the
/// outcome of the call in place of the degraded value the guest saw.
#[derive(Debug)]
pub struct PayloadGate {
    denial: Option<WasmHostError>,
}

impl PayloadGate {
    /// The recorded denial, if any.
    pub closed spec fn recorded(&self) -> Option<WasmHostError> {
        self.denial
    }

    /// A gate with nothing recorded.
    pub fn new() -> (g: Self)
        ensures
            g.recorded() is None,
    {
        PayloadGate { denial: None }
    }

    /// Records `failure`, replacing what was recorded before.
    pub fn record(&mut self, failure: WasmHostError)
        ensures
            final(self).recorded() == Some(failure),
    {
        self.denial = Some(failure);
    }

    /// Returns the recorded denial and clears it.
    pub fn take(&mut self) -> (d: Option<WasmHostError>)
        ensures
            d == old(self).recorded(),
            final(self).recorded() is None,
    {
        let d = self.denial.take();
        d
    }
}

/// The text a guest sees when its event payload is refused.
pub open spec fn refused_event_text() -> Seq<char> {
    "event payload exceeds the declared host-call payload limit"@
}

/// The denial of a payload of `len` bytes under `limits`.
pub open spec fn payload_denial(limits: WasmResourceLimits, len: usize) -> WasmHostError {
    WasmHostError::ExternalPayloadTooLarge { limit: limits.max_host_call_payload_bytes, actual: len }
}

/// Whether gate state `next` follows from `prev` when `len` bytes are handed
/// over: unchanged when admitted, holding the typed denial when refused.
pub open spec fn gated(
    prev: PayloadGate,
    next: PayloadGate,
    limits: WasmResourceLimits,
    len: usize,
) -> bool {
    if len <= limits.max_host_call_payload_bytes {
        next.recorded() == prev.recorded()
    } else {
        next.recorded() == Some(payload_denial(limits, len))
    }
}

/// The store data that bridges guest calls to the broker, with the payload
/// gate in front of every handoff.
pub struct BrokerBridge<B: WasmHostBroker> {
    pub broker: B,
    pub limits: WasmResourceLimits,
    pub gate: PayloadGate,
}

impl<B: WasmHostBroker> BrokerBridge<B> {
    /// A bridge to `broker` under `limits`, with nothing recorded.
    pub fn new(broker: B, limits: WasmResourceLimits) -> (b: Self)
        ensures
            b.broker == broker,
            b.limits == limits,
            b.gate.recorded() is None,
    {
        BrokerBridge { broker, limits, gate: PayloadGate::new() }
    }

    /// Gate for one payload handoff: admits `len` bytes iff they do not
    /// exceed the limit, and records the typed denial otherwise.
    pub fn gate(&mut self, len: usize) -> (admitted: bool)
        ensures
            admitted <==> len <= old(self).limits.max_host_call_payload_bytes,
            gated(old(self).gate, final(self).gate, old(self).limits, len),
            final(self).limits == old(self).limits,
            final(self).broker == old(self).broker,
    {
        match self.limits.check_host_call_payload(len) {
            Ok(()) => true,
            Err(failure) => {
                self.gate.record(failure);
                false
            },
        }
    }

    /// Admits a value read from the broker before it re-enters the
    /// component ABI: a value above the limit degrades to `None` and the
    /// denial is recorded.
    pub fn admit_read(&mut self, value: Option<Vec<u8>>) -> (r: Option<Vec<u8>>)
        ensures
            final(self).limits == old(self).limits,
            final(self).broker == old(self).broker,
            value is None ==> r is None && final(self).gate.recorded() == old(self).gate.recorded(),
            value is Some ==> gated(
                old(self).gate,
                final(self).gate,
                old(self).limits,
                value->0.len(),
            ),
            value is Some && value->0.len() <= old(self).limits.max_host_call_payload_bytes ==> r
                == value,
            value is Some && value->0.len() > old(self).limits.max_host_call_payload_bytes ==> r is None,
    {
        match value {
            Some(bytes) => {
                if self.gate(bytes.len()) {
                    Some(bytes)
                } else {
                    None
                }
            },
            None => None,
        }
    }

    /// `state-access.get`: reads `key` through the broker, then gates the
    /// answer as [`admit_read`](Self::admit_read) does.
    pub fn state_get(&mut self, key: String) -> (r: Option<Vec<u8>>)
        ensures
            final(self).limits == old(self).limits,
            final(self).broker == old(self).broker,
            r is Some ==> r->0.len() <= old(self).limits.max_host_call_payload_bytes
                && final(self).gate.recorded() == old(self).gate.recorded(),
            exists|answer: Option<Seq<u8>>|
                #![trigger old(self).broker.answers(key@, answer)]
                {
                    &&& old(self).broker.answers(key@, answer)
                    &&& match answer {
                        None => r is None && final(self).gate.recorded() == old(
                            self,
                        ).gate.recorded(),
                        Some(b) => gated(old(self).gate, final(self).gate, old(self).limits, b.len() as usize)
                            && if b.len() <= old(self).limits.max_host_call_payload_bytes {
                            bytes_view(r) == Some(b)
                        } else {
                            r is None
                        },
                    }
                },
    {
        let ghost k = key@;
        let value = self.broker.state_get(key);
        let ghost answer = bytes_view(value);
        let r = self.admit_read(value);
        assert(old(self).broker.answers(k, answer));
        r
    }

    /// `state-access.set`: gates the value before the broker sees it; an
    /// admitted value is handed to the broker unchanged, an oversized one
    /// never reaches it.
    pub fn state_set(&mut self, key: String, value: Vec<u8>)
        ensures
            gated(old(self).gate, final(self).gate, old(self).limits, value.len()),
            final(self).limits == old(self).limits,
            final(self).broker == old(self).broker,
            value.len() <= old(self).limits.max_host_call_payload_bytes ==> old(self).broker.took(
                key@,
                value@,
            ),
    {
        if self.gate(value.len()) {
            self.broker.state_set(key, value);
        }
    }

    /// `event-publish.publish`: gates the payload before the broker sees
    /// it; an oversized payload is refused with a guest-visible error and
    /// never reaches the broker.
    pub fn publish(&mut self, namespace: String, name: String, payload: Vec<u8>) -> (r: Result<
        (),
        String,
    >)
        ensures
            gated(old(self).gate, final(self).gate, old(self).limits, payload.len()),
            final(self).limits == old(self).limits,
            final(self).broker == old(self).broker,
            payload.len() > old(self).limits.max_host_call_payload_bytes ==> (r matches Err(m)
                && m@ == refused_event_text()),
            payload.len() <= old(self).limits.max_host_call_payload_bytes ==> old(
                self,
            ).broker.published(namespace@, name@, payload@, answer_view(r)),
    {
        if !self.gate(payload.len()) {
            return Err(String::from_str("event payload exceeds the declared host-call payload limit"));
        }
        self.broker.event_publish(namespace, name, payload)
    }
}

/// Records which of the memory and table dimensions a growth request was
/// denied on, so failures are classified as typed resource failures.
pub struct RecordingLimiter {
    /// The memory cap applied to the store.
    pub max_memory_bytes: usize,
    /// The table cap applied to the store.
    pub max_table_entries: usize,
    /// Whether a memory growth was denied.
    pub memory_denied: bool,
    /// Whether a table growth was denied.
    pub table_denied: bool,
}

/// Whether `d` is the denial a limiter in state `l` reports: memory first,
/// then table, else none.
pub open spec fn limiter_reports(l: RecordingLimiter, d: Option<WasmHostError>) -> bool {
    if l.memory_denied {
        d is Some && is_limit_exceeded(d->0, "memory"@)
    } else if l.table_denied {
        d is Some && is_limit_exceeded(d->0, "table"@)
    } else {
        d is None
    }
}

impl RecordingLimiter {
    /// A limiter applying the memory and table caps of `limits`, with no
    /// denial recorded.
    pub fn new(limits: &WasmResourceLimits) -> (l: Self)
        ensures
            l.max_memory_bytes == limits.max_memory_bytes,
            l.max_table_entries == limits.max_table_entries,
            !l.memory_denied,
            !l.table_denied,
    {
        RecordingLimiter {
            max_memory_bytes: limits.max_memory_bytes,
            max_table_entries: limits.max_table_entries,
            memory_denied: false,
            table_denied: false,
        }
    }

    /// Notes the answer the store limits gave to one memory growth request,
    /// and passes it on.
    pub fn memory_growing(&mut self, allowed: bool) -> (r: bool)
        ensures
            r == allowed,
            final(self).memory_denied == (old(self).memory_denied || !allowed),
            final(self).table_denied == old(self).table_denied,
            final(self).max_memory_bytes == old(self).max_memory_bytes,
            final(self).max_table_entries == old(self).max_table_entries,
    {
        if !allowed {
            self.memory_denied = true;
        }
        allowed
    }

    /// Notes the answer the store limits gave to one table growth request,
    /// and passes it on.
    pub fn table_growing(&mut self, allowed: bool) -> (r: bool)
        ensures
            r == allowed,
            final(self).table_denied == (old(self).table_denied || !allowed),
            final(self).memory_denied == old(self).memory_denied,
            final(self).max_memory_bytes == old(self).max_memory_bytes,
            final(self).max_table_entries == old(self).max_table_entries,
    {
        if !allowed {
            self.table_denied = true;
        }
        allowed
    }

    /// The recorded denial, left in place: memory first, then table.
    fn recorded_denial(&self) -> (d: Option<WasmHostError>)
        ensures
            limiter_reports(*self, d),
    {
        if self.memory_denied {
            Some(WasmHostError::WasmResourceLimitExceeded { dimension: String::from_str("memory") })
        } else if self.table_denied {
            Some(WasmHostError::WasmResourceLimitExceeded { dimension: String::from_str("table") })
        } else {
            None
        }
    }

    /// Returns and clears the recorded denial: memory first, then table.
    /// Both records are cleared, so growth that stays within the caps
    /// afterwards reports nothing.
    pub fn take_denial(&mut self) -> (d: Option<WasmHostError>)
        ensures
            limiter_reports(*old(self), d),
            !final(self).memory_denied,
            !final(self).table_denied,
            final(self).max_memory_bytes == old(self).max_memory_bytes,
            final(self).max_table_entries == old(self).max_table_entries,
    {
        let d = self.recorded_denial();
        self.memory_denied = false;
        self.table_denied = false;
        d
    }
}

/// The limiter `l` once its record is cleared: the same caps, no denial.
pub open spec fn cleared(l: RecordingLimiter) -> RecordingLimiter {
    RecordingLimiter { memory_denied: false, table_denied: false, ..l }
}

/// How one guest call ended, as the runtime reported it.
pub enum GuestCallOutcome {
    /// The guest returned `ok(bytes)`.
    Replied(Vec<u8>),
    /// The guest returned `err(message)`.
    ReturnedError(String),
    /// The call failed in the runtime; `trap_out_of_fuel` is whether the
    /// runtime's trap code was out-of-fuel, `message` its description.
    Failed { trap_out_of_fuel: bool, message: String },
}

/// Whether a runtime failure is fuel exhaustion: the typed trap code, or
/// the runtime's wording for it.
pub open spec fn out_of_fuel(trap_out_of_fuel: bool, message: Seq<char>) -> bool {
    trap_out_of_fuel || occurs_in(message, "fuel consumed"@)
}

/// Detects the runtime's out-of-fuel condition, preferring the typed trap
/// code with the message text as a fallback.
pub fn is_out_of_fuel(trap_out_of_fuel: bool, message: &str) -> (b: bool)
    ensures
        b == out_of_fuel(trap_out_of_fuel, message@),
{
    if trap_out_of_fuel {
        return true;
    }
    contains_text(message, "fuel consumed")
}

/// Whether anything is recorded: a gate denial or a limiter denial.
pub open spec fn has_recorded(gate: Option<WasmHostError>, limiter: RecordingLimiter) -> bool {
    gate is Some || limiter.memory_denied || limiter.table_denied
}

/// Whether `d` is the denial reported for a call: a payload-gate denial
/// takes precedence over a limiter denial.
pub open spec fn first_denial(
    gate: Option<WasmHostError>,
    limiter: RecordingLimiter,
    d: Option<WasmHostError>,
) -> bool {
    if gate is Some {
        d == gate
    } else {
        limiter_reports(limiter, d)
    }
}

/// Whether `r` is the classified outcome of a call that ended as `outcome`
/// with `gate` and `limiter` recorded: a recorded denial outranks every
/// outcome; then fuel exhaustion, guest errors and traps map to their
/// classes.
pub open spec fn classified(
    gate: Option<WasmHostError>,
    limiter: RecordingLimiter,
    outcome: GuestCallOutcome,
    r: Result<Vec<u8>, WasmHostError>,
) -> bool {
    if has_recorded(gate, limiter) {
        r is Err && first_denial(gate, limiter, Some(r->Err_0))
    } else {
        match outcome {
            GuestCallOutcome::Replied(bytes) => r == Ok::<Vec<u8>, WasmHostError>(bytes),
            GuestCallOutcome::ReturnedError(message) => r == Err::<Vec<u8>, WasmHostError>(
                WasmHostError::GuestReturnedError { message },
            ),
            GuestCallOutcome::Failed { trap_out_of_fuel, message } => if out_of_fuel(
                trap_out_of_fuel,
                message@,
            ) {
                r is Err && is_limit_exceeded(r->Err_0, "fuel"@)
            } else {
                r == Err::<Vec<u8>, WasmHostError>(WasmHostError::WasmTrap { message })
            },
        }
    }
}

/// A recorded denial is reported once: after it is taken nothing is
/// recorded, so a later call that stays within its limits is not refused
/// for it.
pub proof fn law_denial_reported_once(limiter: RecordingLimiter)
    ensures
        !has_recorded(None, cleared(limiter)),
        first_denial(None, cleared(limiter), None),
{
}

/// Per-instance store data: the broker bridge and the recording limiter.
pub struct InstanceState<B: WasmHostBroker> {
    pub bridge: BrokerBridge<B>,
    pub limiter: RecordingLimiter,
}

impl<B: WasmHostBroker> InstanceState<B> {
    /// The store data of a fresh instance.
    pub fn new(broker: B, limits: WasmResourceLimits) -> (s: Self)
        ensures
            s.bridge.broker == broker,
            s.bridge.limits == limits,
            s.bridge.gate.recorded() is None,
            s.limiter.max_memory_bytes == limits.max_memory_bytes,
            s.limiter.max_table_entries == limits.max_table_entries,
            !s.limiter.memory_denied,
            !s.limiter.table_denied,
    {
        InstanceState { bridge: BrokerBridge::new(broker, limits), limiter: RecordingLimiter::new(&limits) }
    }

    /// Returns and clears the most precise recorded denial: a payload-gate
    /// denial first, then memory and table denials. Every recorded denial
    /// is cleared, so the next call on the instance starts with none.
    pub fn first_recorded_denial(&mut self) -> (d: Option<WasmHostError>)
        ensures
            first_denial(old(self).bridge.gate.recorded(), old(self).limiter, d),
            d is Some <==> has_recorded(old(self).bridge.gate.recorded(), old(self).limiter),
            final(self).bridge.gate.recorded() is None,
            final(self).limiter == cleared(old(self).limiter),
            final(self).bridge.limits == old(self).bridge.limits,
            final(self).bridge.broker == old(self).bridge.broker,
    {
        let gate = self.bridge.gate.take();
        let limiter = self.limiter.take_denial();
        match gate {
            Some(denial) => Some(denial),
            None => limiter,
        }
    }

    /// Classifies how one guest call ended into its typed outcome, clearing
    /// the recorded gate denial.
    pub fn classify_invoke(&mut self, outcome: GuestCallOutcome) -> (r: Result<
        Vec<u8>,
        WasmHostError,
    >)
        ensures
            classified(old(self).bridge.gate.recorded(), old(self).limiter, outcome, r),
            final(self).bridge.gate.recorded() is None,
            final(self).limiter == cleared(old(self).limiter),
    {
        let denial = self.first_recorded_denial();
        match denial {
            Some(d) => Err(d),
            None => match outcome {
                GuestCallOutcome::Replied(bytes) => Ok(bytes),
                GuestCallOutcome::ReturnedError(message) => Err(
                    WasmHostError::GuestReturnedError { message },
                ),
                GuestCallOutcome::Failed { trap_out_of_fuel, message } => {
                    if is_out_of_fuel(trap_out_of_fuel, message.as_str()) {
                        Err(
                            WasmHostError::WasmResourceLimitExceeded {
                                dimension: String::from_str("fuel"),
                            },
                        )
                    } else {
                        Err(WasmHostError::WasmTrap { message })
                    }
                },
            },
        }
    }

    /// Classifies a failed instantiation: a recorded memory or table denial
    /// first, then fuel exhaustion; anything else is an instantiation
    /// failure carrying the runtime's description.
    pub fn classify_setup_error(&self, trap_out_of_fuel: bool, message: String) -> (e: WasmHostError)
        ensures
            self.limiter.memory_denied || self.limiter.table_denied ==> limiter_reports(
                self.limiter,
                Some(e),
            ),
            !self.limiter.memory_denied && !self.limiter.table_denied && out_of_fuel(
                trap_out_of_fuel,
                message@,
            ) ==> is_limit_exceeded(e, "fuel"@),
            !self.limiter.memory_denied && !self.limiter.table_denied && !out_of_fuel(
                trap_out_of_fuel,
                message@,
            ) ==> (e == WasmHostError::InstantiationFailed { reason: message }),
    {
        if let Some(denial) = self.limiter.recorded_denial() {
            return denial;
        }
        if is_out_of_fuel(trap_out_of_fuel, message.as_str()) {
            return WasmHostError::WasmResourceLimitExceeded { dimension: String::from_str("fuel") };
        }
        WasmHostError::InstantiationFailed { reason: message }
    }
}

} // verus!
