//! The durable event record and its storage encoding.
//!
//! A record is the magic `WL-EVENT-1`, then the event id, the contract
//! namespace, name and version, the producer, the optional producer runtime,
//! the sequence, the correlation id, the optional causation, the delivery mode,
//! the payload, and the optional invocation-completed metadata, each written
//! with the field encodings of [`crate::codec`].
use vstd::prelude::*;

use crate::codec::{
    enc_bytes, enc_string, enc_u16, enc_u64, enc_u8, bytes_fit, lemma_take_bytes_enc,
    lemma_take_bytes_sound, lemma_take_le_enc, lemma_take_le_sound, lemma_take_string_enc,
    lemma_take_string_sound, over_limit_message, string_fits, take_bytes, take_le, take_string,
    Decoder, Encoder, MAX_CODEC_PAYLOAD_BYTES,
};
use crate::le::{le_bytes, lemma_pow256_values};
use crate::text::{blank, decimal, is_blank, message_with_number};

verus! {

/// Whether an event is kept by the durable journal.
#[derive(Clone, Copy, Debug, PartialEq, Eq, Structural)]
pub enum DeliveryMode {
    Ephemeral,
    Durable,
}

/// The outcome class of one completed invocation.
#[derive(Clone, Copy, Debug, PartialEq, Eq, Structural)]
pub enum RpcOutcomeClass {
    Success,
    AuthorizationDenied,
    NoCompatibleProvider,
    ProviderBusy,
    QueueFull,
    DeadlineExceeded,
    Cancelled,
    ProviderReturnedError,
    ProviderCrashed,
    RuntimeUnavailable,
    InvalidRetryClassification,
    InvalidIdempotencyKey,
}

/// What caused an event: an invocation or another event, by id.
#[derive(Clone, Debug, PartialEq, Eq)]
pub enum CausationRef {
    Invocation(String),
    Event(String),
}

/// Metadata of the invocation whose completion an event reports.
#[derive(Clone, Debug, PartialEq, Eq)]
pub struct InvocationCompleted {
    pub request_id: String,
    pub invocation_id: String,
    pub caller: String,
    pub provider_incarnation: u64,
    pub provider_sequence: u64,
    pub capability_namespace: String,
    pub capability_name: String,
    pub interface_major: u16,
    pub operation: String,
    pub outcome: RpcOutcomeClass,
}

/// One event as the journal and the outbox store it.
#[derive(Clone, Debug, PartialEq, Eq)]
pub struct EventEnvelope {
    pub event_id: String,
    pub namespace: String,
    pub name: String,
    pub version_major: u16,
    pub version_minor: u16,
    pub producer: String,
    /// The producer runtime as (incarnation, sequence).
    pub producer_runtime: Option<(u64, u64)>,
    pub sequence: u64,
    pub correlation_id: String,
    pub causation: Option<CausationRef>,
    pub delivery_mode: DeliveryMode,
    pub payload: Vec<u8>,
    pub invocation_completed: Option<InvocationCompleted>,
}

/// Mathematical form of [`CausationRef`].
pub enum CausationView {
    Invocation(Seq<char>),
    Event(Seq<char>),
}

/// Mathematical form of [`InvocationCompleted`].
pub struct CompletedView {
    pub request_id: Seq<char>,
    pub invocation_id: Seq<char>,
    pub caller: Seq<char>,
    pub provider_incarnation: u64,
    pub provider_sequence: u64,
    pub capability_namespace: Seq<char>,
    pub capability_name: Seq<char>,
    pub interface_major: u16,
    pub operation: Seq<char>,
    pub outcome: RpcOutcomeClass,
}

/// Mathematical form of [`EventEnvelope`].
pub struct EnvelopeView {
    pub event_id: Seq<char>,
    pub namespace: Seq<char>,
    pub name: Seq<char>,
    pub version_major: u16,
    pub version_minor: u16,
    pub producer: Seq<char>,
    pub producer_runtime: Option<(u64, u64)>,
    pub sequence: u64,
    pub correlation_id: Seq<char>,
    pub causation: Option<CausationView>,
    pub delivery_mode: DeliveryMode,
    pub payload: Seq<u8>,
    pub invocation_completed: Option<CompletedView>,
}

impl View for CausationRef {
    type V = CausationView;

    open spec fn view(&self) -> CausationView {
        match self {
            CausationRef::Invocation(id) => CausationView::Invocation(id@),
            CausationRef::Event(id) => CausationView::Event(id@),
        }
    }
}

impl View for InvocationCompleted {
    type V = CompletedView;

    open spec fn view(&self) -> CompletedView {
        CompletedView {
            request_id: self.request_id@,
            invocation_id: self.invocation_id@,
            caller: self.caller@,
            provider_incarnation: self.provider_incarnation,
            provider_sequence: self.provider_sequence,
            capability_namespace: self.capability_namespace@,
            capability_name: self.capability_name@,
            interface_major: self.interface_major,
            operation: self.operation@,
            outcome: self.outcome,
        }
    }
}

/// The plain values of an optional causation.
pub open spec fn causation_view(c: Option<CausationRef>) -> Option<CausationView> {
    match c {
        Some(c) => Some(c@),
        None => None,
    }
}

/// The plain values of an optional completion record.
pub open spec fn completed_view(c: Option<InvocationCompleted>) -> Option<CompletedView> {
    match c {
        Some(c) => Some(c@),
        None => None,
    }
}

impl View for EventEnvelope {
    type V = EnvelopeView;

    open spec fn view(&self) -> EnvelopeView {
        EnvelopeView {
            event_id: self.event_id@,
            namespace: self.namespace@,
            name: self.name@,
            version_major: self.version_major,
            version_minor: self.version_minor,
            producer: self.producer@,
            producer_runtime: self.producer_runtime,
            sequence: self.sequence,
            correlation_id: self.correlation_id@,
            causation: causation_view(self.causation),
            delivery_mode: self.delivery_mode,
            payload: self.payload@,
            invocation_completed: completed_view(self.invocation_completed),
        }
    }
}

/// The number an outcome class is stored as.
pub open spec fn outcome_code(o: RpcOutcomeClass) -> u8 {
    match o {
        RpcOutcomeClass::Success => 0,
        RpcOutcomeClass::AuthorizationDenied => 1,
        RpcOutcomeClass::NoCompatibleProvider => 2,
        RpcOutcomeClass::ProviderBusy => 3,
        RpcOutcomeClass::QueueFull => 4,
        RpcOutcomeClass::DeadlineExceeded => 5,
        RpcOutcomeClass::Cancelled => 6,
        RpcOutcomeClass::ProviderReturnedError => 7,
        RpcOutcomeClass::ProviderCrashed => 8,
        RpcOutcomeClass::RuntimeUnavailable => 9,
        RpcOutcomeClass::InvalidRetryClassification => 10,
        RpcOutcomeClass::InvalidIdempotencyKey => 11,
    }
}

/// The outcome class stored as `code`, if any.
pub open spec fn outcome_of_code(code: u8) -> Option<RpcOutcomeClass> {
    if code == 0 {
        Some(RpcOutcomeClass::Success)
    } else if code == 1 {
        Some(RpcOutcomeClass::AuthorizationDenied)
    } else if code == 2 {
        Some(RpcOutcomeClass::NoCompatibleProvider)
    } else if code == 3 {
        Some(RpcOutcomeClass::ProviderBusy)
    } else if code == 4 {
        Some(RpcOutcomeClass::QueueFull)
    } else if code == 5 {
        Some(RpcOutcomeClass::DeadlineExceeded)
    } else if code == 6 {
        Some(RpcOutcomeClass::Cancelled)
    } else if code == 7 {
        Some(RpcOutcomeClass::ProviderReturnedError)
    } else if code == 8 {
        Some(RpcOutcomeClass::ProviderCrashed)
    } else if code == 9 {
        Some(RpcOutcomeClass::RuntimeUnavailable)
    } else if code == 10 {
        Some(RpcOutcomeClass::InvalidRetryClassification)
    } else if code == 11 {
        Some(RpcOutcomeClass::InvalidIdempotencyKey)
    } else {
        None
    }
}

/// The stored number of an outcome class.
pub fn encode_outcome(outcome: RpcOutcomeClass) -> (code: u8)
    ensures
        code == outcome_code(outcome),
        outcome == RpcOutcomeClass::Success ==> code == 0,
        outcome == RpcOutcomeClass::AuthorizationDenied ==> code == 1,
        outcome == RpcOutcomeClass::NoCompatibleProvider ==> code == 2,
        outcome == RpcOutcomeClass::ProviderBusy ==> code == 3,
        outcome == RpcOutcomeClass::QueueFull ==> code == 4,
        outcome == RpcOutcomeClass::DeadlineExceeded ==> code == 5,
        outcome == RpcOutcomeClass::Cancelled ==> code == 6,
        outcome == RpcOutcomeClass::ProviderReturnedError ==> code == 7,
        outcome == RpcOutcomeClass::ProviderCrashed ==> code == 8,
        outcome == RpcOutcomeClass::RuntimeUnavailable ==> code == 9,
        outcome == RpcOutcomeClass::InvalidRetryClassification ==> code == 10,
        outcome == RpcOutcomeClass::InvalidIdempotencyKey ==> code == 11,
{
    match outcome {
        RpcOutcomeClass::Success => 0,
        RpcOutcomeClass::AuthorizationDenied => 1,
        RpcOutcomeClass::NoCompatibleProvider => 2,
        RpcOutcomeClass::ProviderBusy => 3,
        RpcOutcomeClass::QueueFull => 4,
        RpcOutcomeClass::DeadlineExceeded => 5,
        RpcOutcomeClass::Cancelled => 6,
        RpcOutcomeClass::ProviderReturnedError => 7,
        RpcOutcomeClass::ProviderCrashed => 8,
        RpcOutcomeClass::RuntimeUnavailable => 9,
        RpcOutcomeClass::InvalidRetryClassification => 10,
        RpcOutcomeClass::InvalidIdempotencyKey => 11,
    }
}

/// The outcome class a stored number stands for; codes above eleven are
/// refused.
pub fn decode_outcome(value: u8) -> (res: Result<RpcOutcomeClass, String>)
    ensures
        res is Ok <==> value <= 11,
        res matches Ok(o) ==> Some(o) == outcome_of_code(value) && outcome_code(o) == value,
        value == 0 ==> res == Ok::<RpcOutcomeClass, String>(RpcOutcomeClass::Success),
        value == 1 ==> res == Ok::<RpcOutcomeClass, String>(RpcOutcomeClass::AuthorizationDenied),
        value == 2 ==> res == Ok::<RpcOutcomeClass, String>(RpcOutcomeClass::NoCompatibleProvider),
        value == 3 ==> res == Ok::<RpcOutcomeClass, String>(RpcOutcomeClass::ProviderBusy),
        value == 4 ==> res == Ok::<RpcOutcomeClass, String>(RpcOutcomeClass::QueueFull),
        value == 5 ==> res == Ok::<RpcOutcomeClass, String>(RpcOutcomeClass::DeadlineExceeded),
        value == 6 ==> res == Ok::<RpcOutcomeClass, String>(RpcOutcomeClass::Cancelled),
        value == 7 ==> res == Ok::<RpcOutcomeClass, String>(RpcOutcomeClass::ProviderReturnedError),
        value == 8 ==> res == Ok::<RpcOutcomeClass, String>(RpcOutcomeClass::ProviderCrashed),
        value == 9 ==> res == Ok::<RpcOutcomeClass, String>(RpcOutcomeClass::RuntimeUnavailable),
        value == 10 ==> res == Ok::<RpcOutcomeClass, String>(RpcOutcomeClass::InvalidRetryClassification),
        value == 11 ==> res == Ok::<RpcOutcomeClass, String>(RpcOutcomeClass::InvalidIdempotencyKey),
        res matches Err(m) ==> m@ == "unknown RPC outcome code "@ + decimal(value as nat) + ""@,
{
    match value {
        0 => Ok(RpcOutcomeClass::Success),
        1 => Ok(RpcOutcomeClass::AuthorizationDenied),
        2 => Ok(RpcOutcomeClass::NoCompatibleProvider),
        3 => Ok(RpcOutcomeClass::ProviderBusy),
        4 => Ok(RpcOutcomeClass::QueueFull),
        5 => Ok(RpcOutcomeClass::DeadlineExceeded),
        6 => Ok(RpcOutcomeClass::Cancelled),
        7 => Ok(RpcOutcomeClass::ProviderReturnedError),
        8 => Ok(RpcOutcomeClass::ProviderCrashed),
        9 => Ok(RpcOutcomeClass::RuntimeUnavailable),
        10 => Ok(RpcOutcomeClass::InvalidRetryClassification),
        11 => Ok(RpcOutcomeClass::InvalidIdempotencyKey),
        other => Err(message_with_number("unknown RPC outcome code ", other as u64, "")),
    }
}

/// Each outcome class is stored as its fixed wire number: success 0,
/// authorization denied 1, no compatible provider 2, provider busy 3, queue
/// full 4, deadline exceeded 5, cancelled 6, provider returned an error 7,
/// provider crashed 8, runtime unavailable 9, invalid retry classification
/// 10, invalid idempotency key 11; each of those numbers reads back as that
/// class, and no number above eleven names a class.
pub proof fn law_outcome_wire_numbers(code: u8)
    ensures
        outcome_code(RpcOutcomeClass::Success) == 0,
        outcome_code(RpcOutcomeClass::AuthorizationDenied) == 1,
        outcome_code(RpcOutcomeClass::NoCompatibleProvider) == 2,
        outcome_code(RpcOutcomeClass::ProviderBusy) == 3,
        outcome_code(RpcOutcomeClass::QueueFull) == 4,
        outcome_code(RpcOutcomeClass::DeadlineExceeded) == 5,
        outcome_code(RpcOutcomeClass::Cancelled) == 6,
        outcome_code(RpcOutcomeClass::ProviderReturnedError) == 7,
        outcome_code(RpcOutcomeClass::ProviderCrashed) == 8,
        outcome_code(RpcOutcomeClass::RuntimeUnavailable) == 9,
        outcome_code(RpcOutcomeClass::InvalidRetryClassification) == 10,
        outcome_code(RpcOutcomeClass::InvalidIdempotencyKey) == 11,
        outcome_of_code(0) == Some(RpcOutcomeClass::Success),
        outcome_of_code(1) == Some(RpcOutcomeClass::AuthorizationDenied),
        outcome_of_code(2) == Some(RpcOutcomeClass::NoCompatibleProvider),
        outcome_of_code(3) == Some(RpcOutcomeClass::ProviderBusy),
        outcome_of_code(4) == Some(RpcOutcomeClass::QueueFull),
        outcome_of_code(5) == Some(RpcOutcomeClass::DeadlineExceeded),
        outcome_of_code(6) == Some(RpcOutcomeClass::Cancelled),
        outcome_of_code(7) == Some(RpcOutcomeClass::ProviderReturnedError),
        outcome_of_code(8) == Some(RpcOutcomeClass::ProviderCrashed),
        outcome_of_code(9) == Some(RpcOutcomeClass::RuntimeUnavailable),
        outcome_of_code(10) == Some(RpcOutcomeClass::InvalidRetryClassification),
        outcome_of_code(11) == Some(RpcOutcomeClass::InvalidIdempotencyKey),
        code > 11 ==> outcome_of_code(code) is None,
{
}

/// Decoding the stored number of an outcome class gives the class back.
pub proof fn outcome_code_roundtrip(o: RpcOutcomeClass)
    ensures
        outcome_of_code(outcome_code(o)) == Some(o),
        outcome_code(o) <= 11,
{
}

/// The record magic.
pub open spec fn event_magic() -> Seq<u8> {
    seq![87u8, 76u8, 45u8, 69u8, 86u8, 69u8, 78u8, 84u8, 45u8, 49u8]
}

/// The stored code of a delivery mode.
pub open spec fn mode_code(m: DeliveryMode) -> u8 {
    match m {
        DeliveryMode::Ephemeral => 0,
        DeliveryMode::Durable => 1,
    }
}

/// The stored bytes of an optional runtime identity: a presence byte, then
/// incarnation and sequence.
pub open spec fn enc_runtime(r: Option<(u64, u64)>) -> Seq<u8> {
    match r {
        None => enc_u8(0),
        Some((a, b)) => enc_u8(1) + (enc_u64(a) + enc_u64(b)),
    }
}

/// The stored bytes of an optional causation: a presence byte, then its
/// kind and identity.
pub open spec fn enc_causation(c: Option<CausationView>) -> Seq<u8> {
    match c {
        None => enc_u8(0),
        Some(CausationView::Invocation(id)) => enc_u8(1) + enc_string(id),
        Some(CausationView::Event(id)) => enc_u8(2) + enc_string(id),
    }
}

/// The stored bytes of an optional completion record: a presence byte,
/// then its fields.
pub open spec fn enc_completed(c: Option<CompletedView>) -> Seq<u8> {
    match c {
        None => enc_u8(0),
        Some(m) => enc_u8(1) + (enc_string(m.request_id) + (enc_string(m.invocation_id) + (
        enc_string(m.caller) + (enc_u64(m.provider_incarnation) + (enc_u64(m.provider_sequence) + (
        enc_string(m.capability_namespace) + (enc_string(m.capability_name) + (enc_u16(
            m.interface_major,
        ) + (enc_string(m.operation) + enc_u8(outcome_code(m.outcome))))))))))),
    }
}

/// The id, contract and producer of an event, as stored.
pub open spec fn enc_head(e: EnvelopeView) -> Seq<u8> {
    enc_string(e.event_id) + (enc_string(e.namespace) + (enc_string(e.name) + (enc_u16(
        e.version_major,
    ) + (enc_u16(e.version_minor) + enc_string(e.producer)))))
}

/// The runtime, sequence, trace and delivery mode of an event, as stored.
pub open spec fn enc_mid(e: EnvelopeView) -> Seq<u8> {
    enc_runtime(e.producer_runtime) + (enc_u64(e.sequence) + (enc_string(e.correlation_id) + (
    enc_causation(e.causation) + enc_u8(mode_code(e.delivery_mode)))))
}

/// The payload and completion metadata of an event, as stored.
pub open spec fn enc_tail(e: EnvelopeView) -> Seq<u8> {
    enc_bytes(e.payload) + enc_completed(e.invocation_completed)
}

/// The stored bytes of an event.
pub open spec fn enc_envelope(e: EnvelopeView) -> Seq<u8> {
    event_magic() + (enc_head(e) + (enc_mid(e) + enc_tail(e)))
}

/// Whether every field of an event is within the record limits.
pub open spec fn envelope_fits(e: EnvelopeView) -> bool {
    &&& string_fits(e.event_id)
    &&& string_fits(e.namespace)
    &&& string_fits(e.name)
    &&& string_fits(e.producer)
    &&& string_fits(e.correlation_id)
    &&& match e.causation {
        None => true,
        Some(CausationView::Invocation(id)) => string_fits(id),
        Some(CausationView::Event(id)) => string_fits(id),
    }
    &&& bytes_fit(e.payload, MAX_CODEC_PAYLOAD_BYTES as nat)
    &&& match e.invocation_completed {
        None => true,
        Some(m) => {
            &&& string_fits(m.request_id)
            &&& string_fits(m.invocation_id)
            &&& string_fits(m.caller)
            &&& string_fits(m.capability_namespace)
            &&& string_fits(m.capability_name)
            &&& string_fits(m.operation)
        },
    }
}

/// Whether the identities of an event are well formed: its id, contract
/// namespace and name, producer and correlation id are not blank, nor are
/// the namespace and name of a completed capability.
pub open spec fn envelope_well_formed(e: EnvelopeView) -> bool {
    &&& !blank(e.event_id)
    &&& !blank(e.namespace)
    &&& !blank(e.name)
    &&& !blank(e.producer)
    &&& !blank(e.correlation_id)
    &&& match e.invocation_completed {
        None => true,
        Some(m) => !blank(m.capability_namespace) && !blank(m.capability_name),
    }
}

/// The record magic, `WL-EVENT-1` in ASCII.
pub fn event_magic_bytes() -> (magic: Vec<u8>)
    ensures
        magic@ == event_magic(),
{
    let magic = vec![87u8, 76u8, 45u8, 69u8, 86u8, 69u8, 78u8, 84u8, 45u8, 49u8];
    assert(magic@ =~= event_magic());
    magic
}


/// Reading a byte off its encoding gives it back.
pub proof fn lemma_take_u8_enc(v: u8, rest: Seq<u8>)
    ensures
        take_le(enc_u8(v) + rest, 1) == Some((v as nat, rest)),
{
    lemma_pow256_values();
    reveal_with_fuel(le_bytes, 2);
    assert(le_bytes(v as nat, 1) =~= enc_u8(v));
    lemma_take_le_enc(v as nat, 1, rest);
}

/// What is read as a byte is its encoding, followed by the rest.
pub proof fn lemma_take_u8_sound(s: Seq<u8>)
    requires
        take_le(s, 1) is Some,
    ensures
        take_le(s, 1).unwrap().0 < 256,
        s == enc_u8(take_le(s, 1).unwrap().0 as u8) + take_le(s, 1).unwrap().1,
{
    lemma_take_le_sound(s, 1);
    lemma_pow256_values();
    let v = take_le(s, 1).unwrap().0;
    reveal_with_fuel(le_bytes, 2);
    assert(le_bytes(v, 1) =~= enc_u8(v as u8));
}

/// Reading a 16-bit number off its encoding gives it back.
pub proof fn lemma_take_u16_enc(v: u16, rest: Seq<u8>)
    ensures
        take_le(enc_u16(v) + rest, 2) == Some((v as nat, rest)),
{
    lemma_pow256_values();
    lemma_take_le_enc(v as nat, 2, rest);
}

/// What is read as a 16-bit number is its encoding, followed by the rest.
pub proof fn lemma_take_u16_sound(s: Seq<u8>)
    requires
        take_le(s, 2) is Some,
    ensures
        take_le(s, 2).unwrap().0 < 0x1_0000,
        s == enc_u16(take_le(s, 2).unwrap().0 as u16) + take_le(s, 2).unwrap().1,
{
    lemma_take_le_sound(s, 2);
    lemma_pow256_values();
}

/// Reading a 64-bit number off its encoding gives it back.
pub proof fn lemma_take_u64_enc(v: u64, rest: Seq<u8>)
    ensures
        take_le(enc_u64(v) + rest, 8) == Some((v as nat, rest)),
{
    lemma_pow256_values();
    lemma_take_le_enc(v as nat, 8, rest);
}

/// What is read as a 64-bit number is its encoding, followed by the rest.
pub proof fn lemma_take_u64_sound(s: Seq<u8>)
    requires
        take_le(s, 8) is Some,
    ensures
        take_le(s, 8).unwrap().0 < 0x1_0000_0000_0000_0000,
        s == enc_u64(take_le(s, 8).unwrap().0 as u64) + take_le(s, 8).unwrap().1,
{
    lemma_take_le_sound(s, 8);
    lemma_pow256_values();
}

/// Reading the optional producer runtime off the front of `s`.
pub open spec fn parse_runtime(s: Seq<u8>) -> Option<(Option<(u64, u64)>, Seq<u8>)> {
    match take_le(s, 1) {
        None => None,
        Some((flag, r1)) => if flag == 0 {
            Some((None, r1))
        } else if flag == 1 {
            match take_le(r1, 8) {
                None => None,
                Some((a, r2)) => match take_le(r2, 8) {
                    None => None,
                    Some((b, r3)) => Some((Some((a as u64, b as u64)), r3)),
                },
            }
        } else {
            None
        },
    }
}

/// Reading the optional causation off the front of `s`.
pub open spec fn parse_causation(s: Seq<u8>) -> Option<(Option<CausationView>, Seq<u8>)> {
    match take_le(s, 1) {
        None => None,
        Some((flag, r1)) => if flag == 0 {
            Some((None, r1))
        } else if flag == 1 || flag == 2 {
            match take_string(r1) {
                None => None,
                Some((id, r2)) => Some(
                    (
                        Some(
                            if flag == 1 {
                                CausationView::Invocation(id)
                            } else {
                                CausationView::Event(id)
                            },
                        ),
                        r2,
                    ),
                ),
            }
        } else {
            None
        },
    }
}

/// The request, invocation, caller and provider runtime of a completion.
pub type CompletedFront = (Seq<char>, Seq<char>, Seq<char>, u64, u64);

/// The capability, operation and outcome of a completion.
pub type CompletedBack = (Seq<char>, Seq<char>, u16, Seq<char>, RpcOutcomeClass);

/// The stored bytes of the first half of a completion record, before `rest`.
pub open spec fn front_bytes(a: CompletedFront, rest: Seq<u8>) -> Seq<u8> {
    enc_string(a.0) + (enc_string(a.1) + (enc_string(a.2) + (enc_u64(a.3) + (enc_u64(a.4)
        + rest))))
}

/// The stored bytes of the second half of a completion record, before
/// `rest`.
pub open spec fn back_bytes(b: CompletedBack, rest: Seq<u8>) -> Seq<u8> {
    enc_string(b.0) + (enc_string(b.1) + (enc_u16(b.2) + (enc_string(b.3) + (enc_u8(
        outcome_code(b.4),
    ) + rest))))
}

/// Whether the texts of the first half of a completion record fit.
pub open spec fn front_fits(a: CompletedFront) -> bool {
    string_fits(a.0) && string_fits(a.1) && string_fits(a.2)
}

/// Whether the texts of the second half of a completion record fit.
pub open spec fn back_fits(b: CompletedBack) -> bool {
    string_fits(b.0) && string_fits(b.1) && string_fits(b.3)
}

/// Reads the first half of a completion record off `s`.
pub open spec fn parse_front(s: Seq<u8>) -> Option<(CompletedFront, Seq<u8>)> {
    match take_string(s) {
        None => None,
        Some((request_id, r1)) => match take_string(r1) {
            None => None,
            Some((invocation_id, r2)) => match take_string(r2) {
                None => None,
                Some((caller, r3)) => match take_le(r3, 8) {
                    None => None,
                    Some((incarnation, r4)) => match take_le(r4, 8) {
                        None => None,
                        Some((sequence, r5)) => Some(
                            (
                                (
                                    request_id,
                                    invocation_id,
                                    caller,
                                    incarnation as u64,
                                    sequence as u64,
                                ),
                                r5,
                            ),
                        ),
                    },
                },
            },
        },
    }
}

/// Reads the second half of a completion record off `s`.
pub open spec fn parse_back(s: Seq<u8>) -> Option<(CompletedBack, Seq<u8>)> {
    match take_string(s) {
        None => None,
        Some((namespace, r1)) => match take_string(r1) {
            None => None,
            Some((name, r2)) => match take_le(r2, 2) {
                None => None,
                Some((major, r3)) => match take_string(r3) {
                    None => None,
                    Some((operation, r4)) => match take_le(r4, 1) {
                        None => None,
                        Some((code, r5)) => match outcome_of_code(code as u8) {
                            None => None,
                            Some(outcome) => Some(
                                ((namespace, name, major as u16, operation, outcome), r5),
                            ),
                        },
                    },
                },
            },
        },
    }
}

/// The completion record made of its two halves.
pub open spec fn completed_from_parts(a: CompletedFront, b: CompletedBack) -> CompletedView {
    CompletedView {
        request_id: a.0,
        invocation_id: a.1,
        caller: a.2,
        provider_incarnation: a.3,
        provider_sequence: a.4,
        capability_namespace: b.0,
        capability_name: b.1,
        interface_major: b.2,
        operation: b.3,
        outcome: b.4,
    }
}

/// The first half of a completion record.
pub open spec fn front_of(m: CompletedView) -> CompletedFront {
    (m.request_id, m.invocation_id, m.caller, m.provider_incarnation, m.provider_sequence)
}

/// The second half of a completion record.
pub open spec fn back_of(m: CompletedView) -> CompletedBack {
    (m.capability_namespace, m.capability_name, m.interface_major, m.operation, m.outcome)
}

/// Reading the metadata fields of a completed invocation off the front of `s`.
pub open spec fn parse_completed_fields(s: Seq<u8>) -> Option<(CompletedView, Seq<u8>)> {
    match parse_front(s) {
        None => None,
        Some((a, r1)) => match parse_back(r1) {
            None => None,
            Some((b, r2)) => Some((completed_from_parts(a, b), r2)),
        },
    }
}

/// Reading the first half of a completion record off its bytes gives it
/// back.
pub proof fn lemma_parse_front_enc(a: CompletedFront, rest: Seq<u8>)
    requires
        front_fits(a),
    ensures
        parse_front(front_bytes(a, rest)) == Some((a, rest)),
{
    let t4 = enc_u64(a.4) + rest;
    let t3 = enc_u64(a.3) + t4;
    let t2 = enc_string(a.2) + t3;
    let t1 = enc_string(a.1) + t2;
    lemma_take_string_enc(a.0, t1);
    lemma_take_string_enc(a.1, t2);
    lemma_take_string_enc(a.2, t3);
    lemma_take_u64_enc(a.3, t4);
    lemma_take_u64_enc(a.4, rest);
}

/// Reading the second half of a completion record off its bytes gives it
/// back.
pub proof fn lemma_parse_back_enc(b: CompletedBack, rest: Seq<u8>)
    requires
        back_fits(b),
    ensures
        parse_back(back_bytes(b, rest)) == Some((b, rest)),
{
    let t4 = enc_u8(outcome_code(b.4)) + rest;
    let t3 = enc_string(b.3) + t4;
    let t2 = enc_u16(b.2) + t3;
    let t1 = enc_string(b.1) + t2;
    lemma_take_string_enc(b.0, t1);
    lemma_take_string_enc(b.1, t2);
    lemma_take_u16_enc(b.2, t3);
    lemma_take_string_enc(b.3, t4);
    lemma_take_u8_enc(outcome_code(b.4), rest);
    outcome_code_roundtrip(b.4);
}

/// What is read as the first half of a completion record is its bytes,
/// followed by the rest.
pub proof fn lemma_parse_front_sound(s: Seq<u8>)
    requires
        parse_front(s) is Some,
    ensures
        s == front_bytes(parse_front(s).unwrap().0, parse_front(s).unwrap().1),
        front_fits(parse_front(s).unwrap().0),
{
    lemma_take_string_sound(s);
    let (request_id, r1) = take_string(s).unwrap();
    lemma_take_string_sound(r1);
    let (invocation_id, r2) = take_string(r1).unwrap();
    lemma_take_string_sound(r2);
    let (caller, r3) = take_string(r2).unwrap();
    lemma_take_u64_sound(r3);
    let (incarnation, r4) = take_le(r3, 8).unwrap();
    lemma_take_u64_sound(r4);
}

/// What is read as the second half of a completion record is its bytes,
/// followed by the rest.
pub proof fn lemma_parse_back_sound(s: Seq<u8>)
    requires
        parse_back(s) is Some,
    ensures
        s == back_bytes(parse_back(s).unwrap().0, parse_back(s).unwrap().1),
        back_fits(parse_back(s).unwrap().0),
{
    lemma_take_string_sound(s);
    let (namespace, r1) = take_string(s).unwrap();
    lemma_take_string_sound(r1);
    let (name, r2) = take_string(r1).unwrap();
    lemma_take_u16_sound(r2);
    let (major, r3) = take_le(r2, 2).unwrap();
    lemma_take_string_sound(r3);
    let (operation, r4) = take_string(r3).unwrap();
    lemma_take_u8_sound(r4);
    let (code, r5) = take_le(r4, 1).unwrap();
    let outcome = outcome_of_code(code as u8).unwrap();
    assert(outcome_code(outcome) == code as u8);
}

/// Reading the optional completion metadata off the front of `s`.
pub open spec fn parse_completed(s: Seq<u8>) -> Option<(Option<CompletedView>, Seq<u8>)> {
    match take_le(s, 1) {
        None => None,
        Some((flag, r1)) => if flag == 0 {
            Some((None, r1))
        } else if flag == 1 {
            match parse_completed_fields(r1) {
                None => None,
                Some((m, r2)) => Some((Some(m), r2)),
            }
        } else {
            None
        },
    }
}

/// The text fields of a completion metadata all fit.
pub open spec fn completed_fits(m: CompletedView) -> bool {
    &&& string_fits(m.request_id)
    &&& string_fits(m.invocation_id)
    &&& string_fits(m.caller)
    &&& string_fits(m.capability_namespace)
    &&& string_fits(m.capability_name)
    &&& string_fits(m.operation)
}

/// Whether the identity of an optional causation fits the text limit.
pub open spec fn causation_fits(c: Option<CausationView>) -> bool {
    match c {
        None => true,
        Some(CausationView::Invocation(id)) => string_fits(id),
        Some(CausationView::Event(id)) => string_fits(id),
    }
}

/// Reading an optional runtime identity off its bytes gives it back.
pub proof fn lemma_parse_runtime_enc(r: Option<(u64, u64)>, rest: Seq<u8>)
    ensures
        parse_runtime(enc_runtime(r) + rest) == Some((r, rest)),
{
    match r {
        None => {
            lemma_take_u8_enc(0, rest);
        },
        Some((a, b)) => {
            assert(enc_runtime(r) + rest =~= enc_u8(1) + (enc_u64(a) + (enc_u64(b) + rest)));
            lemma_take_u8_enc(1, enc_u64(a) + (enc_u64(b) + rest));
            lemma_take_u64_enc(a, enc_u64(b) + rest);
            lemma_take_u64_enc(b, rest);
        },
    }
}

/// What is read as an optional runtime identity is its bytes, followed by
/// the rest.
pub proof fn lemma_parse_runtime_sound(s: Seq<u8>)
    requires
        parse_runtime(s) is Some,
    ensures
        s == enc_runtime(parse_runtime(s).unwrap().0) + parse_runtime(s).unwrap().1,
{
    lemma_take_u8_sound(s);
    let (flag, r1) = take_le(s, 1).unwrap();
    if flag == 1 {
        lemma_take_u64_sound(r1);
        let (a, r2) = take_le(r1, 8).unwrap();
        lemma_take_u64_sound(r2);
        let (b, r3) = take_le(r2, 8).unwrap();
        assert(s =~= enc_runtime(Some((a as u64, b as u64))) + r3);
    }
}

/// Reading an optional causation off its bytes gives it back.
pub proof fn lemma_parse_causation_enc(c: Option<CausationView>, rest: Seq<u8>)
    requires
        causation_fits(c),
    ensures
        parse_causation(enc_causation(c) + rest) == Some((c, rest)),
{
    match c {
        None => {
            lemma_take_u8_enc(0, rest);
        },
        Some(CausationView::Invocation(id)) => {
            assert(enc_causation(c) + rest =~= enc_u8(1) + (enc_string(id) + rest));
            lemma_take_u8_enc(1, enc_string(id) + rest);
            lemma_take_string_enc(id, rest);
        },
        Some(CausationView::Event(id)) => {
            assert(enc_causation(c) + rest =~= enc_u8(2) + (enc_string(id) + rest));
            lemma_take_u8_enc(2, enc_string(id) + rest);
            lemma_take_string_enc(id, rest);
        },
    }
}

/// What is read as an optional causation is its bytes, followed by the
/// rest.
pub proof fn lemma_parse_causation_sound(s: Seq<u8>)
    requires
        parse_causation(s) is Some,
    ensures
        s == enc_causation(parse_causation(s).unwrap().0) + parse_causation(s).unwrap().1,
        causation_fits(parse_causation(s).unwrap().0),
{
    lemma_take_u8_sound(s);
    let (flag, r1) = take_le(s, 1).unwrap();
    if flag == 1 || flag == 2 {
        lemma_take_string_sound(r1);
        let (id, r2) = take_string(r1).unwrap();
        if flag == 1 {
            assert(s =~= enc_causation(Some(CausationView::Invocation(id))) + r2);
        } else {
            assert(s =~= enc_causation(Some(CausationView::Event(id))) + r2);
        }
    }
}

/// The bytes of a completion record are its presence byte and the bytes of
/// its two halves.
pub proof fn lemma_completed_assoc(m: CompletedView, rest: Seq<u8>)
    ensures
        enc_completed(Some(m)) + rest == enc_u8(1) + front_bytes(
            front_of(m),
            back_bytes(back_of(m), rest),
        ),
{
    assert(enc_completed(Some(m)) + rest =~= enc_u8(1) + front_bytes(
        front_of(m),
        back_bytes(back_of(m), rest),
    ));
}

/// Reading an optional completion record off its bytes gives it back.
pub proof fn lemma_parse_completed_enc(c: Option<CompletedView>, rest: Seq<u8>)
    requires
        c matches Some(m) ==> completed_fits(m),
    ensures
        parse_completed(enc_completed(c) + rest) == Some((c, rest)),
{
    match c {
        None => {
            lemma_take_u8_enc(0, rest);
        },
        Some(m) => {
            let tb = back_bytes(back_of(m), rest);
            lemma_completed_assoc(m, rest);
            lemma_take_u8_enc(1, front_bytes(front_of(m), tb));
            lemma_parse_front_enc(front_of(m), tb);
            lemma_parse_back_enc(back_of(m), rest);
            assert(completed_from_parts(front_of(m), back_of(m)) == m);
        },
    }
}

/// What is read as an optional completion record is its bytes, followed by
/// the rest.
pub proof fn lemma_parse_completed_sound(s: Seq<u8>)
    requires
        parse_completed(s) is Some,
    ensures
        s == enc_completed(parse_completed(s).unwrap().0) + parse_completed(s).unwrap().1,
        parse_completed(s).unwrap().0 matches Some(m) ==> completed_fits(m),
{
    lemma_take_u8_sound(s);
    let (flag, r1) = take_le(s, 1).unwrap();
    if flag == 1 {
        lemma_parse_front_sound(r1);
        let (a, r2) = parse_front(r1).unwrap();
        lemma_parse_back_sound(r2);
        let (b, r3) = parse_back(r2).unwrap();
        let m = completed_from_parts(a, b);
        assert(front_of(m) == a && back_of(m) == b);
        lemma_completed_assoc(m, r3);
    }
}


/// The id, contract and producer of an event.
pub type HeadParts = (Seq<char>, Seq<char>, Seq<char>, u16, u16, Seq<char>);

/// The runtime, sequence, correlation, causation and delivery mode of an event.
pub type MidParts = (Option<(u64, u64)>, u64, Seq<char>, Option<CausationView>, DeliveryMode);

/// The payload and completion metadata of an event.
pub type TailParts = (Seq<u8>, Option<CompletedView>);

/// The stored bytes of the head fields of an envelope, before `rest`.
pub open spec fn head_bytes(h: HeadParts, rest: Seq<u8>) -> Seq<u8> {
    enc_string(h.0) + (enc_string(h.1) + (enc_string(h.2) + (enc_u16(h.3) + (enc_u16(h.4) + (
    enc_string(h.5) + rest)))))
}

/// The stored bytes of the middle fields of an envelope, before `rest`.
pub open spec fn mid_bytes(m: MidParts, rest: Seq<u8>) -> Seq<u8> {
    enc_runtime(m.0) + (enc_u64(m.1) + (enc_string(m.2) + (enc_causation(m.3) + (enc_u8(
        mode_code(m.4),
    ) + rest))))
}

/// The stored bytes of the tail fields of an envelope, before `rest`.
pub open spec fn tail_bytes(t: TailParts, rest: Seq<u8>) -> Seq<u8> {
    enc_bytes(t.0) + (enc_completed(t.1) + rest)
}

/// The head fields of an envelope.
pub open spec fn head_of(e: EnvelopeView) -> HeadParts {
    (e.event_id, e.namespace, e.name, e.version_major, e.version_minor, e.producer)
}

/// The middle fields of an envelope.
pub open spec fn mid_of(e: EnvelopeView) -> MidParts {
    (e.producer_runtime, e.sequence, e.correlation_id, e.causation, e.delivery_mode)
}

/// The tail fields of an envelope.
pub open spec fn tail_of(e: EnvelopeView) -> TailParts {
    (e.payload, e.invocation_completed)
}

/// The envelope made of its head, middle and tail fields.
pub open spec fn envelope_from(h: HeadParts, m: MidParts, t: TailParts) -> EnvelopeView {
    EnvelopeView {
        event_id: h.0,
        namespace: h.1,
        name: h.2,
        version_major: h.3,
        version_minor: h.4,
        producer: h.5,
        producer_runtime: m.0,
        sequence: m.1,
        correlation_id: m.2,
        causation: m.3,
        delivery_mode: m.4,
        payload: t.0,
        invocation_completed: t.1,
    }
}

/// Whether the head fields fit their limits.
pub open spec fn head_fits(h: HeadParts) -> bool {
    string_fits(h.0) && string_fits(h.1) && string_fits(h.2) && string_fits(h.5)
}

/// Whether the middle fields fit their limits.
pub open spec fn mid_fits(m: MidParts) -> bool {
    string_fits(m.2) && causation_fits(m.3)
}

/// Whether the tail fields fit their limits.
pub open spec fn tail_fits(t: TailParts) -> bool {
    &&& bytes_fit(t.0, MAX_CODEC_PAYLOAD_BYTES as nat)
    &&& t.1 matches Some(c) ==> completed_fits(c)
}

/// Reads the head fields off `s`.
#[verifier::opaque]
pub open spec fn parse_head(s: Seq<u8>) -> Option<(HeadParts, Seq<u8>)> {
    match take_string(s) {
        None => None,
        Some((id, r1)) => match take_string(r1) {
            None => None,
            Some((namespace, r2)) => match take_string(r2) {
                None => None,
                Some((name, r3)) => match take_le(r3, 2) {
                    None => None,
                    Some((major, r4)) => match take_le(r4, 2) {
                        None => None,
                        Some((minor, r5)) => match take_string(r5) {
                            None => None,
                            Some((producer, r6)) => Some(
                                ((id, namespace, name, major as u16, minor as u16, producer), r6),
                            ),
                        },
                    },
                },
            },
        },
    }
}

/// The delivery mode a stored code names.
pub open spec fn mode_of_code(code: nat) -> Option<DeliveryMode> {
    if code == 0 {
        Some(DeliveryMode::Ephemeral)
    } else if code == 1 {
        Some(DeliveryMode::Durable)
    } else {
        None
    }
}

/// Reads the middle fields off `s`.
#[verifier::opaque]
pub open spec fn parse_mid(s: Seq<u8>) -> Option<(MidParts, Seq<u8>)> {
    match parse_runtime(s) {
        None => None,
        Some((runtime, r1)) => match take_le(r1, 8) {
            None => None,
            Some((sequence, r2)) => match take_string(r2) {
                None => None,
                Some((correlation, r3)) => match parse_causation(r3) {
                    None => None,
                    Some((causation, r4)) => match take_le(r4, 1) {
                        None => None,
                        Some((code, r5)) => match mode_of_code(code) {
                            None => None,
                            Some(mode) => Some(
                                ((runtime, sequence as u64, correlation, causation, mode), r5),
                            ),
                        },
                    },
                },
            },
        },
    }
}

/// Reads the tail fields off `s`.
#[verifier::opaque]
pub open spec fn parse_tail(s: Seq<u8>) -> Option<(TailParts, Seq<u8>)> {
    match take_bytes(s, MAX_CODEC_PAYLOAD_BYTES as nat) {
        None => None,
        Some((payload, r1)) => match parse_completed(r1) {
            None => None,
            Some((completed, r2)) => Some(((payload, completed), r2)),
        },
    }
}

/// Reading a whole record: the magic, the fields, and nothing after them.
pub open spec fn parse_envelope(s: Seq<u8>) -> Option<EnvelopeView> {
    if s.len() < 10 || s.take(10) != event_magic() {
        None
    } else {
        match parse_head(s.skip(10)) {
            None => None,
            Some((h, r1)) => match parse_mid(r1) {
                None => None,
                Some((m, r2)) => match parse_tail(r2) {
                    None => None,
                    Some((t, r3)) => if r3.len() == 0 {
                        Some(envelope_from(h, m, t))
                    } else {
                        None
                    },
                },
            },
        }
    }
}

/// Reading the head fields off their bytes gives them back.
pub proof fn lemma_parse_head_enc(h: HeadParts, rest: Seq<u8>)
    requires
        head_fits(h),
    ensures
        parse_head(head_bytes(h, rest)) == Some((h, rest)),
{
    reveal(parse_head);
    let t5 = enc_string(h.5) + rest;
    let t4 = enc_u16(h.4) + t5;
    let t3 = enc_u16(h.3) + t4;
    let t2 = enc_string(h.2) + t3;
    let t1 = enc_string(h.1) + t2;
    lemma_take_string_enc(h.0, t1);
    lemma_take_string_enc(h.1, t2);
    lemma_take_string_enc(h.2, t3);
    lemma_take_u16_enc(h.3, t4);
    lemma_take_u16_enc(h.4, t5);
    lemma_take_string_enc(h.5, rest);
}

/// What is read as head fields is their bytes, followed by the rest.
pub proof fn lemma_parse_head_sound(s: Seq<u8>)
    requires
        parse_head(s) is Some,
    ensures
        s == head_bytes(parse_head(s).unwrap().0, parse_head(s).unwrap().1),
        head_fits(parse_head(s).unwrap().0),
{
    reveal(parse_head);
    lemma_take_string_sound(s);
    let (id, r1) = take_string(s).unwrap();
    lemma_take_string_sound(r1);
    let (namespace, r2) = take_string(r1).unwrap();
    lemma_take_string_sound(r2);
    let (name, r3) = take_string(r2).unwrap();
    lemma_take_u16_sound(r3);
    let (major, r4) = take_le(r3, 2).unwrap();
    lemma_take_u16_sound(r4);
    let (minor, r5) = take_le(r4, 2).unwrap();
    lemma_take_string_sound(r5);
}

/// Reading the middle fields off their bytes gives them back.
pub proof fn lemma_parse_mid_enc(m: MidParts, rest: Seq<u8>)
    requires
        mid_fits(m),
    ensures
        parse_mid(mid_bytes(m, rest)) == Some((m, rest)),
{
    reveal(parse_mid);
    let t4 = enc_u8(mode_code(m.4)) + rest;
    let t3 = enc_causation(m.3) + t4;
    let t2 = enc_string(m.2) + t3;
    let t1 = enc_u64(m.1) + t2;
    lemma_parse_runtime_enc(m.0, t1);
    lemma_take_u64_enc(m.1, t2);
    lemma_take_string_enc(m.2, t3);
    lemma_parse_causation_enc(m.3, t4);
    lemma_take_u8_enc(mode_code(m.4), rest);
}

/// What is read as middle fields is their bytes, followed by the rest.
pub proof fn lemma_parse_mid_sound(s: Seq<u8>)
    requires
        parse_mid(s) is Some,
    ensures
        s == mid_bytes(parse_mid(s).unwrap().0, parse_mid(s).unwrap().1),
        mid_fits(parse_mid(s).unwrap().0),
{
    reveal(parse_mid);
    lemma_parse_runtime_sound(s);
    let (runtime, r1) = parse_runtime(s).unwrap();
    lemma_take_u64_sound(r1);
    let (sequence, r2) = take_le(r1, 8).unwrap();
    lemma_take_string_sound(r2);
    let (correlation, r3) = take_string(r2).unwrap();
    lemma_parse_causation_sound(r3);
    let (causation, r4) = parse_causation(r3).unwrap();
    lemma_take_u8_sound(r4);
    let (code, r5) = take_le(r4, 1).unwrap();
    let mode = mode_of_code(code).unwrap();
    assert(mode_code(mode) == code as u8);
}

/// Reading the tail fields off their bytes gives them back.
pub proof fn lemma_parse_tail_enc(t: TailParts, rest: Seq<u8>)
    requires
        tail_fits(t),
    ensures
        parse_tail(tail_bytes(t, rest)) == Some((t, rest)),
{
    reveal(parse_tail);
    lemma_take_bytes_enc(t.0, MAX_CODEC_PAYLOAD_BYTES as nat, enc_completed(t.1) + rest);
    lemma_parse_completed_enc(t.1, rest);
}

/// What is read as tail fields is their bytes, followed by the rest.
pub proof fn lemma_parse_tail_sound(s: Seq<u8>)
    requires
        parse_tail(s) is Some,
    ensures
        s == tail_bytes(parse_tail(s).unwrap().0, parse_tail(s).unwrap().1),
        tail_fits(parse_tail(s).unwrap().0),
{
    reveal(parse_tail);
    lemma_take_bytes_sound(s, MAX_CODEC_PAYLOAD_BYTES as nat);
    let (payload, r1) = take_bytes(s, MAX_CODEC_PAYLOAD_BYTES as nat).unwrap();
    lemma_parse_completed_sound(r1);
}

/// The stored bytes of an envelope are the magic and the bytes of its head,
/// middle and tail fields, which make the envelope again.
pub proof fn lemma_envelope_assoc(e: EnvelopeView)
    ensures
        enc_envelope(e) == event_magic() + head_bytes(
            head_of(e),
            mid_bytes(mid_of(e), tail_bytes(tail_of(e), Seq::empty())),
        ),
        envelope_from(head_of(e), mid_of(e), tail_of(e)) == e,
{
    let t = tail_bytes(tail_of(e), Seq::empty());
    assert(enc_tail(e) =~= t);
    let m = mid_bytes(mid_of(e), t);
    assert(enc_mid(e) + t =~= m);
    assert(enc_head(e) + m =~= head_bytes(head_of(e), m));
}

/// Reading back the stored bytes of an event whose fields fit gives the event.
pub proof fn lemma_envelope_roundtrip(e: EnvelopeView)
    requires
        envelope_fits(e),
    ensures
        parse_envelope(enc_envelope(e)) == Some(e),
{
    lemma_envelope_assoc(e);
    let t = tail_bytes(tail_of(e), Seq::empty());
    let m = mid_bytes(mid_of(e), t);
    let h = head_bytes(head_of(e), m);
    let s = enc_envelope(e);
    assert(s.take(10) =~= event_magic());
    assert(s.skip(10) =~= h);
    lemma_parse_head_enc(head_of(e), m);
    lemma_parse_mid_enc(mid_of(e), t);
    lemma_parse_tail_enc(tail_of(e), Seq::empty());
}

proof fn lemma_head_bytes_append(h: HeadParts, rest: Seq<u8>, extra: Seq<u8>)
    ensures
        head_bytes(h, rest) + extra == head_bytes(h, rest + extra),
{
    assert(head_bytes(h, rest) + extra =~= head_bytes(h, rest + extra));
}

proof fn lemma_mid_bytes_append(m: MidParts, rest: Seq<u8>, extra: Seq<u8>)
    ensures
        mid_bytes(m, rest) + extra == mid_bytes(m, rest + extra),
{
    assert(mid_bytes(m, rest) + extra =~= mid_bytes(m, rest + extra));
}

proof fn lemma_tail_bytes_append(t: TailParts, rest: Seq<u8>, extra: Seq<u8>)
    ensures
        tail_bytes(t, rest) + extra == tail_bytes(t, rest + extra),
{
    assert(tail_bytes(t, rest) + extra =~= tail_bytes(t, rest + extra));
}

/// Stored bytes of an event followed by anything more do not read back:
/// trailing bytes are refused, so no event that fits is stored as them.
pub proof fn law_trailing_bytes_refused(e: EnvelopeView, extra: Seq<u8>)
    requires
        envelope_fits(e),
        extra.len() > 0,
    ensures
        parse_envelope(enc_envelope(e) + extra) is None,
        forall|other: EnvelopeView|
            envelope_fits(other) ==> #[trigger] enc_envelope(other) != enc_envelope(e) + extra,
{
    lemma_envelope_assoc(e);
    let empty = Seq::<u8>::empty();
    let t0 = tail_bytes(tail_of(e), empty);
    let m0 = mid_bytes(mid_of(e), t0);
    let h0 = head_bytes(head_of(e), m0);
    assert(empty + extra =~= extra);
    lemma_tail_bytes_append(tail_of(e), empty, extra);
    let t = tail_bytes(tail_of(e), extra);
    lemma_mid_bytes_append(mid_of(e), t0, extra);
    let m = mid_bytes(mid_of(e), t);
    lemma_head_bytes_append(head_of(e), m0, extra);
    let h = head_bytes(head_of(e), m);
    assert(h0 + extra == h);
    let s = enc_envelope(e) + extra;
    assert(enc_envelope(e) == event_magic() + h0);
    assert(s =~= event_magic() + h);
    assert(s.take(10) =~= event_magic());
    assert(s.skip(10) =~= h);
    lemma_parse_head_enc(head_of(e), m);
    lemma_parse_mid_enc(mid_of(e), t);
    lemma_parse_tail_enc(tail_of(e), extra);
    assert(parse_envelope(s) is None);
    assert forall|other: EnvelopeView|
        envelope_fits(other) implies #[trigger] enc_envelope(other) != enc_envelope(e) + extra by {
        lemma_envelope_roundtrip(other);
    }
}

/// A record that reads back as an event is exactly the stored bytes of that
/// event, and its fields fit.
#[verifier::rlimit(60)]
pub proof fn lemma_envelope_sound(s: Seq<u8>)
    requires
        parse_envelope(s) is Some,
    ensures
        s == enc_envelope(parse_envelope(s).unwrap()),
        envelope_fits(parse_envelope(s).unwrap()),
{
    let s0 = s.skip(10);
    lemma_parse_head_sound(s0);
    let (h, r1) = parse_head(s0).unwrap();
    lemma_parse_mid_sound(r1);
    let (m, r2) = parse_mid(r1).unwrap();
    lemma_parse_tail_sound(r2);
    let (t, r3) = parse_tail(r2).unwrap();
    let e = envelope_from(h, m, t);
    assert(head_of(e) == h && mid_of(e) == m && tail_of(e) == t);
    assert(r3 =~= Seq::<u8>::empty());
    lemma_envelope_assoc(e);
    assert(s =~= s.take(10) + s0);
    assert(s == event_magic() + head_bytes(h, mid_bytes(m, tail_bytes(t, Seq::empty()))));
    assert(envelope_fits(e));
}

fn encode_optional_runtime(encoder: &mut Encoder, runtime: Option<(u64, u64)>)
    ensures
        final(encoder)@ == old(encoder)@ + enc_runtime(runtime),
{
    match runtime {
        Some((incarnation, sequence)) => {
            encoder.u8(1);
            encoder.u64(incarnation);
            encoder.u64(sequence);
            assert(final(encoder)@ =~= old(encoder)@ + enc_runtime(runtime));
        },
        None => encoder.u8(0),
    }
}

fn encode_causation(encoder: &mut Encoder, causation: &Option<CausationRef>) -> (res: Result<
    (),
    String,
>)
    ensures
        res is Ok <==> match causation_view(*causation) {
            None => true,
            Some(CausationView::Invocation(id)) => string_fits(id),
            Some(CausationView::Event(id)) => string_fits(id),
        },
        res is Ok ==> final(encoder)@ == old(encoder)@ + enc_causation(causation_view(*causation)),
        res matches Err(msg) ==> msg@ == over_limit_message(
            match causation_view(*causation) {
                Some(CausationView::Invocation(_)) => "causation invocation"@,
                _ => "causation event"@,
            },
        ),
{
    match causation {
        None => {
            encoder.u8(0);
            Ok(())
        },
        Some(CausationRef::Invocation(invocation)) => {
            encoder.u8(1);
            let r = encoder.string(invocation.as_str(), "causation invocation");
            assert(r is Ok ==> final(encoder)@ =~= old(encoder)@ + enc_causation(
                causation_view(*causation),
            ));
            r
        },
        Some(CausationRef::Event(event)) => {
            encoder.u8(2);
            let r = encoder.string(event.as_str(), "causation event");
            assert(r is Ok ==> final(encoder)@ =~= old(encoder)@ + enc_causation(
                causation_view(*causation),
            ));
            r
        },
    }
}

#[verifier::rlimit(30)]
fn encode_completed(encoder: &mut Encoder, completed: &Option<InvocationCompleted>) -> (res:
    Result<(), String>)
    ensures
        res is Ok <==> match completed_view(*completed) {
            None => true,
            Some(m) => {
                &&& string_fits(m.request_id)
                &&& string_fits(m.invocation_id)
                &&& string_fits(m.caller)
                &&& string_fits(m.capability_namespace)
                &&& string_fits(m.capability_name)
                &&& string_fits(m.operation)
            },
        },
        res is Ok ==> final(encoder)@ == old(encoder)@ + enc_completed(completed_view(*completed)),
        res matches Err(msg) ==> msg@ == over_limit_message(completed_unfit_label(
            completed_view(*completed)->0,
        )),
{
    match completed {
        Some(m) => {
            encoder.u8(1);
            let ghost e0 = encoder@;
            encoder.string(m.request_id.as_str(), "completed request id")?;
            let ghost e1 = encoder@;
            encoder.string(m.invocation_id.as_str(), "completed invocation id")?;
            let ghost e2 = encoder@;
            encoder.string(m.caller.as_str(), "completed caller")?;
            let ghost e3 = encoder@;
            encoder.u64(m.provider_incarnation);
            encoder.u64(m.provider_sequence);
            let ghost e4 = encoder@;
            encoder.string(m.capability_namespace.as_str(), "completed capability namespace")?;
            let ghost e5 = encoder@;
            encoder.string(m.capability_name.as_str(), "completed capability name")?;
            let ghost e6 = encoder@;
            encoder.u16(m.interface_major);
            encoder.string(m.operation.as_str(), "completed operation")?;
            let code = encode_outcome(m.outcome);
            encoder.u8(code);
            assert(final(encoder)@ =~= old(encoder)@ + enc_completed(completed_view(*completed)));
            Ok(())
        },
        None => {
            encoder.u8(0);
            Ok(())
        },
    }
}

fn encode_head(encoder: &mut Encoder, event: &EventEnvelope) -> (res: Result<(), String>)
    ensures
        res is Ok <==> string_fits(event.event_id@) && string_fits(event.namespace@)
            && string_fits(event.name@) && string_fits(event.producer@),
        res is Ok ==> final(encoder)@ == old(encoder)@ + enc_head(event@),
        res matches Err(msg) ==> msg@ == over_limit_message(envelope_unfit_label(event@)),
{
    encoder.string(event.event_id.as_str(), "event id")?;
    encoder.string(event.namespace.as_str(), "event namespace")?;
    encoder.string(event.name.as_str(), "event name")?;
    encoder.u16(event.version_major);
    encoder.u16(event.version_minor);
    encoder.string(event.producer.as_str(), "event producer")?;
    assert(final(encoder)@ =~= old(encoder)@ + enc_head(event@));
    Ok(())
}

fn encode_mid(encoder: &mut Encoder, event: &EventEnvelope) -> (res: Result<(), String>)
    ensures
        res is Ok <==> string_fits(event.correlation_id@) && match causation_view(
            event.causation,
        ) {
            None => true,
            Some(CausationView::Invocation(id)) => string_fits(id),
            Some(CausationView::Event(id)) => string_fits(id),
        },
        res is Ok ==> final(encoder)@ == old(encoder)@ + enc_mid(event@),
        string_fits(event.event_id@) && string_fits(event.namespace@) && string_fits(event.name@)
            && string_fits(event.producer@) ==> (res matches Err(msg) ==> msg@
            == over_limit_message(envelope_unfit_label(event@))),
{
    encode_optional_runtime(encoder, event.producer_runtime);
    encoder.u64(event.sequence);
    encoder.string(event.correlation_id.as_str(), "correlation id")?;
    encode_causation(encoder, &event.causation)?;
    encoder.u8(
        match event.delivery_mode {
            DeliveryMode::Ephemeral => 0,
            DeliveryMode::Durable => 1,
        },
    );
    assert(final(encoder)@ =~= old(encoder)@ + enc_mid(event@));
    Ok(())
}

/// The label of the first text field of a completion record over the text
/// limit.
pub open spec fn completed_unfit_label(m: CompletedView) -> Seq<char> {
    if !string_fits(m.request_id) {
        "completed request id"@
    } else if !string_fits(m.invocation_id) {
        "completed invocation id"@
    } else if !string_fits(m.caller) {
        "completed caller"@
    } else if !string_fits(m.capability_namespace) {
        "completed capability namespace"@
    } else if !string_fits(m.capability_name) {
        "completed capability name"@
    } else {
        "completed operation"@
    }
}

/// The label of the first field of an event over its limit, in the order
/// the fields are written.
pub open spec fn envelope_unfit_label(e: EnvelopeView) -> Seq<char> {
    if !string_fits(e.event_id) {
        "event id"@
    } else if !string_fits(e.namespace) {
        "event namespace"@
    } else if !string_fits(e.name) {
        "event name"@
    } else if !string_fits(e.producer) {
        "event producer"@
    } else if !string_fits(e.correlation_id) {
        "correlation id"@
    } else if e.causation matches Some(CausationView::Invocation(id)) && !string_fits(id) {
        "causation invocation"@
    } else if e.causation matches Some(CausationView::Event(id)) && !string_fits(id) {
        "causation event"@
    } else if !bytes_fit(e.payload, MAX_CODEC_PAYLOAD_BYTES as nat) {
        "event payload"@
    } else {
        completed_unfit_label(e.invocation_completed->0)
    }
}

/// Writes an event as its stored bytes.
///
/// Fails exactly when a text field is over the text limit or the payload is
/// over the payload limit; the error names the first such field.
pub fn encode_event(event: &EventEnvelope) -> (res: Result<Vec<u8>, String>)
    ensures
        res is Ok <==> envelope_fits(event@),
        res matches Ok(bytes) ==> bytes@ == enc_envelope(event@),
        res matches Err(m) ==> m@ == over_limit_message(envelope_unfit_label(event@)),
{
    let mut encoder = Encoder::new();
    let magic = event_magic_bytes();
    encoder.raw(magic.as_slice());
    let ghost e0 = encoder@;
    assert(e0 =~= event_magic());
    encode_head(&mut encoder, event)?;
    let ghost e1 = encoder@;
    encode_mid(&mut encoder, event)?;
    let ghost e2 = encoder@;
    encoder.bytes(event.payload.as_slice(), MAX_CODEC_PAYLOAD_BYTES, "event payload")?;
    encode_completed(&mut encoder, &event.invocation_completed)?;
    let bytes = encoder.finish();
    assert(bytes@ =~= e2 + enc_tail(event@));
    assert(bytes@ =~= enc_envelope(event@));
    Ok(bytes)
}

fn decode_optional_runtime(decoder: &mut Decoder) -> (res: Result<Option<(u64, u64)>, String>)
    ensures
        parse_runtime(old(decoder).rest()) matches Some((r, t)) ==> (res matches Ok(x) && x == r
            && final(decoder).rest() == t),
        parse_runtime(old(decoder).rest()) is None ==> res is Err,
{
    match decoder.u8()? {
        0 => Ok(None),
        1 => {
            let incarnation = decoder.u64()?;
            let sequence = decoder.u64()?;
            Ok(Some((incarnation, sequence)))
        },
        other => Err(message_with_number("invalid runtime presence code ", other as u64, "")),
    }
}

fn decode_causation(decoder: &mut Decoder) -> (res: Result<Option<CausationRef>, String>)
    ensures
        parse_causation(old(decoder).rest()) matches Some((c, t)) ==> (res matches Ok(x)
            && causation_view(x) == c && final(decoder).rest() == t),
        parse_causation(old(decoder).rest()) is None ==> res is Err,
{
    match decoder.u8()? {
        0 => Ok(None),
        1 => Ok(Some(CausationRef::Invocation(decoder.string("causation invocation")?))),
        2 => Ok(Some(CausationRef::Event(decoder.string("causation event")?))),
        other => Err(message_with_number("unknown causation code ", other as u64, "")),
    }
}

/// Whether the capability contract of an optional completion record is
/// well formed: a namespace and a name that are not blank.
pub open spec fn completed_contract_ok(c: Option<CompletedView>) -> bool {
    match c {
        None => true,
        Some(m) => !blank(m.capability_namespace) && !blank(m.capability_name),
    }
}

fn decode_completed(decoder: &mut Decoder) -> (res: Result<Option<InvocationCompleted>, String>)
    ensures
        parse_completed(old(decoder).rest()) matches Some((c, t)) ==> (completed_contract_ok(c)
            ==> (res matches Ok(x) && completed_view(x) == c && final(decoder).rest() == t)),
        parse_completed(old(decoder).rest()) matches Some((c, t)) ==> (!completed_contract_ok(c)
            ==> (res matches Err(m) && m@ == "completed capability contract is malformed"@)),
        parse_completed(old(decoder).rest()) is None ==> res is Err,
{
    match decoder.u8()? {
        0 => Ok(None),
        1 => {
            let request_id = decoder.string("completed request id")?;
            let invocation_id = decoder.string("completed invocation id")?;
            let caller = decoder.string("completed caller")?;
            let provider_incarnation = decoder.u64()?;
            let provider_sequence = decoder.u64()?;
            let capability_namespace = decoder.string("completed capability namespace")?;
            let capability_name = decoder.string("completed capability name")?;
            let interface_major = decoder.u16()?;
            if is_blank(capability_namespace.as_str()) || is_blank(capability_name.as_str()) {
                return Err(String::from_str("completed capability contract is malformed"));
            }
            let operation = decoder.string("completed operation")?;
            let outcome = decode_outcome(decoder.u8()?)?;
            Ok(
                Some(
                    InvocationCompleted {
                        request_id,
                        invocation_id,
                        caller,
                        provider_incarnation,
                        provider_sequence,
                        capability_namespace,
                        capability_name,
                        interface_major,
                        operation,
                        outcome,
                    },
                ),
            )
        },
        other => Err(
            message_with_number("invalid invocation-completed presence code ", other as u64, ""),
        ),
    }
}

/// The decoded id, contract and producer of an event.
pub type DecodedHead = (String, String, String, u16, u16, String);

/// The plain values of decoded head fields.
pub open spec fn decoded_head_view(h: DecodedHead) -> HeadParts {
    (h.0@, h.1@, h.2@, h.3, h.4, h.5@)
}

fn decode_head(decoder: &mut Decoder) -> (res: Result<DecodedHead, String>)
    ensures
        parse_head(old(decoder).rest()) matches Some((h, t)) ==> (res matches Ok(x)
            && decoded_head_view(x) == h && final(decoder).rest() == t),
        parse_head(old(decoder).rest()) is None ==> res is Err,
{
    proof {
        reveal(parse_head);
    }
    let event_id = decoder.string("event id")?;
    let namespace = decoder.string("event namespace")?;
    let name = decoder.string("event name")?;
    let major = decoder.u16()?;
    let minor = decoder.u16()?;
    let producer = decoder.string("event producer")?;
    Ok((event_id, namespace, name, major, minor, producer))
}

/// The decoded runtime, sequence, trace and delivery mode of an event.
pub type DecodedMid = (Option<(u64, u64)>, u64, String, Option<CausationRef>, DeliveryMode);

/// The plain values of decoded middle fields.
pub open spec fn decoded_mid_view(m: DecodedMid) -> MidParts {
    (m.0, m.1, m.2@, causation_view(m.3), m.4)
}

fn decode_mid(decoder: &mut Decoder) -> (res: Result<DecodedMid, String>)
    ensures
        parse_mid(old(decoder).rest()) matches Some((m, t)) ==> (res matches Ok(x)
            && decoded_mid_view(x) == m && final(decoder).rest() == t),
        parse_mid(old(decoder).rest()) is None ==> res is Err,
{
    proof {
        reveal(parse_mid);
    }
    let runtime = decode_optional_runtime(decoder)?;
    let sequence = decoder.u64()?;
    let correlation = decoder.string("correlation id")?;
    let causation = decode_causation(decoder)?;
    let mode = match decoder.u8()? {
        0 => DeliveryMode::Ephemeral,
        1 => DeliveryMode::Durable,
        other => {
            return Err(message_with_number("unknown event delivery mode code ", other as u64, ""));
        },
    };
    Ok((runtime, sequence, correlation, causation, mode))
}

fn decode_tail(decoder: &mut Decoder) -> (res: Result<(Vec<u8>, Option<InvocationCompleted>), String>)
    ensures
        parse_tail(old(decoder).rest()) matches Some((p, t)) ==> (completed_contract_ok(p.1)
            ==> (res matches Ok(x) && x.0@ == p.0 && completed_view(x.1) == p.1
            && final(decoder).rest() == t)),
        parse_tail(old(decoder).rest()) matches Some((p, t)) ==> (!completed_contract_ok(p.1)
            ==> res is Err),
        parse_tail(old(decoder).rest()) is None ==> res is Err,
{
    proof {
        reveal(parse_tail);
    }
    let payload = decoder.bytes(MAX_CODEC_PAYLOAD_BYTES, "event payload")?;
    let completed = decode_completed(decoder)?;
    Ok((payload, completed))
}

/// Whether the identities of a decoded event are well formed.
pub fn envelope_identities_valid(event: &EventEnvelope) -> (ok: bool)
    ensures
        ok == envelope_well_formed(event@),
{
    let completed_ok = match &event.invocation_completed {
        None => true,
        Some(m) => !is_blank(m.capability_namespace.as_str()) && !is_blank(
            m.capability_name.as_str(),
        ),
    };
    !is_blank(event.event_id.as_str()) && !is_blank(event.namespace.as_str()) && !is_blank(
        event.name.as_str(),
    ) && !is_blank(event.producer.as_str()) && !is_blank(event.correlation_id.as_str())
        && completed_ok
}

/// Reads an event back from its stored bytes.
///
/// Succeeds exactly when the bytes are the stored bytes of an event whose
/// fields fit the record limits and whose identities are well formed; that
/// event is then the result.
pub fn decode_event(bytes: &[u8]) -> (res: Result<EventEnvelope, String>)
    ensures
        res matches Ok(e) ==> envelope_well_formed(e@) && envelope_fits(e@) && bytes@
            == enc_envelope(e@),
        (exists|e: EnvelopeView|
            envelope_well_formed(e) && envelope_fits(e) && #[trigger] enc_envelope(e) == bytes@)
            ==> res is Ok,
{
    let decoder = Decoder::new(bytes);
    let magic = event_magic_bytes();
    let decoded = decode_parts(decoder, magic.as_slice());
    proof {
        if exists|e: EnvelopeView|
            envelope_well_formed(e) && envelope_fits(e) && #[trigger] enc_envelope(e) == bytes@ {
            let e = choose|e: EnvelopeView|
                envelope_well_formed(e) && envelope_fits(e) && #[trigger] enc_envelope(e)
                    == bytes@;
            lemma_envelope_roundtrip(e);
        }
        if parse_envelope(bytes@) is Some {
            lemma_envelope_sound(bytes@);
        }
    }
    let event = decoded?;
    if !envelope_identities_valid(&event) {
        return Err(String::from_str("event envelope contains an empty or malformed identity"));
    }
    Ok(event)
}

fn decode_parts(decoder: Decoder, magic: &[u8]) -> (res: Result<EventEnvelope, String>)
    requires
        magic@ == event_magic(),
    ensures
        parse_envelope(decoder.rest()) matches Some(e) ==> (completed_contract_ok(
            e.invocation_completed,
        ) ==> (res matches Ok(x) && x@ == e)),
        parse_envelope(decoder.rest()) matches Some(e) ==> (!completed_contract_ok(
            e.invocation_completed,
        ) ==> res is Err),
        parse_envelope(decoder.rest()) is None ==> res is Err,
{
    let ghost s = decoder.rest();
    let mut decoder = decoder;
    decoder.raw(magic)?;
    let head = decode_head(&mut decoder)?;
    let mid = decode_mid(&mut decoder)?;
    let tail = decode_tail(&mut decoder)?;
    let ghost rest = decoder.rest();
    let finished = decoder.finish();
    if finished.is_err() {
        return Err(String::from_str("event record has trailing bytes"));
    }
    let (event_id, namespace, name, version_major, version_minor, producer) = head;
    let (producer_runtime, sequence, correlation_id, causation, delivery_mode) = mid;
    let (payload, invocation_completed) = tail;
    let event = EventEnvelope {
        event_id,
        namespace,
        name,
        version_major,
        version_minor,
        producer,
        producer_runtime,
        sequence,
        correlation_id,
        causation,
        delivery_mode,
        payload,
        invocation_completed,
    };
    Ok(event)
}

} // verus!
