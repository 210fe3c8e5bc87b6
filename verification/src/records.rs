//! Audit and job records: what may be stored, how a record becomes a row,
//! and how a row reads back.
use vstd::prelude::*;

use crate::codec::MAX_CODEC_STRING_BYTES;
use crate::errors::PersistenceError;
use crate::event::{causation_view, CausationRef, CausationView};
use crate::metadata::{
    decode_metadata, enc_metadata, encode_metadata, entries_fit, law_metadata_roundtrip,
    parse_metadata, sort_entries, sorted_keys, too_many_entries_text, AuditMetadata, Entry,
    MAX_METADATA_ENTRIES,
};
use crate::codec::string_fits;
use crate::status::{
    audit_outcome_from_string, audit_outcome_name, audit_outcome_str, job_recovery_policy_from_string,
    job_recovery_policy_name, job_recovery_policy_str, job_state_from_string, job_state_name,
    job_state_str, AuditOutcome, JobRecoveryPolicy, JobState,
};
use crate::store::{
    integer_persistence, optional_integer, optional_unsigned, signed_decimal, unsigned_persistence,
};
use crate::text::{
    blank, chars_of, contains_text, is_blank, occurs_in, push_char, push_decimal, text_eq,
};
use vstd::utf8::encode_utf8;

verus! {

/// The text of an optional string.
pub open spec fn opt_view(o: Option<String>) -> Option<Seq<char>> {
    match o {
        Some(s) => Some(s@),
        None => None,
    }
}

/// The stored kind of a causation.
pub open spec fn causation_kind_name(c: CausationRef) -> Seq<char> {
    match c {
        CausationRef::Invocation(_) => "Invocation"@,
        CausationRef::Event(_) => "Event"@,
    }
}

/// The identity a causation refers to.
pub open spec fn causation_id(c: CausationRef) -> Seq<char> {
    match c {
        CausationRef::Invocation(id) => id@,
        CausationRef::Event(id) => id@,
    }
}

/// The two columns of an optional causation: its kind and its identity.
pub fn causation_columns(causation: &Option<CausationRef>) -> (c: (Option<String>, Option<String>))
    ensures
        causation is None ==> c.0 is None && c.1 is None,
        causation is Some ==> opt_view(c.0) == Some(causation_kind_name(causation->0)) && opt_view(
            c.1,
        ) == Some(causation_id(causation->0)),
{
    match causation {
        None => (None, None),
        Some(CausationRef::Invocation(id)) => (Some(String::from_str("Invocation")), Some(id.clone())),
        Some(CausationRef::Event(id)) => (Some(String::from_str("Event")), Some(id.clone())),
    }
}

/// Whether two causation columns read back: both absent, or a known kind
/// with an identity.
pub open spec fn causation_columns_valid(kind: Option<String>, id: Option<String>) -> bool {
    match (kind, id) {
        (None, None) => true,
        (Some(k), Some(_)) => k@ == "Invocation"@ || k@ == "Event"@,
        _ => false,
    }
}

/// What two valid causation columns read back as.
pub open spec fn causation_of_columns(kind: Option<String>, id: Option<String>, c: Option<CausationRef>) -> bool {
    match (kind, id) {
        (Some(k), Some(i)) => c matches Some(r) && causation_kind_name(r) == k@ && causation_id(r) == i@,
        _ => c is None,
    }
}

/// Reads two causation columns back; refused as corrupt storage when only
/// one is present or the kind is unknown.
pub fn decode_causation_columns(kind: Option<String>, id: Option<String>) -> (res: Result<
    Option<CausationRef>,
    PersistenceError,
>)
    ensures
        res is Ok <==> causation_columns_valid(kind, id),
        res matches Ok(c) ==> causation_of_columns(kind, id, c),
        res matches Err(e) ==> (e matches PersistenceError::StorageCorrupt { message } && message@
            == match (kind, id) {
            (Some(k), Some(_)) => "unknown causation kind '"@ + k@ + "'"@,
            _ => "causation kind and identity must be present together"@,
        }),
{
    match (kind, id) {
        (None, None) => Ok(None),
        (Some(kind), Some(id)) => {
            if text_eq(kind.as_str(), "Invocation") {
                Ok(Some(CausationRef::Invocation(id)))
            } else if text_eq(kind.as_str(), "Event") {
                Ok(Some(CausationRef::Event(id)))
            } else {
                let mut message = String::from_str("unknown causation kind '");
                message.append(kind.as_str());
                message.append("'");
                Err(PersistenceError::StorageCorrupt { message })
            }
        },
        _ => Err(
            PersistenceError::StorageCorrupt {
                message: String::from_str("causation kind and identity must be present together"),
            },
        ),
    }
}

/// The text with ASCII capitals made small.
pub open spec fn ascii_lower(s: Seq<char>) -> Seq<char> {
    s.map_values(|c: char| if 'A' <= c && c <= 'Z' { ((c as u32) + 32) as char } else { c })
}

/// Whether a metadata key names something that must never be audited:
/// payloads, credentials, secrets or raw state, in any letter case.
pub open spec fn forbidden_key(key: Seq<char>) -> bool {
    let k = ascii_lower(key);
    ||| occurs_in(k, "payload"@)
    ||| occurs_in(k, "credential"@)
    ||| occurs_in(k, "password"@)
    ||| occurs_in(k, "secret"@)
    ||| occurs_in(k, "token"@)
    ||| occurs_in(k, "raw_state"@)
    ||| occurs_in(k, "state_value"@)
}

/// Whether text is over the storage field limit in bytes.
pub open spec fn over_limit(s: Seq<char>) -> bool {
    encode_utf8(s).len() > MAX_CODEC_STRING_BYTES
}

/// Why metadata entries may not be audited: the first forbidden key, or
/// the first entry over the field limit.
pub open spec fn metadata_refusal(s: Seq<Entry>) -> Option<Seq<char>>
    decreases s.len(),
{
    if s.len() == 0 {
        None
    } else if forbidden_key(s[0].0) {
        Some("audit metadata key '"@ + s[0].0 + "' is not allowed"@)
    } else if over_limit(s[0].0) || over_limit(s[0].1) {
        Some("audit metadata exceeds the storage record limit"@)
    } else {
        metadata_refusal(s.drop_first())
    }
}

/// One audited operation. Audit records hold metadata only, never
/// payloads or state values.
#[derive(Debug, PartialEq, Eq)]
pub struct AuditRecord {
    pub audit_id: u64,
    pub record_type: String,
    pub principal: Option<String>,
    pub installation: Option<String>,
    /// The runtime incarnation and sequence, when a runtime was involved.
    pub runtime: Option<(u64, u64)>,
    pub correlation: Option<String>,
    pub causation: Option<CausationRef>,
    pub outcome: AuditOutcome,
    pub metadata: AuditMetadata,
}

/// Why a record may not be audited, if it may not.
pub open spec fn audit_refusal(r: &AuditRecord) -> Option<Seq<char>> {
    if blank(r.record_type@) {
        Some("audit record type must not be empty"@)
    } else if over_limit(r.record_type@) {
        Some("audit record type exceeds the storage record limit"@)
    } else if metadata_refusal(r.metadata.view_entries()) is Some {
        metadata_refusal(r.metadata.view_entries())
    } else if r.correlation is None && r.causation is Some {
        Some("audit causation requires a correlation id"@)
    } else {
        None
    }
}

fn lowercase_ascii(s: &str) -> (l: String)
    ensures
        l@ == ascii_lower(s@),
{
    let chars = chars_of(s);
    let mut l = String::new();
    let mut i: usize = 0;
    while i < chars.len()
        invariant
            chars@ == s@,
            i <= chars@.len(),
            l@ == ascii_lower(s@.subrange(0, i as int)),
        decreases chars.len() - i,
    {
        let c = chars[i];
        if 'A' <= c && c <= 'Z' {
            let lower = ((c as u8) + 32) as char;
            assert(lower == ((c as u32) + 32) as char);
            push_char(&mut l, lower);
        } else {
            push_char(&mut l, c);
        }
        i += 1;
        assert(l@ =~= ascii_lower(s@.subrange(0, i as int)));
    }
    assert(s@.subrange(0, s@.len() as int) =~= s@);
    l
}

fn is_forbidden_key(key: &str) -> (b: bool)
    ensures
        b == forbidden_key(key@),
{
    let k = lowercase_ascii(key);
    let k = k.as_str();
    contains_text(k, "payload") || contains_text(k, "credential") || contains_text(k, "password")
        || contains_text(k, "secret") || contains_text(k, "token") || contains_text(k, "raw_state")
        || contains_text(k, "state_value")
}

/// Checks that a record may be audited: a non-blank type within the field
/// limit, metadata without forbidden keys and within the limit, and a
/// correlation wherever there is a causation. Refusals are invalid
/// records.
pub fn validate_audit_record(record: &AuditRecord) -> (res: Result<(), PersistenceError>)
    ensures
        audit_refusal(record) is None ==> res is Ok,
        audit_refusal(record) matches Some(m) ==> (res matches Err(
            PersistenceError::InvalidRecord { message },
        ) && message@ == m),
{
    if is_blank(record.record_type.as_str()) {
        return Err(PersistenceError::InvalidRecord {
            message: String::from_str("audit record type must not be empty"),
        });
    }
    if record.record_type.as_str().as_bytes().len() > MAX_CODEC_STRING_BYTES {
        return Err(PersistenceError::InvalidRecord {
            message: String::from_str("audit record type exceeds the storage record limit"),
        });
    }
    let entries = record.metadata.entries();
    let ghost v = record.metadata.view_entries();
    let mut i: usize = 0;
    proof {
        assert(v.skip(0) =~= v);
    }
    while i < entries.len()
        invariant
            v == entries@.map_values(|x: (String, String)| crate::metadata::entry_view(x)),
            v == record.metadata.view_entries(),
            !blank(record.record_type@),
            !over_limit(record.record_type@),
            i <= v.len(),
            metadata_refusal(v) == metadata_refusal(v.skip(i as int)),
        decreases entries.len() - i,
    {
        proof {
            assert(v.skip(i as int)[0] == v[i as int]);
            assert(v.skip(i as int).drop_first() =~= v.skip(i + 1));
        }
        let key = entries[i].0.as_str();
        let value = entries[i].1.as_str();
        assert(key@ == v[i as int].0 && value@ == v[i as int].1);
        if is_forbidden_key(key) {
            let mut message = String::from_str("audit metadata key '");
            message.append(key);
            message.append("' is not allowed");
            return Err(PersistenceError::InvalidRecord { message });
        }
        if key.as_bytes().len() > MAX_CODEC_STRING_BYTES || value.as_bytes().len() > MAX_CODEC_STRING_BYTES {
            return Err(PersistenceError::InvalidRecord {
                message: String::from_str("audit metadata exceeds the storage record limit"),
            });
        }
        i += 1;
    }
    proof {
        assert(v.skip(i as int) =~= Seq::<Entry>::empty());
    }
    if record.correlation.is_none() && record.causation.is_some() {
        return Err(PersistenceError::InvalidRecord {
            message: String::from_str("audit causation requires a correlation id"),
        });
    }
    Ok(())
}

/// An audit record as plain values.
pub struct AuditView {
    pub audit_id: u64,
    pub record_type: Seq<char>,
    pub principal: Option<Seq<char>>,
    pub installation: Option<Seq<char>>,
    pub runtime: Option<(u64, u64)>,
    pub correlation: Option<Seq<char>>,
    pub causation: Option<CausationView>,
    pub outcome: AuditOutcome,
    pub metadata: Seq<Entry>,
}

impl View for AuditRecord {
    type V = AuditView;

    open spec fn view(&self) -> AuditView {
        AuditView {
            audit_id: self.audit_id,
            record_type: self.record_type@,
            principal: opt_view(self.principal),
            installation: opt_view(self.installation),
            runtime: self.runtime,
            correlation: opt_view(self.correlation),
            causation: causation_view(self.causation),
            outcome: self.outcome,
            metadata: self.metadata.view_entries(),
        }
    }
}

/// The columns of an audit row: id, type, principal, installation, runtime
/// incarnation and sequence, correlation, causation kind and identity,
/// outcome, stored metadata.
pub type AuditColumns = (
    i64,
    String,
    Option<String>,
    Option<String>,
    Option<i64>,
    Option<i64>,
    Option<String>,
    Option<String>,
    Option<String>,
    String,
    Vec<u8>,
);

/// An audit row as plain values.
pub struct AuditRowView {
    pub audit_id: i64,
    pub record_type: Seq<char>,
    pub principal: Option<Seq<char>>,
    pub installation: Option<Seq<char>>,
    pub runtime_incarnation: Option<i64>,
    pub runtime_sequence: Option<i64>,
    pub correlation: Option<Seq<char>>,
    pub causation_kind: Option<Seq<char>>,
    pub causation_id: Option<Seq<char>>,
    pub outcome: Seq<char>,
    pub metadata: Seq<u8>,
}

/// The plain values of audit columns.
pub open spec fn audit_row_view(c: AuditColumns) -> AuditRowView {
    AuditRowView {
        audit_id: c.0,
        record_type: c.1@,
        principal: opt_view(c.2),
        installation: opt_view(c.3),
        runtime_incarnation: c.4,
        runtime_sequence: c.5,
        correlation: opt_view(c.6),
        causation_kind: opt_view(c.7),
        causation_id: opt_view(c.8),
        outcome: c.9@,
        metadata: c.10@,
    }
}

/// The stored kind of an optional causation.
pub open spec fn kind_column(c: Option<CausationView>) -> Option<Seq<char>> {
    match c {
        Some(CausationView::Invocation(_)) => Some("Invocation"@),
        Some(CausationView::Event(_)) => Some("Event"@),
        None => None,
    }
}

/// The stored identity of an optional causation.
pub open spec fn id_column(c: Option<CausationView>) -> Option<Seq<char>> {
    match c {
        Some(CausationView::Invocation(id)) => Some(id),
        Some(CausationView::Event(id)) => Some(id),
        None => None,
    }
}

/// The causation two stored columns stand for.
pub open spec fn causation_from_columns(kind: Option<Seq<char>>, id: Option<Seq<char>>) -> Option<
    CausationView,
> {
    match (kind, id) {
        (Some(k), Some(i)) => if k == "Invocation"@ {
            Some(CausationView::Invocation(i))
        } else {
            Some(CausationView::Event(i))
        },
        _ => None,
    }
}

/// Whether two stored causation columns read back.
pub open spec fn causation_pair_valid(kind: Option<Seq<char>>, id: Option<Seq<char>>) -> bool {
    match (kind, id) {
        (None, None) => true,
        (Some(k), Some(_)) => k == "Invocation"@ || k == "Event"@,
        _ => false,
    }
}

/// Why two causation columns do not read back.
pub open spec fn causation_refusal_text(kind: Option<Seq<char>>, id: Option<Seq<char>>) -> Seq<char> {
    match (kind, id) {
        (Some(k), Some(_)) => "unknown causation kind '"@ + k + "'"@,
        _ => "causation kind and identity must be present together"@,
    }
}

/// The refusal of an optional stored number that is negative.
pub open spec fn negative_refused_as(e: PersistenceError, name: Seq<char>, v: Option<i64>) -> bool {
    e matches PersistenceError::OutboxRecordCorrupt { message } && message@ == name
        + " contains negative value "@ + signed_decimal(v->0 as int)
}

/// The refusal of an audit row that does not read back: the first failed
/// check, in the order the row is read, decides it. Metadata that does not
/// parse is corrupt storage.
pub open spec fn audit_row_refused_as(e: PersistenceError, v: AuditRowView) -> bool {
    if v.audit_id < 0 {
        negative_refused_as(e, "audit id"@, Some(v.audit_id))
    } else if v.runtime_incarnation is Some != v.runtime_sequence is Some {
        e matches PersistenceError::StorageCorrupt { message } && message@
            == "runtime incarnation and sequence must be present together"@
    } else if v.runtime_incarnation matches Some(i) && i < 0 {
        negative_refused_as(e, "runtime incarnation"@, v.runtime_incarnation)
    } else if v.runtime_sequence matches Some(q) && q < 0 {
        negative_refused_as(e, "runtime sequence"@, v.runtime_sequence)
    } else if !causation_pair_valid(v.causation_kind, v.causation_id) {
        e matches PersistenceError::StorageCorrupt { message } && message@
            == causation_refusal_text(v.causation_kind, v.causation_id)
    } else if !(exists|o: AuditOutcome| #[trigger] audit_outcome_name(o) == v.outcome) {
        e matches PersistenceError::StorageCorrupt { message } && message@
            == "unknown audit outcome '"@ + v.outcome + "'"@
    } else if parse_metadata(v.metadata) is None {
        e is StorageCorrupt
    } else if v.correlation is None && v.causation_kind is Some {
        e matches PersistenceError::StorageCorrupt { message } && message@
            == "audit causation exists without correlation"@
    } else {
        false
    }
}

/// The row an admissible audit record is stored as.
pub open spec fn row_of_audit(a: AuditView) -> AuditRowView {
    AuditRowView {
        audit_id: a.audit_id as i64,
        record_type: a.record_type,
        principal: a.principal,
        installation: a.installation,
        runtime_incarnation: match a.runtime {
            Some((i, _)) => Some(i as i64),
            None => None,
        },
        runtime_sequence: match a.runtime {
            Some((_, q)) => Some(q as i64),
            None => None,
        },
        correlation: a.correlation,
        causation_kind: kind_column(a.causation),
        causation_id: id_column(a.causation),
        outcome: audit_outcome_name(a.outcome),
        metadata: enc_metadata(a.metadata),
    }
}

/// Whether an audit row reads back as a record.
pub open spec fn audit_row_valid(v: AuditRowView) -> bool {
    &&& v.audit_id >= 0
    &&& match (v.runtime_incarnation, v.runtime_sequence) {
        (None, None) => true,
        (Some(i), Some(q)) => i >= 0 && q >= 0,
        _ => false,
    }
    &&& causation_pair_valid(v.causation_kind, v.causation_id)
    &&& exists|o: AuditOutcome| #[trigger] audit_outcome_name(o) == v.outcome
    &&& parse_metadata(v.metadata) is Some
    &&& !(v.correlation is None && v.causation_kind is Some)
}

/// Whether a valid audit row reads back as `a`.
pub open spec fn audit_row_reads_as(v: AuditRowView, a: AuditView) -> bool {
    &&& a.audit_id == v.audit_id
    &&& a.record_type == v.record_type
    &&& a.principal == v.principal
    &&& a.installation == v.installation
    &&& a.runtime == match (v.runtime_incarnation, v.runtime_sequence) {
        (Some(i), Some(q)) => Some((i as u64, q as u64)),
        _ => None,
    }
    &&& a.correlation == v.correlation
    &&& a.causation == causation_from_columns(v.causation_kind, v.causation_id)
    &&& audit_outcome_name(a.outcome) == v.outcome
    &&& a.metadata == sort_entries(parse_metadata(v.metadata).unwrap())
}

/// Whether numbers of an audit record fit SQLite integers.
pub open spec fn audit_numbers_fit(a: AuditView) -> bool {
    &&& a.audit_id <= i64::MAX
    &&& match a.runtime {
        Some((i, q)) => i <= i64::MAX && q <= i64::MAX,
        None => true,
    }
}

/// The name of the first number of an audit record that does not fit a
/// SQLite integer, in the order the row is written.
pub open spec fn audit_range_name(a: AuditView) -> Seq<char> {
    match a.runtime {
        Some((i, q)) => if i > i64::MAX {
            "runtime incarnation"@
        } else if q > i64::MAX {
            "runtime sequence"@
        } else {
            "audit id"@
        },
        None => "audit id"@,
    }
}

/// The runtime columns of a record: incarnation and sequence, when there is
/// a runtime.
pub fn optional_runtime_columns(runtime: Option<(u64, u64)>) -> (res: Result<
    (Option<i64>, Option<i64>),
    PersistenceError,
>)
    ensures
        runtime is None ==> res == Ok::<(Option<i64>, Option<i64>), PersistenceError>((None, None)),
        runtime matches Some((i, q)) ==> (i <= i64::MAX && q <= i64::MAX ==> res == Ok::<
            (Option<i64>, Option<i64>),
            PersistenceError,
        >((Some(i as i64), Some(q as i64)))),
        runtime matches Some((i, q)) ==> (i > i64::MAX ==> (res matches Err(
            PersistenceError::OutboxDeliveryFailed { message },
        ) && message@ == "runtime incarnation"@ + " exceeds SQLite integer range"@)),
        runtime matches Some((i, q)) ==> (i <= i64::MAX && q > i64::MAX ==> (res matches Err(
            PersistenceError::OutboxDeliveryFailed { message },
        ) && message@ == "runtime sequence"@ + " exceeds SQLite integer range"@)),
{
    match runtime {
        None => Ok((None, None)),
        Some((incarnation, sequence)) => {
            let i = integer_persistence(incarnation, "runtime incarnation")?;
            let q = integer_persistence(sequence, "runtime sequence")?;
            Ok((Some(i), Some(q)))
        },
    }
}

fn clone_opt(o: &Option<String>) -> (c: Option<String>)
    ensures
        c == *o,
{
    match o {
        Some(s) => Some(s.clone()),
        None => None,
    }
}

/// The row an audit record is stored as. Refused when the record may not
/// be audited, its metadata has more entries than a count holds, or one of
/// its numbers does not fit a SQLite integer.
pub fn audit_row(record: &AuditRecord) -> (res: Result<AuditColumns, PersistenceError>)
    ensures
        res is Ok <==> audit_refusal(record) is None && record@.metadata.len() <= u32::MAX
            && audit_numbers_fit(record@),
        res matches Ok(c) ==> audit_row_view(c) == row_of_audit(record@),
        audit_refusal(record) matches Some(m) ==> (res matches Err(
            PersistenceError::InvalidRecord { message },
        ) && message@ == m),
        audit_refusal(record) is None && record@.metadata.len() > u32::MAX ==> (res matches Err(
            PersistenceError::InvalidRecord { message },
        ) && message@ == too_many_entries_text()),
        audit_refusal(record) is None && record@.metadata.len() <= u32::MAX && !audit_numbers_fit(
            record@,
        ) ==> (res matches Err(PersistenceError::OutboxDeliveryFailed { message }) && message@
            == audit_range_name(record@) + " exceeds SQLite integer range"@),
{
    validate_audit_record(record)?;
    proof {
        lemma_unrefused_fits(record.metadata.view_entries());
    }
    let metadata = encode_metadata(&record.metadata)?;
    let (incarnation, sequence) = optional_runtime_columns(record.runtime)?;
    let (kind, id) = causation_columns(&record.causation);
    let audit_id = integer_persistence(record.audit_id, "audit id")?;
    let outcome = String::from_str(audit_outcome_str(record.outcome));
    let row = (
        audit_id,
        record.record_type.clone(),
        clone_opt(&record.principal),
        clone_opt(&record.installation),
        incarnation,
        sequence,
        clone_opt(&record.correlation),
        kind,
        id,
        outcome,
        metadata,
    );
    proof {
        match record.causation {
            Some(CausationRef::Invocation(_)) => {},
            Some(CausationRef::Event(_)) => {},
            None => {},
        }
    }
    Ok(row)
}

proof fn lemma_event_not_invocation()
    ensures
        "Event"@ != "Invocation"@,
{
    reveal_strlit("Event");
    reveal_strlit("Invocation");
    assert("Event"@.len() != "Invocation"@.len());
}

proof fn lemma_unrefused_fits(s: Seq<Entry>)
    requires
        metadata_refusal(s) is None,
    ensures
        entries_fit(s),
    decreases s.len(),
{
    if s.len() > 0 {
        lemma_unrefused_fits(s.drop_first());
        assert forall|i: int| 0 <= i < s.len() implies string_fits(#[trigger] s[i].0) && string_fits(s[i].1) by {
            if i > 0 {
                assert(s[i] == s.drop_first()[i - 1]);
            }
        }
    }
}

/// Reads an audit row back into a record. Refused as corrupt when a number
/// is negative, the runtime or causation columns are half present, the
/// causation kind or outcome is unknown, the stored metadata does not
/// parse, or a causation comes without a correlation.
pub fn decode_audit_columns(columns: AuditColumns) -> (res: Result<AuditRecord, PersistenceError>)
    ensures
        res is Ok <==> audit_row_valid(audit_row_view(columns)),
        res matches Ok(r) ==> audit_row_reads_as(audit_row_view(columns), r@),
        res matches Err(e) ==> audit_row_refused_as(e, audit_row_view(columns)),
{
    let ghost v = audit_row_view(columns);
    let (
        audit_id,
        record_type,
        principal,
        installation,
        runtime_incarnation,
        runtime_sequence,
        correlation,
        causation_kind,
        causation_id,
        outcome,
        metadata,
    ) = columns;
    let audit_id = unsigned_persistence(audit_id, "audit id")?;
    let runtime = match (runtime_incarnation, runtime_sequence) {
        (None, None) => None,
        (Some(incarnation), Some(sequence)) => Some(
            (
                unsigned_persistence(incarnation, "runtime incarnation")?,
                unsigned_persistence(sequence, "runtime sequence")?,
            ),
        ),
        _ => {
            return Err(PersistenceError::StorageCorrupt {
                message: String::from_str("runtime incarnation and sequence must be present together"),
            });
        },
    };
    let causation = decode_causation_columns(causation_kind, causation_id)?;
    let outcome = audit_outcome_from_string(outcome.as_str())?;
    let metadata = decode_metadata(metadata.as_slice())?;
    if correlation.is_none() && causation.is_some() {
        return Err(PersistenceError::StorageCorrupt {
            message: String::from_str("audit causation exists without correlation"),
        });
    }
    let record = AuditRecord {
        audit_id,
        record_type,
        principal,
        installation,
        runtime,
        correlation,
        causation,
        outcome,
        metadata,
    };
    proof {
        lemma_event_not_invocation();
    }
    Ok(record)
}

/// Whether an audit record as plain values may be stored and read back:
/// it passes validation, its metadata is in key order and within the
/// reading limit, and its numbers fit SQLite integers.
pub open spec fn audit_admissible(a: AuditView) -> bool {
    &&& !blank(a.record_type)
    &&& !over_limit(a.record_type)
    &&& metadata_refusal(a.metadata) is None
    &&& sorted_keys(a.metadata)
    &&& a.metadata.len() <= MAX_METADATA_ENTRIES
    &&& audit_numbers_fit(a)
    &&& !(a.correlation is None && a.causation is Some)
}

/// An audit record that may be stored reads back from its row as itself.
pub proof fn law_audit_row_reads_back(a: AuditView)
    requires
        audit_admissible(a),
    ensures
        audit_row_valid(row_of_audit(a)),
        audit_row_reads_as(row_of_audit(a), a),
{
    lemma_unrefused_fits(a.metadata);
    law_metadata_roundtrip(a.metadata);
    lemma_event_not_invocation();
    let v = row_of_audit(a);
    assert(audit_outcome_name(a.outcome) == v.outcome);
    match a.causation {
        Some(CausationView::Invocation(i)) => {},
        Some(CausationView::Event(i)) => {},
        None => {},
    }
}

/// A persistent job.
#[derive(Debug, PartialEq, Eq)]
pub struct JobRecord {
    pub job_id: String,
    pub owner: String,
    pub installation: Option<String>,
    pub state: JobState,
    pub deadline_millis: Option<u64>,
    pub wakeup_millis: Option<u64>,
    pub cancellation_requested: bool,
    pub attempt: u32,
    pub resource_budget: Option<u64>,
    pub recovery_policy: JobRecoveryPolicy,
    pub correlation: Option<String>,
    pub causation: Option<CausationRef>,
}

/// A job as plain values.
pub struct JobView {
    pub job_id: Seq<char>,
    pub owner: Seq<char>,
    pub installation: Option<Seq<char>>,
    pub state: JobState,
    pub deadline_millis: Option<u64>,
    pub wakeup_millis: Option<u64>,
    pub cancellation_requested: bool,
    pub attempt: u32,
    pub resource_budget: Option<u64>,
    pub recovery_policy: JobRecoveryPolicy,
    pub correlation: Option<Seq<char>>,
    pub causation: Option<CausationView>,
}

impl View for JobRecord {
    type V = JobView;

    open spec fn view(&self) -> JobView {
        JobView {
            job_id: self.job_id@,
            owner: self.owner@,
            installation: opt_view(self.installation),
            state: self.state,
            deadline_millis: self.deadline_millis,
            wakeup_millis: self.wakeup_millis,
            cancellation_requested: self.cancellation_requested,
            attempt: self.attempt,
            resource_budget: self.resource_budget,
            recovery_policy: self.recovery_policy,
            correlation: opt_view(self.correlation),
            causation: causation_view(self.causation),
        }
    }
}

/// Why a job may not be stored, if it may not.
pub open spec fn job_refusal(j: JobView) -> Option<Seq<char>> {
    if blank(j.job_id) {
        Some("job identity must not be empty"@)
    } else if blank(j.owner) {
        Some("job owner must be well formed"@)
    } else if j.installation is Some && blank(j.installation->0) {
        Some("job installation identity must not be empty"@)
    } else if j.correlation is None && j.causation is Some {
        Some("job causation requires a correlation id"@)
    } else {
        None
    }
}

/// Checks that a job may be stored: it has an identity, a well-formed
/// owner, a non-blank installation if any, and a correlation wherever there
/// is a causation. Refusals are invalid records.
pub fn validate_job_record(job: &JobRecord) -> (res: Result<(), PersistenceError>)
    ensures
        job_refusal(job@) is None ==> res is Ok,
        job_refusal(job@) matches Some(m) ==> (res matches Err(
            PersistenceError::InvalidRecord { message },
        ) && message@ == m),
{
    if is_blank(job.job_id.as_str()) {
        return Err(PersistenceError::InvalidRecord {
            message: String::from_str("job identity must not be empty"),
        });
    }
    if is_blank(job.owner.as_str()) {
        return Err(PersistenceError::InvalidRecord {
            message: String::from_str("job owner must be well formed"),
        });
    }
    match &job.installation {
        Some(installation) => {
            if is_blank(installation.as_str()) {
                return Err(PersistenceError::InvalidRecord {
                    message: String::from_str("job installation identity must not be empty"),
                });
            }
        },
        None => {},
    }
    if job.correlation.is_none() && job.causation.is_some() {
        return Err(PersistenceError::InvalidRecord {
            message: String::from_str("job causation requires a correlation id"),
        });
    }
    Ok(())
}

/// The columns of a job row: identity, owner, installation, state,
/// deadline, wakeup, cancellation flag, attempt, resource budget, recovery
/// policy, correlation, causation kind and identity.
pub type JobColumns = (
    String,
    String,
    Option<String>,
    String,
    Option<i64>,
    Option<i64>,
    i64,
    i64,
    Option<i64>,
    String,
    Option<String>,
    Option<String>,
    Option<String>,
);

/// A job row as plain values.
pub struct JobRowView {
    pub job_id: Seq<char>,
    pub owner: Seq<char>,
    pub installation: Option<Seq<char>>,
    pub state: Seq<char>,
    pub deadline_millis: Option<i64>,
    pub wakeup_millis: Option<i64>,
    pub cancellation_requested: i64,
    pub attempt: i64,
    pub resource_budget: Option<i64>,
    pub recovery_policy: Seq<char>,
    pub correlation: Option<Seq<char>>,
    pub causation_kind: Option<Seq<char>>,
    pub causation_id: Option<Seq<char>>,
}

/// The plain values of job columns.
pub open spec fn job_row_view(c: JobColumns) -> JobRowView {
    JobRowView {
        job_id: c.0@,
        owner: c.1@,
        installation: opt_view(c.2),
        state: c.3@,
        deadline_millis: c.4,
        wakeup_millis: c.5,
        cancellation_requested: c.6,
        attempt: c.7,
        resource_budget: c.8,
        recovery_policy: c.9@,
        correlation: opt_view(c.10),
        causation_kind: opt_view(c.11),
        causation_id: opt_view(c.12),
    }
}

/// An optional number as a stored integer.
pub open spec fn opt_i64(v: Option<u64>) -> Option<i64> {
    match v {
        Some(x) => Some(x as i64),
        None => None,
    }
}

/// A stored optional integer read back.
pub open spec fn opt_u64(v: Option<i64>) -> Option<u64> {
    match v {
        Some(x) => Some(x as u64),
        None => None,
    }
}

/// Whether an optional stored integer is absent or not negative.
pub open spec fn opt_non_negative(v: Option<i64>) -> bool {
    match v {
        Some(x) => x >= 0,
        None => true,
    }
}

/// Whether an optional number fits a SQLite integer.
pub open spec fn opt_fits(v: Option<u64>) -> bool {
    match v {
        Some(x) => x <= i64::MAX,
        None => true,
    }
}

/// The row a storable job is written as.
pub open spec fn row_of_job(j: JobView) -> JobRowView {
    JobRowView {
        job_id: j.job_id,
        owner: j.owner,
        installation: j.installation,
        state: job_state_name(j.state),
        deadline_millis: opt_i64(j.deadline_millis),
        wakeup_millis: opt_i64(j.wakeup_millis),
        cancellation_requested: if j.cancellation_requested {
            1
        } else {
            0
        },
        attempt: j.attempt as i64,
        resource_budget: opt_i64(j.resource_budget),
        recovery_policy: job_recovery_policy_name(j.recovery_policy),
        correlation: j.correlation,
        causation_kind: kind_column(j.causation),
        causation_id: id_column(j.causation),
    }
}

/// Whether a job row reads back as a job.
pub open spec fn job_row_valid(v: JobRowView) -> bool {
    &&& v.cancellation_requested == 0 || v.cancellation_requested == 1
    &&& 0 <= v.attempt <= u32::MAX
    &&& causation_pair_valid(v.causation_kind, v.causation_id)
    &&& exists|s: JobState| #[trigger] job_state_name(s) == v.state
    &&& opt_non_negative(v.deadline_millis)
    &&& opt_non_negative(v.wakeup_millis)
    &&& opt_non_negative(v.resource_budget)
    &&& exists|p: JobRecoveryPolicy| #[trigger] job_recovery_policy_name(p) == v.recovery_policy
    &&& !(v.correlation is None && v.causation_kind is Some)
}

/// Whether a valid job row reads back as `j`.
pub open spec fn job_row_reads_as(v: JobRowView, j: JobView) -> bool {
    &&& j.job_id == v.job_id
    &&& j.owner == v.owner
    &&& j.installation == v.installation
    &&& job_state_name(j.state) == v.state
    &&& j.deadline_millis == opt_u64(v.deadline_millis)
    &&& j.wakeup_millis == opt_u64(v.wakeup_millis)
    &&& j.cancellation_requested == (v.cancellation_requested == 1)
    &&& j.attempt == v.attempt
    &&& j.resource_budget == opt_u64(v.resource_budget)
    &&& job_recovery_policy_name(j.recovery_policy) == v.recovery_policy
    &&& j.correlation == v.correlation
    &&& j.causation == causation_from_columns(v.causation_kind, v.causation_id)
}

/// Whether the numbers of a job fit SQLite integers.
pub open spec fn job_numbers_fit(j: JobView) -> bool {
    opt_fits(j.deadline_millis) && opt_fits(j.wakeup_millis) && opt_fits(j.resource_budget)
}

/// The name of the first number of a job that does not fit a SQLite
/// integer, in the order the row is written.
pub open spec fn job_range_name(j: JobView) -> Seq<char> {
    if !opt_fits(j.deadline_millis) {
        "job deadline"@
    } else if !opt_fits(j.wakeup_millis) {
        "job wakeup"@
    } else {
        "job resource budget"@
    }
}

/// The row a job is written as. Refused when the job may not be stored or
/// one of its numbers does not fit a SQLite integer.
pub fn job_row(job: &JobRecord) -> (res: Result<JobColumns, PersistenceError>)
    ensures
        res is Ok <==> job_refusal(job@) is None && job_numbers_fit(job@),
        res matches Ok(c) ==> job_row_view(c) == row_of_job(job@),
        job_refusal(job@) matches Some(m) ==> (res matches Err(
            PersistenceError::InvalidRecord { message },
        ) && message@ == m),
        job_refusal(job@) is None && !job_numbers_fit(job@) ==> (res matches Err(
            PersistenceError::OutboxDeliveryFailed { message },
        ) && message@ == job_range_name(job@) + " exceeds SQLite integer range"@),
{
    validate_job_record(job)?;
    let (kind, id) = causation_columns(&job.causation);
    let deadline = optional_integer(job.deadline_millis, "job deadline")?;
    let wakeup = optional_integer(job.wakeup_millis, "job wakeup")?;
    let attempt = integer_persistence(job.attempt as u64, "job attempt")?;
    let budget = optional_integer(job.resource_budget, "job resource budget")?;
    let row = (
        job.job_id.clone(),
        job.owner.clone(),
        clone_opt(&job.installation),
        String::from_str(job_state_str(job.state)),
        deadline,
        wakeup,
        if job.cancellation_requested {
            1i64
        } else {
            0i64
        },
        attempt,
        budget,
        String::from_str(job_recovery_policy_str(job.recovery_policy)),
        clone_opt(&job.correlation),
        kind,
        id,
    );
    proof {
        match job.causation {
            Some(CausationRef::Invocation(_)) => {},
            Some(CausationRef::Event(_)) => {},
            None => {},
        }
    }
    Ok(row)
}

/// The message of a stored cancellation flag that is neither 0 nor 1.
pub open spec fn bad_flag_text(flag: i64) -> Seq<char> {
    "job cancellation flag must be 0 or 1, got "@ + signed_decimal(flag as int)
}

/// The refusal of a job row that does not read back: the first failed
/// check, in the order the row is read, decides it.
pub open spec fn job_row_refused_as(e: PersistenceError, v: JobRowView) -> bool {
    if !(v.cancellation_requested == 0 || v.cancellation_requested == 1) {
        e matches PersistenceError::StorageCorrupt { message } && message@ == bad_flag_text(
            v.cancellation_requested,
        )
    } else if v.attempt < 0 {
        negative_refused_as(e, "job attempt"@, Some(v.attempt))
    } else if v.attempt > u32::MAX {
        e matches PersistenceError::StorageCorrupt { message } && message@
            == "job attempt exceeds u32"@
    } else if !causation_pair_valid(v.causation_kind, v.causation_id) {
        e matches PersistenceError::StorageCorrupt { message } && message@
            == causation_refusal_text(v.causation_kind, v.causation_id)
    } else if !(exists|s: JobState| #[trigger] job_state_name(s) == v.state) {
        e matches PersistenceError::StorageCorrupt { message } && message@ == "unknown job state '"@
            + v.state + "'"@
    } else if !opt_non_negative(v.deadline_millis) {
        negative_refused_as(e, "job deadline"@, v.deadline_millis)
    } else if !opt_non_negative(v.wakeup_millis) {
        negative_refused_as(e, "job wakeup"@, v.wakeup_millis)
    } else if !opt_non_negative(v.resource_budget) {
        negative_refused_as(e, "job resource budget"@, v.resource_budget)
    } else if !(exists|p: JobRecoveryPolicy| #[trigger] job_recovery_policy_name(p)
        == v.recovery_policy) {
        e matches PersistenceError::StorageCorrupt { message } && message@
            == "unknown job recovery policy '"@ + v.recovery_policy + "'"@
    } else if v.correlation is None && v.causation_kind is Some {
        e matches PersistenceError::StorageCorrupt { message } && message@
            == "job causation exists without correlation"@
    } else {
        false
    }
}

/// Reads a job row back. Refused as corrupt when the cancellation flag is
/// not 0 or 1, a number is negative or the attempt exceeds 32 bits, the
/// causation columns are half present or of unknown kind, the state or
/// recovery policy is unknown, or a causation comes without a correlation.
pub fn decode_job_columns(columns: JobColumns) -> (res: Result<JobRecord, PersistenceError>)
    ensures
        res is Ok <==> job_row_valid(job_row_view(columns)),
        res matches Ok(j) ==> job_row_reads_as(job_row_view(columns), j@),
        res matches Err(e) ==> job_row_refused_as(e, job_row_view(columns)),
{
    let (
        job_id,
        owner,
        installation,
        state,
        deadline_millis,
        wakeup_millis,
        cancellation_requested,
        attempt,
        resource_budget,
        recovery_policy,
        correlation,
        causation_kind,
        causation_id,
    ) = columns;
    let cancellation_requested = if cancellation_requested == 0 {
        false
    } else if cancellation_requested == 1 {
        true
    } else {
        return Err(PersistenceError::StorageCorrupt { message: bad_flag_message(cancellation_requested) });
    };
    let attempt = unsigned_persistence(attempt, "job attempt")?;
    if attempt > 0xffff_ffff {
        return Err(PersistenceError::StorageCorrupt {
            message: String::from_str("job attempt exceeds u32"),
        });
    }
    let causation = decode_causation_columns(causation_kind, causation_id)?;
    let state = job_state_from_string(state.as_str())?;
    let deadline_millis = optional_unsigned(deadline_millis, "job deadline")?;
    let wakeup_millis = optional_unsigned(wakeup_millis, "job wakeup")?;
    let resource_budget = optional_unsigned(resource_budget, "job resource budget")?;
    let recovery_policy = job_recovery_policy_from_string(recovery_policy.as_str())?;
    if correlation.is_none() && causation.is_some() {
        return Err(PersistenceError::StorageCorrupt {
            message: String::from_str("job causation exists without correlation"),
        });
    }
    let job = JobRecord {
        job_id,
        owner,
        installation,
        state,
        deadline_millis,
        wakeup_millis,
        cancellation_requested,
        attempt: attempt as u32,
        resource_budget,
        recovery_policy,
        correlation,
        causation,
    };
    proof {
        lemma_event_not_invocation();
    }
    Ok(job)
}

fn bad_flag_message(flag: i64) -> (m: String)
    ensures
        m@ == bad_flag_text(flag),
{
    let mut m = String::from_str("job cancellation flag must be 0 or 1, got ");
    if flag < 0 {
        m.append("-");
        let magnitude: u64 = if flag == i64::MIN {
            0x8000_0000_0000_0000
        } else {
            (-flag) as u64
        };
        push_decimal(&mut m, magnitude);
    } else {
        push_decimal(&mut m, flag as u64);
    }
    m
}

/// Whether a job as plain values may be stored and read back.
pub open spec fn job_admissible(j: JobView) -> bool {
    job_refusal(j) is None && job_numbers_fit(j)
}

/// A job that may be stored reads back from its row as itself.
pub proof fn law_job_row_reads_back(j: JobView)
    requires
        job_admissible(j),
    ensures
        job_row_valid(row_of_job(j)),
        job_row_reads_as(row_of_job(j), j),
{
    lemma_event_not_invocation();
    let v = row_of_job(j);
    assert(job_state_name(j.state) == v.state);
    assert(job_recovery_policy_name(j.recovery_policy) == v.recovery_policy);
    match j.causation {
        Some(CausationView::Invocation(i)) => {},
        Some(CausationView::Event(i)) => {},
        None => {},
    }
}

/// The jobs that were running when the store last stopped, now reported
/// as interrupted; nothing else about them changes. Recovery never invents
/// a completion.
pub fn interrupt_running(jobs: Vec<JobRecord>) -> (out: Vec<JobRecord>)
    ensures
        out@.len() == jobs@.len(),
        forall|i: int|
            0 <= i < out@.len() ==> (#[trigger] out@[i])@ == (JobView {
                state: JobState::Interrupted,
                ..jobs@[i]@
            }),
{
    let mut out: Vec<JobRecord> = Vec::new();
    let mut rest = jobs;
    let ghost all = rest@;
    while rest.len() > 0
        invariant
            out@.len() + rest@.len() == all.len(),
            rest@ == all.subrange(out@.len() as int, all.len() as int),
            forall|k: int|
                0 <= k < out@.len() ==> (#[trigger] out@[k])@ == (JobView {
                    state: JobState::Interrupted,
                    ..all[k]@
                }),
        decreases rest@.len(),
    {
        let job = rest.remove(0);
        let ghost k = out@.len();
        assert(job == all[k as int]);
        out.push(JobRecord { state: JobState::Interrupted, ..job });
        assert(rest@ =~= all.subrange(out@.len() as int, all.len() as int));
    }
    out
}

/// The message when an update finds no such job.
pub open spec fn missing_job_text(job_id: Seq<char>) -> Seq<char> {
    "job '"@ + job_id + "' does not exist"@
}

/// Checks what an update of job `job_id` touched: exactly one row, or the
/// job does not exist.
pub fn check_job_updated(job_id: &str, updated: usize) -> (res: Result<(), PersistenceError>)
    ensures
        res is Ok <==> updated == 1,
        res is Err ==> (res matches Err(PersistenceError::JobStoreFailure { message }) && message@
            == missing_job_text(job_id@)),
{
    if updated != 1 {
        let mut message = String::from_str("job '");
        message.append(job_id);
        message.append("' does not exist");
        return Err(PersistenceError::JobStoreFailure { message });
    }
    Ok(())
}

} // verus!
