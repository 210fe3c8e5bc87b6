//! The decisions of the durable state store: compare-and-swap commits, the
//! transactional outbox, the storage format marker and the event journal.
//!
//! The store's tables live in SQLite; reading and writing rows is the host's
//! work. Every decision that the store makes about what it read or is about
//! to write stands here.
use vstd::prelude::*;

use crate::digest::{sha256, sha256_digest};
use crate::errors::{EventJournalError, PersistenceError, StateError};
use crate::codec::{bytes_equal, over_limit_message};
use crate::event::{
    decode_event, encode_event, enc_envelope, envelope_fits, envelope_unfit_label,
    envelope_well_formed, lemma_envelope_roundtrip, parse_envelope, DeliveryMode, EnvelopeView,
    EventEnvelope,
};
use crate::status::{
    installation_status_from_string, installation_status_name, outbox_status_from_string,
    outbox_status_name, outbox_status_str, InstallationStatus, OutboxStatus,
};
use crate::text::{
    begins_with, blank, chars_of, decimal, is_blank, message_with_number, push_decimal, text_eq,
};

verus! {

/// One outbox record: an event committed together with installation state
/// and awaiting delivery to the journal.
#[derive(Clone, Debug, PartialEq, Eq)]
pub struct OutboxRecord {
    pub outbox_id: String,
    pub installation: String,
    pub event: EventEnvelope,
    pub status: OutboxStatus,
    pub attempt_count: u32,
    pub created_sequence: u64,
    pub created_at_millis: u64,
}

/// Encoding two events that fit the record limits gives the same bytes only
/// when they are the same event.
pub proof fn law_event_encoding_injective(a: EnvelopeView, b: EnvelopeView)
    requires
        envelope_fits(a),
        envelope_fits(b),
        enc_envelope(a) == enc_envelope(b),
    ensures
        a == b,
{
    lemma_envelope_roundtrip(a);
    lemma_envelope_roundtrip(b);
}

/// The message for an outbox that names another installation.
pub open spec fn foreign_outbox_message(outbox: &OutboxRecord, installation: Seq<char>) -> Seq<
    char,
> {
    "outbox '"@ + outbox.outbox_id@ + "' belongs to installation '"@ + outbox.installation@
        + "', expected '"@ + installation + "'"@
}

/// Whether an outbox record may enter storage for `installation`: it
/// belongs to that installation, has an id, is still `Pending`, and carries
/// a durable event.
pub open spec fn outbox_acceptable(installation: Seq<char>, outbox: &OutboxRecord) -> bool {
    &&& outbox.installation@ == installation
    &&& !blank(outbox.outbox_id@)
    &&& outbox.status == OutboxStatus::Pending
    &&& outbox.event.delivery_mode == DeliveryMode::Durable
}

/// The refusal of an outbox record that may not enter storage: the first
/// failed check, in the order of [`outbox_acceptable`], decides it.
pub open spec fn outbox_refused_as(e: PersistenceError, installation: Seq<char>, outbox: &OutboxRecord) -> bool {
    if outbox.installation@ != installation {
        e matches PersistenceError::OutboxRecordCorrupt { message } && message@
            == foreign_outbox_message(outbox, installation)
    } else if blank(outbox.outbox_id@) {
        e matches PersistenceError::OutboxRecordCorrupt { message } && message@
            == "outbox identity must not be empty"@
    } else if outbox.status != OutboxStatus::Pending {
        e matches PersistenceError::OutboxAppendFailed { message } && message@ == "outbox '"@
            + outbox.outbox_id@ + "' must enter storage as Pending, got "@ + outbox_status_name(
            outbox.status,
        )
    } else if outbox.event.delivery_mode != DeliveryMode::Durable {
        e matches PersistenceError::OutboxAppendFailed { message } && message@ == "outbox '"@
            + outbox.outbox_id@ + "' contains a non-durable event"@
    } else {
        false
    }
}

/// Checks that an outbox record may enter storage for `installation`.
pub fn validate_outbox_for_installation(installation: &str, outbox: &OutboxRecord) -> (res:
    Result<(), PersistenceError>)
    ensures
        res is Ok <==> outbox_acceptable(installation@, outbox),
        res matches Err(e) ==> outbox_refused_as(e, installation@, outbox),
{
    if !text_eq(outbox.installation.as_str(), installation) {
        let mut message = String::from_str("outbox '");
        message.append(outbox.outbox_id.as_str());
        message.append("' belongs to installation '");
        message.append(outbox.installation.as_str());
        message.append("', expected '");
        message.append(installation);
        message.append("'");
        return Err(PersistenceError::OutboxRecordCorrupt { message });
    }
    if is_blank(outbox.outbox_id.as_str()) {
        return Err(
            PersistenceError::OutboxRecordCorrupt {
                message: String::from_str("outbox identity must not be empty"),
            },
        );
    }
    if outbox.status != OutboxStatus::Pending {
        let mut message = String::from_str("outbox '");
        message.append(outbox.outbox_id.as_str());
        message.append("' must enter storage as Pending, got ");
        message.append(outbox_status_str(outbox.status));
        return Err(PersistenceError::OutboxAppendFailed { message });
    }
    if outbox.event.delivery_mode != DeliveryMode::Durable {
        let mut message = String::from_str("outbox '");
        message.append(outbox.outbox_id.as_str());
        message.append("' contains a non-durable event");
        return Err(PersistenceError::OutboxAppendFailed { message });
    }
    Ok(())
}

/// The status a record in `status` with `attempts` delivery attempts has
/// after [`mark_delivering`]: `Delivering` when the attempt is admitted,
/// unchanged when it is refused.
pub open spec fn status_after_delivering(status: OutboxStatus, attempts: u32) -> OutboxStatus {
    if (status == OutboxStatus::Pending || status == OutboxStatus::Delivering) && attempts
        < u32::MAX {
        OutboxStatus::Delivering
    } else {
        status
    }
}

/// The status a record in `status` has after [`mark_delivered`].
pub open spec fn status_after_delivered(status: OutboxStatus) -> OutboxStatus {
    if status == OutboxStatus::Failed {
        status
    } else {
        OutboxStatus::Delivered
    }
}

/// The status a record in `status` has after [`mark_failed`].
pub open spec fn status_after_failed(status: OutboxStatus) -> OutboxStatus {
    if status == OutboxStatus::Delivered {
        status
    } else {
        OutboxStatus::Failed
    }
}

/// `Delivered` and `Failed` are final: no step of the delivery lifecycle
/// moves a record out of either, and the one never becomes the other.
pub proof fn law_outbox_final_statuses_stay(status: OutboxStatus, attempts: u32)
    requires
        status == OutboxStatus::Delivered || status == OutboxStatus::Failed,
    ensures
        status_after_delivering(status, attempts) == status,
        status_after_delivered(status) == status,
        status_after_failed(status) == status,
{
}

/// Moves an outbox record into `Delivering` for one more delivery attempt.
///
/// A `Delivered` or `Failed` record is refused, as is a record whose attempt
/// counter is exhausted; a refused record is left as it was. The event,
/// and so its id, is never replaced.
pub fn mark_delivering(record: &mut OutboxRecord) -> (res: Result<(), PersistenceError>)
    ensures
        final(record).status == status_after_delivering(old(record).status, old(record).attempt_count),
        old(record).status == OutboxStatus::Delivered || old(record).status
            == OutboxStatus::Failed ==> (res matches Err(
            PersistenceError::OutboxDeliveryFailed { message },
        ) && message@ == "outbox '"@ + old(record).outbox_id@
            + "' cannot enter Delivering from "@ + outbox_status_name(old(record).status)
            && *final(record) == *old(record)),
        (old(record).status == OutboxStatus::Pending || old(record).status
            == OutboxStatus::Delivering) && old(record).attempt_count == u32::MAX ==> (res matches Err(
            PersistenceError::OutboxDeliveryFailed { message },
        ) && message@ == "outbox '"@ + old(record).outbox_id@ + "' attempt counter exhausted"@
            && *final(record) == *old(record)),
        (old(record).status == OutboxStatus::Pending || old(record).status
            == OutboxStatus::Delivering) && old(record).attempt_count < u32::MAX ==> (res is Ok
            && *final(record) == (OutboxRecord {
            status: OutboxStatus::Delivering,
            attempt_count: (old(record).attempt_count + 1) as u32,
            ..*old(record)
        })),
{
    if record.status == OutboxStatus::Delivered || record.status == OutboxStatus::Failed {
        let mut message = String::from_str("outbox '");
        message.append(record.outbox_id.as_str());
        message.append("' cannot enter Delivering from ");
        message.append(outbox_status_str(record.status));
        return Err(PersistenceError::OutboxDeliveryFailed { message });
    }
    if record.attempt_count == u32::MAX {
        let mut message = String::from_str("outbox '");
        message.append(record.outbox_id.as_str());
        message.append("' attempt counter exhausted");
        return Err(PersistenceError::OutboxDeliveryFailed { message });
    }
    record.attempt_count = record.attempt_count + 1;
    record.status = OutboxStatus::Delivering;
    Ok(())
}

/// Marks an outbox record delivered.
///
/// Marking a delivered record again changes nothing and succeeds; a `Failed`
/// record is refused and left as it was.
pub fn mark_delivered(record: &mut OutboxRecord) -> (res: Result<(), PersistenceError>)
    ensures
        final(record).status == status_after_delivered(old(record).status),
        old(record).status == OutboxStatus::Delivered ==> res is Ok && *final(record) == *old(
            record,
        ),
        old(record).status == OutboxStatus::Failed ==> (res matches Err(
            PersistenceError::OutboxDeliveryFailed { message },
        ) && message@ == "outbox '"@ + old(record).outbox_id@ + "' is already Failed"@
            && *final(record) == *old(record)),
        old(record).status == OutboxStatus::Pending || old(record).status
            == OutboxStatus::Delivering ==> res is Ok && *final(record) == (OutboxRecord {
            status: OutboxStatus::Delivered,
            ..*old(record)
        }),
{
    match record.status {
        OutboxStatus::Delivered => Ok(()),
        OutboxStatus::Failed => {
            let mut message = String::from_str("outbox '");
            message.append(record.outbox_id.as_str());
            message.append("' is already Failed");
            Err(PersistenceError::OutboxDeliveryFailed { message })
        },
        OutboxStatus::Pending | OutboxStatus::Delivering => {
            record.status = OutboxStatus::Delivered;
            Ok(())
        },
    }
}

/// Longest failure message kept with a failed outbox record, in characters.
pub const MAX_FAILURE_MESSAGE_CHARS: usize = 4096;

/// The failure message kept for `message`: its first 4096 characters.
pub open spec fn bounded_failure_message(message: Seq<char>) -> Seq<char> {
    if message.len() <= MAX_FAILURE_MESSAGE_CHARS {
        message
    } else {
        message.take(MAX_FAILURE_MESSAGE_CHARS as int)
    }
}

/// Marks an outbox record failed and returns the failure message to keep.
///
/// Marking a failed record again changes nothing, keeps no new message and
/// succeeds; a `Delivered` record is refused and left as it was.
pub fn mark_failed(record: &mut OutboxRecord, message: &str) -> (res: Result<
    Option<String>,
    PersistenceError,
>)
    ensures
        final(record).status == status_after_failed(old(record).status),
        old(record).status == OutboxStatus::Failed ==> (res matches Ok(kept) && kept is None
            && *final(record) == *old(record)),
        old(record).status == OutboxStatus::Delivered ==> (res matches Err(
            PersistenceError::OutboxDeliveryFailed { message: m },
        ) && m@ == "outbox '"@ + old(record).outbox_id@ + "' is already Delivered"@
            && *final(record) == *old(record)),
        old(record).status == OutboxStatus::Pending || old(record).status
            == OutboxStatus::Delivering ==> (res matches Ok(kept) && kept matches Some(k) && k@
            == bounded_failure_message(message@) && *final(record) == (OutboxRecord {
            status: OutboxStatus::Failed,
            ..*old(record)
        })),
{
    match record.status {
        OutboxStatus::Failed => Ok(None),
        OutboxStatus::Delivered => {
            let mut m = String::from_str("outbox '");
            m.append(record.outbox_id.as_str());
            m.append("' is already Delivered");
            Err(PersistenceError::OutboxDeliveryFailed { message: m })
        },
        OutboxStatus::Pending | OutboxStatus::Delivering => {
            let length = message.unicode_len();
            let end = if length <= MAX_FAILURE_MESSAGE_CHARS {
                length
            } else {
                MAX_FAILURE_MESSAGE_CHARS
            };
            let kept = String::from_str(message.substring_char(0, end));
            assert(message@.subrange(0, end as int) =~= bounded_failure_message(message@));
            record.status = OutboxStatus::Failed;
            Ok(Some(kept))
        },
    }
}

/// Whether a commit of a transaction that read `expected_revision` may write
/// a state at `state_revision` for `state_installation` when the store holds
/// `stored_revision`: the state is the target's, it advances the revision by
/// exactly one, and nothing else committed since the transaction read it.
pub open spec fn commit_admitted(
    installation: Seq<char>,
    expected_revision: u64,
    state_installation: Seq<char>,
    state_revision: u64,
    stored_revision: u64,
) -> bool {
    &&& state_installation == installation
    &&& expected_revision < u64::MAX
    &&& state_revision == expected_revision + 1
    &&& stored_revision == expected_revision
}

/// The refusal of a state commit that is not admitted: a state of another
/// installation, an exhausted revision counter or a revision that does not
/// advance by one is a backend failure of `commit`; a stored revision other
/// than the one read is a transaction conflict that names both revisions.
pub open spec fn commit_refused_as(
    e: StateError,
    installation: Seq<char>,
    transaction: Seq<char>,
    expected_revision: u64,
    state_installation: Seq<char>,
    state_revision: u64,
    stored_revision: u64,
) -> bool {
    if state_installation != installation {
        e matches StateError::BackendFailure { operation, message } && operation@ == "commit"@
            && message@ == "state installation does not match commit target"@
    } else if expected_revision == u64::MAX {
        e matches StateError::BackendFailure { operation, message } && operation@ == "commit"@
            && message@ == "state revision counter exhausted"@
    } else if state_revision != expected_revision + 1 {
        e matches StateError::BackendFailure { operation, message } && operation@ == "commit"@
            && message@ == "commit revision must advance from "@ + decimal(expected_revision as nat)
            + " to "@ + decimal((expected_revision + 1) as nat) + ", got "@ + decimal(
            state_revision as nat,
        )
    } else if stored_revision != expected_revision {
        e matches StateError::TransactionConflict {
            installation: i,
            transaction: t,
            expected_revision: x,
            actual_revision: a,
        } && i@ == installation && t@ == transaction && x == expected_revision && a
            == stored_revision
    } else {
        false
    }
}

/// A stale transaction cannot overwrite a newer state: once a commit that
/// read `expected_revision` is admitted and its state stored, any other
/// commit that read the same revision is refused, whatever it writes.
pub proof fn law_stale_commit_refused(
    installation: Seq<char>,
    expected_revision: u64,
    stored_revision: u64,
    other_state_revision: u64,
)
    requires
        commit_admitted(
            installation,
            expected_revision,
            installation,
            (expected_revision + 1) as u64,
            stored_revision,
        ),
    ensures
        !commit_admitted(
            installation,
            expected_revision,
            installation,
            other_state_revision,
            (expected_revision + 1) as u64,
        ),
{
}

/// The optimistic compare-and-swap admission of one state commit.
///
/// The target, counter and advance checks come first; the stored revision
/// is compared last.
pub fn admit_commit(
    installation: &str,
    transaction: &str,
    expected_revision: u64,
    state_installation: &str,
    state_revision: u64,
    stored_revision: u64,
) -> (res: Result<(), StateError>)
    ensures
        res is Ok <==> commit_admitted(
            installation@,
            expected_revision,
            state_installation@,
            state_revision,
            stored_revision,
        ),
        res matches Err(e) ==> commit_refused_as(
            e,
            installation@,
            transaction@,
            expected_revision,
            state_installation@,
            state_revision,
            stored_revision,
        ),
{
    if !text_eq(state_installation, installation) {
        return Err(
            StateError::BackendFailure {
                operation: String::from_str("commit"),
                message: String::from_str("state installation does not match commit target"),
            },
        );
    }
    if expected_revision == u64::MAX {
        return Err(
            StateError::BackendFailure {
                operation: String::from_str("commit"),
                message: String::from_str("state revision counter exhausted"),
            },
        );
    }
    let expected_next = expected_revision + 1;
    if state_revision != expected_next {
        let mut message = message_with_number(
            "commit revision must advance from ",
            expected_revision,
            " to ",
        );
        push_decimal(&mut message, expected_next);
        message.append(", got ");
        push_decimal(&mut message, state_revision);
        return Err(
            StateError::BackendFailure { operation: String::from_str("commit"), message },
        );
    }
    if stored_revision != expected_revision {
        return Err(
            StateError::TransactionConflict {
                installation: String::from_str(installation),
                transaction: String::from_str(transaction),
                expected_revision,
                actual_revision: stored_revision,
            },
        );
    }
    Ok(())
}

/// The metadata-only update of an installation record is admitted only
/// when the stored revision is the expected one.
pub fn admit_record_update(installation: &str, expected_revision: u64, stored_revision: u64) -> (res:
    Result<(), StateError>)
    ensures
        res is Ok <==> stored_revision == expected_revision,
        res matches Err(e) ==> (e matches StateError::RevisionConflict {
            installation: i,
            expected_revision: x,
            actual_revision: a,
        } && i@ == installation@ && x == expected_revision && a == stored_revision),
{
    if stored_revision != expected_revision {
        return Err(
            StateError::RevisionConflict {
                installation: String::from_str(installation),
                expected_revision,
                actual_revision: stored_revision,
            },
        );
    }
    Ok(())
}

/// Admission of a state commit that also appends an outbox record: the
/// outbox must be acceptable for the installation, the commit must pass
/// the target, counter and advance checks of [`admit_commit`], the event
/// must encode, and last the stored revision must be the one read. On
/// success the stored bytes of the event are returned.
pub fn admit_commit_with_outbox(
    installation: &str,
    transaction: &str,
    expected_revision: u64,
    state_installation: &str,
    state_revision: u64,
    stored_revision: u64,
    outbox: &OutboxRecord,
) -> (res: Result<Vec<u8>, StateError>)
    ensures
        res is Ok <==> outbox_acceptable(installation@, outbox) && envelope_fits(outbox.event@)
            && commit_admitted(
            installation@,
            expected_revision,
            state_installation@,
            state_revision,
            stored_revision,
        ),
        res matches Ok(bytes) ==> bytes@ == enc_envelope(outbox.event@),
        !outbox_acceptable(installation@, outbox) ==> (res matches Err(StateError::Persistence(e))
            && outbox_refused_as(e, installation@, outbox)),
        outbox_acceptable(installation@, outbox) && !(state_installation@ == installation@
            && expected_revision < u64::MAX && state_revision == expected_revision + 1) ==> (res matches Err(
            e,
        ) && commit_refused_as(
            e,
            installation@,
            transaction@,
            expected_revision,
            state_installation@,
            state_revision,
            stored_revision,
        )),
        outbox_acceptable(installation@, outbox) && state_installation@ == installation@
            && expected_revision < u64::MAX && state_revision == expected_revision + 1
            && !envelope_fits(outbox.event@) ==> (res matches Err(
            StateError::Persistence(PersistenceError::OutboxRecordCorrupt { message }),
        ) && message@ == over_limit_message(envelope_unfit_label(outbox.event@))),
        res matches Err(e) ==> (outbox_acceptable(installation@, outbox) && envelope_fits(
            outbox.event@,
        ) ==> commit_refused_as(
            e,
            installation@,
            transaction@,
            expected_revision,
            state_installation@,
            state_revision,
            stored_revision,
        )),
{
    match validate_outbox_for_installation(installation, outbox) {
        Ok(()) => {},
        Err(error) => {
            return Err(StateError::Persistence(error));
        },
    }
    if !text_eq(state_installation, installation) || expected_revision == u64::MAX
        || state_revision != expected_revision + 1 {
        admit_commit(
            installation,
            transaction,
            expected_revision,
            state_installation,
            state_revision,
            stored_revision,
        )?;
    }
    let encoded = match encode_event(&outbox.event) {
        Ok(bytes) => bytes,
        Err(message) => {
            return Err(StateError::Persistence(PersistenceError::OutboxRecordCorrupt { message }));
        },
    };
    admit_commit(
        installation,
        transaction,
        expected_revision,
        state_installation,
        state_revision,
        stored_revision,
    )?;
    Ok(encoded)
}

/// A stored integer column: values above `i64::MAX` do not fit SQLite.
pub fn integer(value: u64, name: &str) -> (res: Result<i64, StateError>)
    ensures
        value <= i64::MAX ==> res == Ok::<i64, StateError>(value as i64),
        value > i64::MAX ==> (res matches Err(
            StateError::Persistence(PersistenceError::StorageIoFailure { operation, message }),
        ) && operation@ == "encode"@ && message@ == name@ + " exceeds SQLite integer range"@),
{
    if value > 0x7fff_ffff_ffff_ffff {
        let mut message = String::from_str(name);
        message.append(" exceeds SQLite integer range");
        return Err(
            StateError::Persistence(
                PersistenceError::StorageIoFailure { operation: String::from_str("encode"), message },
            ),
        );
    }
    Ok(value as i64)
}

/// The text of a signed number.
pub open spec fn signed_decimal(v: int) -> Seq<char> {
    if v < 0 {
        "-"@ + decimal((-v) as nat)
    } else {
        decimal(v as nat)
    }
}

fn negative_message(name: &str, value: i64) -> (m: String)
    requires
        value < 0,
    ensures
        m@ == name@ + " contains negative value "@ + signed_decimal(value as int),
{
    let mut m = String::from_str(name);
    m.append(" contains negative value ");
    m.append("-");
    let magnitude: u64 = if value == i64::MIN {
        0x8000_0000_0000_0000
    } else {
        (-value) as u64
    };
    push_decimal(&mut m, magnitude);
    assert(m@ =~= name@ + " contains negative value "@ + signed_decimal(value as int));
    m
}

/// A stored column read back as an unsigned number: negative values are
/// corrupt.
pub fn unsigned_integer(value: i64, name: &str) -> (res: Result<u64, StateError>)
    ensures
        value >= 0 ==> res == Ok::<u64, StateError>(value as u64),
        value < 0 ==> (res matches Err(
            StateError::Persistence(PersistenceError::StorageCorrupt { message }),
        ) && message@ == name@ + " contains negative value "@ + signed_decimal(value as int)),
{
    if value < 0 {
        return Err(
            StateError::Persistence(
                PersistenceError::StorageCorrupt { message: negative_message(name, value) },
            ),
        );
    }
    Ok(value as u64)
}

/// An outbox or job integer column: values above `i64::MAX` do not fit.
pub fn integer_persistence(value: u64, name: &str) -> (res: Result<i64, PersistenceError>)
    ensures
        value <= i64::MAX ==> res == Ok::<i64, PersistenceError>(value as i64),
        value > i64::MAX ==> (res matches Err(PersistenceError::OutboxDeliveryFailed { message })
            && message@ == name@ + " exceeds SQLite integer range"@),
{
    if value > 0x7fff_ffff_ffff_ffff {
        let mut message = String::from_str(name);
        message.append(" exceeds SQLite integer range");
        return Err(PersistenceError::OutboxDeliveryFailed { message });
    }
    Ok(value as i64)
}

/// An outbox or job column read back as an unsigned number.
pub fn unsigned_persistence(value: i64, name: &str) -> (res: Result<u64, PersistenceError>)
    ensures
        value >= 0 ==> res == Ok::<u64, PersistenceError>(value as u64),
        value < 0 ==> (res matches Err(PersistenceError::OutboxRecordCorrupt { message })
            && message@ == name@ + " contains negative value "@ + signed_decimal(value as int)),
{
    if value < 0 {
        return Err(PersistenceError::OutboxRecordCorrupt { message: negative_message(name, value) });
    }
    Ok(value as u64)
}

/// An optional integer column.
pub fn optional_integer(value: Option<u64>, name: &str) -> (res: Result<
    Option<i64>,
    PersistenceError,
>)
    ensures
        value is None ==> res == Ok::<Option<i64>, PersistenceError>(None),
        value matches Some(v) ==> (v <= i64::MAX ==> res == Ok::<Option<i64>, PersistenceError>(
            Some(v as i64),
        )),
        value matches Some(v) ==> (v > i64::MAX ==> (res matches Err(
            PersistenceError::OutboxDeliveryFailed { message },
        ) && message@ == name@ + " exceeds SQLite integer range"@)),
{
    match value {
        None => Ok(None),
        Some(v) => Ok(Some(integer_persistence(v, name)?)),
    }
}

/// An optional column read back as an unsigned number.
pub fn optional_unsigned(value: Option<i64>, name: &str) -> (res: Result<
    Option<u64>,
    PersistenceError,
>)
    ensures
        value is None ==> res == Ok::<Option<u64>, PersistenceError>(None),
        value matches Some(v) ==> (v >= 0 ==> res == Ok::<Option<u64>, PersistenceError>(
            Some(v as u64),
        )),
        value matches Some(v) ==> (v < 0 ==> (res matches Err(
            PersistenceError::OutboxRecordCorrupt { message },
        ) && message@ == name@ + " contains negative value "@ + signed_decimal(v as int))),
{
    match value {
        None => Ok(None),
        Some(v) => Ok(Some(unsigned_persistence(v, name)?)),
    }
}

/// The storage format this build reads and writes.
pub const CURRENT_STORAGE_FORMAT_VERSION: u32 = 1;

/// Whether a character is a decimal digit.
pub open spec fn is_digit(c: char) -> bool {
    '0' <= c <= '9'
}

/// The number written by a string of decimal digits.
pub open spec fn digits_value(s: Seq<char>) -> nat
    decreases s.len(),
{
    if s.len() == 0 {
        0
    } else {
        digits_value(s.drop_last()) * 10 + (s.last() as nat - '0' as nat) as nat
    }
}

/// The digits of a number text after an optional leading `+`.
pub open spec fn unsigned_digits(s: Seq<char>) -> Seq<char> {
    if s.len() > 0 && s[0] == '+' {
        s.drop_first()
    } else {
        s
    }
}

/// Whether every character is a decimal digit.
pub open spec fn all_digits(d: Seq<char>) -> bool {
    forall|i: int| 0 <= i < d.len() ==> is_digit(#[trigger] d[i])
}

/// What `from_str` of an unsigned integer type whose largest value is `max`
/// accepts: an optional `+`, then one or more decimal digits whose value is
/// at most `max`.
pub open spec fn unsigned_from_str(s: Seq<char>, max: nat) -> Option<nat> {
    let d = unsigned_digits(s);
    if d.len() > 0 && all_digits(d) && digits_value(d) <= max {
        Some(digits_value(d))
    } else {
        None
    }
}

/// What `u32::from_str` accepts.
pub open spec fn u32_from_str(s: Seq<char>) -> Option<u32> {
    match unsigned_from_str(s, u32::MAX as nat) {
        Some(v) => Some(v as u32),
        None => None,
    }
}

/// What `u64::from_str` accepts.
pub open spec fn u64_from_str(s: Seq<char>) -> Option<u64> {
    match unsigned_from_str(s, u64::MAX as nat) {
        Some(v) => Some(v as u64),
        None => None,
    }
}

proof fn lemma_digits_value_monotonic(s: Seq<char>, i: int)
    requires
        0 <= i <= s.len(),
        forall|j: int| 0 <= j < s.len() ==> is_digit(#[trigger] s[j]),
    ensures
        digits_value(s.take(i)) <= digits_value(s),
    decreases s.len() - i,
{
    if i < s.len() {
        lemma_digits_value_monotonic(s, i + 1);
        assert(s.take(i + 1).drop_last() =~= s.take(i));
    } else {
        assert(s.take(i) =~= s);
    }
}

/// Parses a decimal number as `from_str` of an unsigned integer type whose
/// largest value is `max` does.
pub fn parse_unsigned(s: &str, max: u64) -> (res: Option<u64>)
    ensures
        match res {
            Some(v) => unsigned_from_str(s@, max as nat) == Some(v as nat),
            None => unsigned_from_str(s@, max as nat) is None,
        },
{
    let ghost full = s@;
    let mut value: u128 = 0;
    let mut nonempty = false;
    let mut signed = false;
    let mut valid = true;
    let mut first = true;
    let ghost mut d: Seq<char> = Seq::empty();
    for c in it: s.chars()
        invariant
            it.seq() == full,
            first == (it.index() == 0),
            signed == (full.len() > 0 && full[0] == '+' && it.index() > 0),
            d == (if signed {
                full.subrange(1, it.index() as int)
            } else {
                full.take(it.index() as int)
            }),
            nonempty == (d.len() > 0),
            valid ==> (forall|j: int| 0 <= j < d.len() ==> is_digit(#[trigger] d[j]))
                && value == digits_value(d) && value <= max,
            !valid ==> !(forall|j: int| 0 <= j < d.len() ==> is_digit(#[trigger] d[j]))
                || digits_value(d) > max,
    {
        let ghost before = d;
        let at_start = first;
        first = false;
        if at_start && c == '+' {
            signed = true;
            proof {
                d = full.subrange(1, 1);
            }
        } else {
            proof {
                d = d.push(c);
                if signed {
                    assert(d =~= full.subrange(1, it.index() + 1));
                } else {
                    assert(d =~= full.take(it.index() + 1));
                }
                assert(d.drop_last() =~= before);
            }
            nonempty = true;
            if valid {
                if '0' <= c && c <= '9' {
                    let digit = (c as u32 - '0' as u32) as u128;
                    let next = value * 10 + digit;
                    if next > max as u128 {
                        valid = false;
                    } else {
                        value = next;
                    }
                } else {
                    valid = false;
                }
            } else {
                proof {
                    if forall|j: int| 0 <= j < d.len() ==> is_digit(#[trigger] d[j]) {
                        assert(forall|j: int| 0 <= j < before.len() ==> is_digit(#[trigger] before[j])) by {
                            assert forall|j: int| 0 <= j < before.len() implies is_digit(
                                #[trigger] before[j],
                            ) by {
                                assert(before[j] == d[j]);
                            }
                        }
                        lemma_digits_value_monotonic(d, before.len() as int);
                        assert(d.take(before.len() as int) =~= before);
                    }
                }
            }
        }
    }
    proof {
        let dd = unsigned_digits(full);
        if full.len() > 0 && full[0] == '+' {
            assert(d =~= full.subrange(1, full.len() as int));
        } else {
            assert(d =~= full);
        }
        assert(d == dd);
        if !(valid && nonempty) && nonempty {
            if !(forall|j: int| 0 <= j < dd.len() ==> is_digit(#[trigger] dd[j])) {
                let w = choose|j: int| 0 <= j < dd.len() && !is_digit(#[trigger] dd[j]);
                assert(!all_digits(dd)) by {
                    assert(!is_digit(dd[w]));
                }
            }
        }
    }
    assert(full == s@);
    if valid && nonempty {
        Some(value as u64)
    } else {
        None
    }
}

/// Parses a decimal number as `u32::from_str` does.
pub fn parse_u32(s: &str) -> (res: Option<u32>)
    ensures
        res == u32_from_str(s@),
{
    match parse_unsigned(s, 0xffff_ffff) {
        Some(v) => Some(v as u32),
        None => None,
    }
}

/// Parses a decimal number as `u64::from_str` does.
pub fn parse_u64(s: &str) -> (res: Option<u64>)
    ensures
        res == u64_from_str(s@),
{
    match parse_unsigned(s, 0xffff_ffff_ffff_ffff) {
        Some(v) => Some(v),
        None => None,
    }
}

/// The format check when a live profile is opened: a newer format is
/// unsupported, an older one has no non-destructive migration and is
/// treated as corrupt, and a marker that is not a number is corrupt.
pub fn check_storage_format(value: &str, supported: u32) -> (res: Result<(), PersistenceError>)
    ensures
        u32_from_str(value@) is None ==> (res matches Err(
            PersistenceError::StorageCorrupt { message },
        ) && message@ == "storage format value '"@ + value@ + "' is not an integer"@),
        u32_from_str(value@) matches Some(found) ==> (found > supported ==> res == Err::<
            (),
            PersistenceError,
        >(PersistenceError::UnsupportedStorageFormat { found, supported })),
        u32_from_str(value@) matches Some(found) ==> (found < supported ==> (res matches Err(
            PersistenceError::StorageCorrupt { message },
        ) && message@ == "storage format "@ + decimal(found as nat)
            + " has no non-destructive migration to "@ + decimal(supported as nat))),
        u32_from_str(value@) matches Some(found) ==> (found == supported ==> res is Ok),
{
    let found = match parse_u32(value) {
        Some(found) => found,
        None => {
            let mut message = String::from_str("storage format value '");
            message.append(value);
            message.append("' is not an integer");
            return Err(PersistenceError::StorageCorrupt { message });
        },
    };
    if found > supported {
        return Err(PersistenceError::UnsupportedStorageFormat { found, supported });
    }
    if found < supported {
        let mut message = message_with_number(
            "storage format ",
            found as u64,
            " has no non-destructive migration to ",
        );
        push_decimal(&mut message, supported as u64);
        return Err(PersistenceError::StorageCorrupt { message });
    }
    Ok(())
}

/// The format check of a backup before it is restored: a newer format is
/// unsupported and any other mismatch fails restore validation.
pub fn check_backup_format(value: &str, supported: u32) -> (res: Result<(), PersistenceError>)
    ensures
        u32_from_str(value@) is None ==> (res matches Err(
            PersistenceError::RestoreValidationFailed { message },
        ) && message@ == "backup storage format '"@ + value@ + "' is not an integer"@),
        u32_from_str(value@) matches Some(found) ==> (found > supported ==> res == Err::<
            (),
            PersistenceError,
        >(PersistenceError::UnsupportedStorageFormat { found, supported })),
        u32_from_str(value@) matches Some(found) ==> (found < supported ==> (res matches Err(
            PersistenceError::RestoreValidationFailed { message },
        ) && message@ == "backup storage format "@ + decimal(found as nat)
            + " does not match supported format "@ + decimal(supported as nat))),
        u32_from_str(value@) matches Some(found) ==> (found == supported ==> res is Ok),
{
    let found = match parse_u32(value) {
        Some(found) => found,
        None => {
            let mut message = String::from_str("backup storage format '");
            message.append(value);
            message.append("' is not an integer");
            return Err(PersistenceError::RestoreValidationFailed { message });
        },
    };
    if found > supported {
        return Err(PersistenceError::UnsupportedStorageFormat { found, supported });
    }
    if found < supported {
        let mut message = message_with_number(
            "backup storage format ",
            found as u64,
            " does not match supported format ",
        );
        push_decimal(&mut message, supported as u64);
        return Err(PersistenceError::RestoreValidationFailed { message });
    }
    Ok(())
}

/// What appending an event to the journal does, given what the journal
/// already holds under its id.
#[derive(Clone, Copy, Debug, PartialEq, Eq, Structural)]
pub enum JournalAppendAction {
    /// The journal holds no event with this id: insert the record.
    Insert,
    /// The journal holds the same record and digest: nothing to do.
    AlreadyPresent,
}

/// The record and digest written to the journal for `e`.
pub open spec fn journal_record(e: EnvelopeView) -> (Seq<u8>, Seq<u8>) {
    (enc_envelope(e), sha256(enc_envelope(e)))
}

/// Prepares the journal record of an event: only durable events are
/// journaled, and the event must encode. The result is the record and its
/// SHA-256 digest.
pub fn prepare_journal_append(event: &EventEnvelope) -> (res: Result<
    (Vec<u8>, Vec<u8>),
    EventJournalError,
>)
    ensures
        res is Ok <==> event.delivery_mode == DeliveryMode::Durable && envelope_fits(event@),
        event.delivery_mode != DeliveryMode::Durable ==> (res matches Err(
            EventJournalError::Failure(m),
        ) && m@ == "JournalAppendFailed: only Durable events may be appended to the production journal"@),
        res matches Ok((record, digest)) ==> (record@, digest@) == journal_record(event@),
        event.delivery_mode == DeliveryMode::Durable && !envelope_fits(event@) ==> (res matches Err(
            EventJournalError::Failure(m),
        ) && m@ == "JournalAppendFailed: "@ + over_limit_message(envelope_unfit_label(event@))),
{
    if event.delivery_mode != DeliveryMode::Durable {
        return Err(
            EventJournalError::Failure(
                String::from_str(
                    "JournalAppendFailed: only Durable events may be appended to the production journal",
                ),
            ),
        );
    }
    let encoded = match encode_event(event) {
        Ok(bytes) => bytes,
        Err(message) => {
            let mut m = String::from_str("JournalAppendFailed: ");
            m.append(message.as_str());
            return Err(EventJournalError::Failure(m));
        },
    };
    let digest = sha256_digest(encoded.as_slice());
    Ok((encoded, digest))
}

/// Decides an append given the row already stored under the event's id:
/// appending the same bytes again is idempotent; different bytes under the
/// same id are refused.
pub fn journal_append_action(
    event_id: &str,
    record: &[u8],
    digest: &[u8],
    existing: Option<(Vec<u8>, Vec<u8>)>,
) -> (res: Result<JournalAppendAction, EventJournalError>)
    ensures
        existing is None ==> res == Ok::<JournalAppendAction, EventJournalError>(
            JournalAppendAction::Insert,
        ),
        existing matches Some((r, h)) ==> (r@ == record@ && h@ == digest@ ==> res == Ok::<
            JournalAppendAction,
            EventJournalError,
        >(JournalAppendAction::AlreadyPresent)),
        existing matches Some((r, h)) ==> (!(r@ == record@ && h@ == digest@) ==> (res matches Err(
            EventJournalError::Failure(m),
        ) && m@ == "JournalAppendFailed: JournalAppendFailed: event '"@ + event_id@
            + "' already exists with different bytes"@)),
{
    match existing {
        None => Ok(JournalAppendAction::Insert),
        Some((stored_record, stored_digest)) => {
            if bytes_equal(stored_record.as_slice(), record) && bytes_equal(
                stored_digest.as_slice(),
                digest,
            ) {
                Ok(JournalAppendAction::AlreadyPresent)
            } else {
                let mut m = String::from_str("JournalAppendFailed: JournalAppendFailed: event '");
                m.append(event_id);
                m.append("' already exists with different bytes");
                Err(EventJournalError::Failure(m))
            }
        },
    }
}

/// Whether a journal row replays: its sequence is positive, its digest is
/// the SHA-256 of its record, and its record is the stored bytes of a
/// well-formed durable event with the row's id.
pub open spec fn journal_row_replays(
    sequence: i64,
    event_id: Seq<char>,
    record: Seq<u8>,
    record_hash: Seq<u8>,
) -> bool {
    &&& sequence > 0
    &&& record_hash == sha256(record)
    &&& exists|e: EnvelopeView|
        envelope_well_formed(e) && envelope_fits(e) && #[trigger] enc_envelope(e) == record
            && e.event_id == event_id && e.delivery_mode == DeliveryMode::Durable
}

/// The refusal of a journal row that does not replay: the first failed
/// check decides it. Every refusal starts with `JournalReplayFailed`; bytes
/// that hold no event are refused with what the event decoder reports.
pub open spec fn journal_row_refused_as(
    m: Seq<char>,
    sequence: i64,
    event_id: Seq<char>,
    record: Seq<u8>,
    record_hash: Seq<u8>,
) -> bool {
    if sequence <= 0 {
        m == "JournalReplayFailed: invalid journal sequence"@
    } else if record_hash != sha256(record) {
        m == "JournalReplayFailed: hash mismatch at sequence "@ + decimal(sequence as nat) + ""@
    } else if !holds_event(record) {
        begins_with(m, "JournalReplayFailed: "@)
    } else if stored_event(record).event_id != event_id || stored_event(record).delivery_mode
        != DeliveryMode::Durable {
        m == "JournalReplayFailed: envelope identity or delivery mode mismatch at sequence "@
            + decimal(sequence as nat) + ""@
    } else {
        false
    }
}

/// Checks one journal row read back for replay and returns its event.
pub fn verify_journal_row(sequence: i64, event_id: &str, record: &[u8], record_hash: &[u8]) -> (res:
    Result<EventEnvelope, EventJournalError>)
    ensures
        res is Ok <==> journal_row_replays(sequence, event_id@, record@, record_hash@),
        res matches Ok(e) ==> enc_envelope(e@) == record@ && envelope_well_formed(e@)
            && envelope_fits(e@) && e.event_id@ == event_id@ && e.delivery_mode
            == DeliveryMode::Durable,
        res matches Err(EventJournalError::Failure(m)) ==> journal_row_refused_as(
            m@,
            sequence,
            event_id@,
            record@,
            record_hash@,
        ),
{
    if sequence <= 0 {
        return Err(
            EventJournalError::Failure(
                String::from_str("JournalReplayFailed: invalid journal sequence"),
            ),
        );
    }
    let expected_hash = sha256_digest(record);
    if !bytes_equal(record_hash, expected_hash.as_slice()) {
        return Err(
            EventJournalError::Failure(
                message_with_number(
                    "JournalReplayFailed: hash mismatch at sequence ",
                    sequence as u64,
                    "",
                ),
            ),
        );
    }
    let event = match decode_event(record) {
        Ok(event) => event,
        Err(message) => {
            let mut m = String::from_str("JournalReplayFailed: ");
            proof {
                assert(m@.subrange(0, m@.len() as int) =~= m@);
            }
            let ghost start = m@;
            m.append(message.as_str());
            proof {
                assert(m@.subrange(0, start.len() as int) =~= start);
                if holds_event(record@) {
                    let e = choose|e: EnvelopeView|
                        envelope_well_formed(e) && envelope_fits(e) && #[trigger] enc_envelope(e)
                            == record@;
                    assert(enc_envelope(e) == record@);
                }
                if journal_row_replays(sequence, event_id@, record@, record_hash@) {
                    let e = choose|e: EnvelopeView|
                        envelope_well_formed(e) && envelope_fits(e) && #[trigger] enc_envelope(e)
                            == record@ && e.event_id == event_id@ && e.delivery_mode
                            == DeliveryMode::Durable;
                    assert(envelope_well_formed(e) && envelope_fits(e) && enc_envelope(e)
                        == record@);
                }
            }
            return Err(EventJournalError::Failure(m));
        },
    };
    proof {
        assert(holds_event(record@));
        law_event_encoding_injective(stored_event(record@), event@);
        if journal_row_replays(sequence, event_id@, record@, record_hash@) {
            let e = choose|e: EnvelopeView|
                envelope_well_formed(e) && envelope_fits(e) && #[trigger] enc_envelope(e)
                    == record@ && e.event_id == event_id@ && e.delivery_mode
                    == DeliveryMode::Durable;
            law_event_encoding_injective(e, event@);
        }
    }
    if !text_eq(event.event_id.as_str(), event_id) || event.delivery_mode != DeliveryMode::Durable {
        return Err(
            EventJournalError::Failure(
                message_with_number(
                    "JournalReplayFailed: envelope identity or delivery mode mismatch at sequence ",
                    sequence as u64,
                    "",
                ),
            ),
        );
    }
    Ok(event)
}

/// The journal gives back what it was given: the row written for a durable,
/// well-formed event whose fields fit passes replay at any positive
/// sequence, and replay yields that same event.
pub proof fn law_journal_replays_appended_event(e: EnvelopeView, sequence: i64)
    requires
        envelope_well_formed(e),
        envelope_fits(e),
        e.delivery_mode == DeliveryMode::Durable,
        sequence > 0,
    ensures
        journal_row_replays(sequence, e.event_id, journal_record(e).0, journal_record(e).1),
        forall|r: EnvelopeView|
            envelope_fits(r) && #[trigger] enc_envelope(r) == journal_record(e).0 ==> r == e,
{
    assert forall|r: EnvelopeView|
        envelope_fits(r) && #[trigger] enc_envelope(r) == journal_record(e).0 implies r == e by {
        law_event_encoding_injective(r, e);
    }
}

/// The outbox columns as read from one row: id, installation, event id,
/// status, attempt count, creation sequence, creation time and the stored
/// event.
pub type OutboxColumns = (String, String, String, String, i64, i64, i64, Vec<u8>);

/// Whether an outbox row reads back as a record.
pub open spec fn outbox_columns_valid(c: OutboxColumns) -> bool {
    outbox_row_valid(outbox_row_view(c))
}

/// Whether stored bytes hold an event: the stored bytes of a well-formed
/// event whose fields fit.
pub open spec fn holds_event(record: Seq<u8>) -> bool {
    exists|e: EnvelopeView|
        envelope_well_formed(e) && envelope_fits(e) && #[trigger] enc_envelope(e) == record
}

/// The event stored bytes hold, where they hold one.
pub open spec fn stored_event(record: Seq<u8>) -> EnvelopeView {
    choose|e: EnvelopeView|
        envelope_well_formed(e) && envelope_fits(e) && #[trigger] enc_envelope(e) == record
}

/// The refusal of an outbox row that does not read back: the first failed
/// check, in the order the row is read, decides it. Bytes that hold no
/// event are refused with a message that names the outbox and goes on with
/// what the event decoder reports.
pub open spec fn outbox_row_refused_as(e: PersistenceError, v: OutboxRowView) -> bool {
    let prefix = "outbox '"@ + v.outbox_id;
    if !holds_event(v.record) {
        e matches PersistenceError::OutboxRecordCorrupt { message } && begins_with(
            message@,
            prefix + "' event: "@,
        )
    } else if stored_event(v.record).event_id != v.event_id {
        e matches PersistenceError::OutboxRecordCorrupt { message } && message@ == prefix
            + "' column event id '"@ + v.event_id + "' does not match envelope '"@ + stored_event(
            v.record,
        ).event_id + "'"@
    } else if stored_event(v.record).delivery_mode != DeliveryMode::Durable {
        e matches PersistenceError::OutboxRecordCorrupt { message } && message@ == prefix
            + "' contains a non-durable event"@
    } else if !(exists|s: OutboxStatus| #[trigger] outbox_status_name(s) == v.status) {
        e matches PersistenceError::OutboxRecordCorrupt { message } && message@
            == "unknown outbox status '"@ + v.status + "'"@
    } else if v.attempt_count < 0 {
        e matches PersistenceError::OutboxRecordCorrupt { message } && message@
            == "outbox attempt count"@ + " contains negative value "@ + signed_decimal(
            v.attempt_count as int,
        )
    } else if v.attempt_count > u32::MAX {
        e matches PersistenceError::OutboxRecordCorrupt { message } && message@ == prefix
            + "' attempt count exceeds u32"@
    } else if v.created_sequence < 0 {
        e matches PersistenceError::OutboxRecordCorrupt { message } && message@
            == "outbox sequence"@ + " contains negative value "@ + signed_decimal(
            v.created_sequence as int,
        )
    } else if v.created_at_millis < 0 {
        e matches PersistenceError::OutboxRecordCorrupt { message } && message@
            == "outbox timestamp"@ + " contains negative value "@ + signed_decimal(
            v.created_at_millis as int,
        )
    } else {
        false
    }
}

/// Reads an outbox row back into a record: the stored event must decode,
/// carry the row's event id and be durable, the status must be a known
/// name, and the counters must be non-negative. Every refusal reports the
/// record as corrupt.
#[verifier::rlimit(30)]
pub fn decode_outbox_columns(columns: OutboxColumns) -> (res: Result<OutboxRecord, PersistenceError>)
    ensures
        res is Ok <==> outbox_columns_valid(columns),
        res matches Ok(r) ==> r.outbox_id@ == columns.0@ && r.installation@ == columns.1@
            && enc_envelope(r.event@) == columns.7@ && envelope_well_formed(r.event@)
            && envelope_fits(r.event@) && r.event.event_id@ == columns.2@ && r.event.delivery_mode
            == DeliveryMode::Durable && outbox_status_name(r.status) == columns.3@
            && r.attempt_count == columns.4 && r.created_sequence == columns.5
            && r.created_at_millis == columns.6,
        res matches Err(e) ==> outbox_row_refused_as(e, outbox_row_view(columns)),
{
    let ghost v = outbox_row_view(columns);
    let (
        outbox_id,
        installation,
        event_id,
        status,
        attempt_count,
        created_sequence,
        created_at_millis,
        encoded_event,
    ) = columns;
    let event = match decode_event(encoded_event.as_slice()) {
        Ok(event) => event,
        Err(message) => {
            let mut m = String::from_str("outbox '");
            m.append(outbox_id.as_str());
            m.append("' event: ");
            proof {
                let prefix = "outbox '"@ + v.outbox_id + "' event: "@;
                assert(m@.subrange(0, prefix.len() as int) =~= prefix);
            }
            m.append(message.as_str());
            proof {
                let prefix = "outbox '"@ + v.outbox_id + "' event: "@;
                assert(m@.subrange(0, prefix.len() as int) =~= prefix);
                if holds_event(encoded_event@) {
                    let e = choose|e: EnvelopeView|
                        envelope_well_formed(e) && envelope_fits(e) && #[trigger] enc_envelope(e)
                            == encoded_event@;
                    assert(enc_envelope(e) == encoded_event@);
                }
                if outbox_columns_valid(columns) {
                    let e = choose|e: EnvelopeView|
                        envelope_well_formed(e) && envelope_fits(e) && #[trigger] enc_envelope(e)
                            == columns.7@ && e.event_id == columns.2@ && e.delivery_mode
                            == DeliveryMode::Durable;
                    assert(enc_envelope(e) == encoded_event@);
                }
            }
            return Err(PersistenceError::OutboxRecordCorrupt { message: m });
        },
    };
    proof {
        assert(holds_event(encoded_event@));
        law_event_encoding_injective(stored_event(encoded_event@), event@);
        if outbox_columns_valid(columns) {
            let e = choose|e: EnvelopeView|
                envelope_well_formed(e) && envelope_fits(e) && #[trigger] enc_envelope(e)
                    == columns.7@ && e.event_id == columns.2@ && e.delivery_mode
                    == DeliveryMode::Durable;
            law_event_encoding_injective(e, event@);
        }
    }
    if !text_eq(event.event_id.as_str(), event_id.as_str()) {
        let mut m = String::from_str("outbox '");
        m.append(outbox_id.as_str());
        m.append("' column event id '");
        m.append(event_id.as_str());
        m.append("' does not match envelope '");
        m.append(event.event_id.as_str());
        m.append("'");
        return Err(PersistenceError::OutboxRecordCorrupt { message: m });
    }
    if event.delivery_mode != DeliveryMode::Durable {
        let mut m = String::from_str("outbox '");
        m.append(outbox_id.as_str());
        m.append("' contains a non-durable event");
        return Err(PersistenceError::OutboxRecordCorrupt { message: m });
    }
    let status = outbox_status_from_string(status.as_str())?;
    let attempts = unsigned_persistence(attempt_count, "outbox attempt count")?;
    if attempts > 0xffff_ffff {
        let mut m = String::from_str("outbox '");
        m.append(outbox_id.as_str());
        m.append("' attempt count exceeds u32");
        return Err(PersistenceError::OutboxRecordCorrupt { message: m });
    }
    let created_sequence = unsigned_persistence(created_sequence, "outbox sequence")?;
    let created_at_millis = unsigned_persistence(created_at_millis, "outbox timestamp")?;
    Ok(
        OutboxRecord {
            outbox_id,
            installation,
            event,
            status,
            attempt_count: attempts as u32,
            created_sequence,
            created_at_millis,
        },
    )
}

/// A journal read cursor as a stored sequence number.
pub fn journal_cursor(position: u64) -> (res: Result<i64, EventJournalError>)
    ensures
        position <= i64::MAX ==> res == Ok::<i64, EventJournalError>(position as i64),
        position > i64::MAX ==> (res matches Err(EventJournalError::Failure(m)) && m@
            == "JournalAppendFailed: JournalCursorInvalid: cursor exceeds SQLite integer range"@),
{
    if position > 0x7fff_ffff_ffff_ffff {
        return Err(
            EventJournalError::Failure(
                String::from_str(
                    "JournalAppendFailed: JournalCursorInvalid: cursor exceeds SQLite integer range",
                ),
            ),
        );
    }
    Ok(position as i64)
}

/// The registration record of one installation.
#[derive(Clone, Debug, PartialEq, Eq)]
pub struct InstallationRecord {
    pub installation: String,
    pub plugin: String,
    pub schema_version: u64,
    pub status: InstallationStatus,
    pub revision: u64,
    pub runtime_generation: u64,
}

/// The columns of an installation row: identity, plugin, schema version,
/// status, revision, runtime generation.
pub type RecordColumns = (String, String, i64, String, i64, i64);

/// Whether an installation row reads back: a known status and no negative
/// number.
pub open spec fn record_columns_valid(c: RecordColumns) -> bool {
    &&& exists|s: InstallationStatus| #[trigger] installation_status_name(s) == c.3@
    &&& c.2 >= 0
    &&& c.4 >= 0
    &&& c.5 >= 0
}

/// Reads an installation row back into its record; an unknown status or a
/// negative number is corrupt storage.
pub fn record_from_columns(columns: RecordColumns) -> (res: Result<InstallationRecord, StateError>)
    ensures
        res is Ok <==> record_columns_valid(columns),
        res matches Ok(r) ==> r.installation@ == columns.0@ && r.plugin@ == columns.1@
            && r.schema_version == columns.2 && installation_status_name(r.status) == columns.3@
            && r.revision == columns.4 && r.runtime_generation == columns.5,
        res matches Err(e) ==> (e matches StateError::Persistence(
            PersistenceError::StorageCorrupt { message },
        ) && message@ == if !(exists|s: InstallationStatus| #[trigger] installation_status_name(s)
            == columns.3@) {
            "unknown installation status '"@ + columns.3@ + "'"@
        } else if columns.2 < 0 {
            "schema version"@ + " contains negative value "@ + signed_decimal(columns.2 as int)
        } else if columns.4 < 0 {
            "revision"@ + " contains negative value "@ + signed_decimal(columns.4 as int)
        } else {
            "runtime generation"@ + " contains negative value "@ + signed_decimal(columns.5 as int)
        }),
{
    let (installation, plugin, schema, status, revision, runtime_generation) = columns;
    let status = match installation_status_from_string(status.as_str()) {
        Ok(status) => status,
        Err(e) => {
            return Err(StateError::Persistence(e));
        },
    };
    assert(installation_status_name(status) == columns.3@);
    let schema_version = match unsigned_integer(schema, "schema version") {
        Ok(v) => v,
        Err(e) => {
            return Err(e);
        },
    };
    let revision = match unsigned_integer(revision, "revision") {
        Ok(v) => v,
        Err(e) => {
            return Err(e);
        },
    };
    let runtime_generation = match unsigned_integer(runtime_generation, "runtime generation") {
        Ok(v) => v,
        Err(e) => {
            return Err(e);
        },
    };
    Ok(InstallationRecord { installation, plugin, schema_version, status, revision, runtime_generation })
}

/// The message when an outbox names an installation that does not exist.
pub open spec fn missing_installation_text(installation: Seq<char>) -> Seq<char> {
    "installation '"@ + installation + "' does not exist"@
}

/// The message when an outbox identity is already taken.
pub open spec fn duplicate_outbox_text(outbox_id: Seq<char>) -> Seq<char> {
    "outbox '"@ + outbox_id + "' already exists"@
}

/// The checks an outbox append makes inside its transaction: the record's
/// installation must exist and its identity must be new.
pub fn admit_outbox_append(record: &OutboxRecord, installation_exists: bool, already_exists: bool) -> (res:
    Result<(), PersistenceError>)
    ensures
        !installation_exists ==> (res matches Err(PersistenceError::OutboxAppendFailed { message })
            && message@ == missing_installation_text(record.installation@)),
        installation_exists && already_exists ==> (res matches Err(
            PersistenceError::OutboxAppendFailed { message },
        ) && message@ == duplicate_outbox_text(record.outbox_id@)),
        installation_exists && !already_exists ==> res is Ok,
{
    if !installation_exists {
        let mut message = String::from_str("installation '");
        message.append(record.installation.as_str());
        message.append("' does not exist");
        return Err(PersistenceError::OutboxAppendFailed { message });
    }
    if already_exists {
        let mut message = String::from_str("outbox '");
        message.append(record.outbox_id.as_str());
        message.append("' already exists");
        return Err(PersistenceError::OutboxAppendFailed { message });
    }
    Ok(())
}

/// The row limit of a pending-outbox listing: `None` when nothing is to be
/// listed, the limit as a SQLite integer otherwise.
pub fn outbox_listing_limit(limit: usize) -> (res: Result<Option<i64>, PersistenceError>)
    ensures
        limit == 0 ==> res == Ok::<Option<i64>, PersistenceError>(None),
        0 < limit <= i64::MAX ==> res == Ok::<Option<i64>, PersistenceError>(Some(limit as i64)),
        limit > i64::MAX ==> (res matches Err(PersistenceError::OutboxDeliveryFailed { message })
            && message@ == "outbox listing limit exceeds SQLite integer range"@),
{
    if limit == 0 {
        return Ok(None);
    }
    if limit as u64 > 0x7fff_ffff_ffff_ffff {
        return Err(PersistenceError::OutboxDeliveryFailed {
            message: String::from_str("outbox listing limit exceeds SQLite integer range"),
        });
    }
    Ok(Some(limit as i64))
}

/// The row limit of an audit listing: `None` when nothing is to be listed,
/// the limit as a SQLite integer otherwise.
pub fn audit_listing_limit(limit: usize) -> (res: Result<Option<i64>, PersistenceError>)
    ensures
        limit == 0 ==> res == Ok::<Option<i64>, PersistenceError>(None),
        0 < limit <= i64::MAX ==> res == Ok::<Option<i64>, PersistenceError>(Some(limit as i64)),
        limit > i64::MAX ==> (res matches Err(
            PersistenceError::StorageIoFailure { operation, message },
        ) && operation@ == "audit list"@ && message@
            == "audit listing limit exceeds SQLite integer range"@),
{
    if limit == 0 {
        return Ok(None);
    }
    if limit as u64 > 0x7fff_ffff_ffff_ffff {
        return Err(PersistenceError::StorageIoFailure {
            operation: String::from_str("audit list"),
            message: String::from_str("audit listing limit exceeds SQLite integer range"),
        });
    }
    Ok(Some(limit as i64))
}

/// The database file of a profile.
pub const DATABASE_FILE: &'static str = "worldline.sqlite3";

/// The name of the temporary file a backup is written to before it is
/// published under `file_name`, the destination's own file name (the
/// default name stands in where the destination has none): hidden, unique
/// per process and sequence.
pub fn backup_temporary_name(file_name: Option<&str>, process_id: u32, sequence: u64) -> (s:
    String)
    ensures
        s@ == "."@ + (match file_name {
            Some(n) => n@,
            None => "worldline-backup"@,
        }) + "."@ + decimal(process_id as nat) + "."@ + decimal(sequence as nat) + ".tmp"@,
{
    let mut s = String::from_str(".");
    match file_name {
        Some(n) => s.append(n),
        None => s.append("worldline-backup"),
    }
    s.append(".");
    push_decimal(&mut s, process_id as u64);
    s.append(".");
    push_decimal(&mut s, sequence);
    s.append(".tmp");
    s
}

/// The name of the temporary file a restored database is copied to before
/// it replaces the profile's database: hidden, unique per sequence.
pub fn restore_temporary_name(sequence: u64) -> (s: String)
    ensures
        s@ == "."@ + DATABASE_FILE@ + "."@ + decimal(sequence as nat) + ".restore.tmp"@,
{
    let mut s = String::from_str(".");
    s.append(DATABASE_FILE);
    s.append(".");
    push_decimal(&mut s, sequence);
    s.append(".restore.tmp");
    s
}

/// The journal mode the store runs SQLite in.
pub const JOURNAL_MODE: &'static str = "WAL";

/// Whether `found` names the write-ahead-log journal mode, in any letter
/// case.
pub open spec fn is_wal(found: Seq<char>) -> bool {
    &&& found.len() == 3
    &&& (found[0] == 'W' || found[0] == 'w')
    &&& (found[1] == 'A' || found[1] == 'a')
    &&& (found[2] == 'L' || found[2] == 'l')
}

/// Confirms the journal mode SQLite reports after the store asked for WAL.
pub fn journal_mode_check(found: &str) -> (res: Result<(), PersistenceError>)
    ensures
        res is Ok <==> is_wal(found@),
        res is Err ==> (res matches Err(PersistenceError::StorageOpenFailed { message }) && message@
            == "SQLite requested journal mode 'WAL', got '"@ + found@ + "'"@),
{
    let chars = chars_of(found);
    let ok = chars.len() == 3 && (chars[0] == 'W' || chars[0] == 'w') && (chars[1] == 'A'
        || chars[1] == 'a') && (chars[2] == 'L' || chars[2] == 'l');
    if !ok {
        let mut message = String::from_str("SQLite requested journal mode 'WAL', got '");
        message.append(found);
        message.append("'");
        return Err(PersistenceError::StorageOpenFailed { message });
    }
    Ok(())
}

/// Whether the outbox table already has its diagnostic failure column;
/// profiles created without it get it added.
pub fn has_failure_message_column(columns: &Vec<String>) -> (b: bool)
    ensures
        b <==> exists|i: int| 0 <= i < columns@.len() && #[trigger] columns@[i]@ == "failure_message"@,
{
    let mut i: usize = 0;
    while i < columns.len()
        invariant
            i <= columns@.len(),
            forall|j: int| 0 <= j < i ==> (#[trigger] columns@[j])@ != "failure_message"@,
        decreases columns.len() - i,
    {
        if text_eq(columns[i].as_str(), "failure_message") {
            return true;
        }
        i += 1;
    }
    false
}

/// The check of an installation's creation: its identity must be new.
pub fn admit_installation_creation(installation: &str, exists: bool) -> (res: Result<(), StateError>)
    ensures
        !exists ==> res is Ok,
        exists ==> (res matches Err(StateError::InstallationAlreadyExists { installation: i })
            && i@ == installation@),
{
    if exists {
        return Err(StateError::InstallationAlreadyExists { installation: String::from_str(installation) });
    }
    Ok(())
}

/// The check of an installation's deletion, given how many installation
/// rows the deletion removed: exactly one, or the installation is unknown.
pub fn admit_installation_deletion(installation: &str, deleted_rows: usize) -> (res: Result<
    (),
    StateError,
>)
    ensures
        deleted_rows == 1 ==> res is Ok,
        deleted_rows != 1 ==> (res matches Err(StateError::UnknownInstallation { installation: i })
            && i@ == installation@),
{
    if deleted_rows != 1 {
        return Err(StateError::UnknownInstallation { installation: String::from_str(installation) });
    }
    Ok(())
}

/// The stored revision of an installation, read in a transaction: an
/// absent row is an unknown installation, a negative one corrupt storage.
pub fn current_revision_from(installation: &str, stored: Option<i64>) -> (res: Result<u64, StateError>)
    ensures
        stored is None ==> (res matches Err(StateError::UnknownInstallation { installation: i })
            && i@ == installation@),
        stored matches Some(v) ==> (v >= 0 ==> res == Ok::<u64, StateError>(v as u64)),
        stored matches Some(v) ==> (v < 0 ==> (res matches Err(
            StateError::Persistence(PersistenceError::StorageCorrupt { message }),
        ) && message@ == "stored revision"@ + " contains negative value "@ + signed_decimal(v as int))),
{
    match stored {
        None => Err(StateError::UnknownInstallation { installation: String::from_str(installation) }),
        Some(v) => unsigned_integer(v, "stored revision"),
    }
}

/// An outbox record as plain values.
pub struct OutboxView {
    pub outbox_id: Seq<char>,
    pub installation: Seq<char>,
    pub event: EnvelopeView,
    pub status: OutboxStatus,
    pub attempt_count: u32,
    pub created_sequence: u64,
    pub created_at_millis: u64,
}

impl View for OutboxRecord {
    type V = OutboxView;

    open spec fn view(&self) -> OutboxView {
        OutboxView {
            outbox_id: self.outbox_id@,
            installation: self.installation@,
            event: self.event@,
            status: self.status,
            attempt_count: self.attempt_count,
            created_sequence: self.created_sequence,
            created_at_millis: self.created_at_millis,
        }
    }
}

/// An outbox row as plain values.
pub struct OutboxRowView {
    pub outbox_id: Seq<char>,
    pub installation: Seq<char>,
    pub event_id: Seq<char>,
    pub status: Seq<char>,
    pub attempt_count: i64,
    pub created_sequence: i64,
    pub created_at_millis: i64,
    pub record: Seq<u8>,
}

/// The plain values of outbox columns.
pub open spec fn outbox_row_view(c: OutboxColumns) -> OutboxRowView {
    OutboxRowView {
        outbox_id: c.0@,
        installation: c.1@,
        event_id: c.2@,
        status: c.3@,
        attempt_count: c.4,
        created_sequence: c.5,
        created_at_millis: c.6,
        record: c.7@,
    }
}

/// The row an outbox record is written as.
pub open spec fn row_of_outbox(o: OutboxView) -> OutboxRowView {
    OutboxRowView {
        outbox_id: o.outbox_id,
        installation: o.installation,
        event_id: o.event.event_id,
        status: outbox_status_name(o.status),
        attempt_count: o.attempt_count as i64,
        created_sequence: o.created_sequence as i64,
        created_at_millis: o.created_at_millis as i64,
        record: enc_envelope(o.event),
    }
}

/// The row an outbox record is written as; refused when its event does
/// not fit the record limits or a number does not fit a SQLite integer.
pub fn outbox_row(record: &OutboxRecord) -> (res: Result<OutboxColumns, StateError>)
    ensures
        res is Ok <==> envelope_fits(record.event@) && record.created_sequence <= i64::MAX
            && record.created_at_millis <= i64::MAX,
        res matches Ok(c) ==> outbox_row_view(c) == row_of_outbox(record@),
        !envelope_fits(record.event@) ==> (res matches Err(
            StateError::Persistence(PersistenceError::OutboxRecordCorrupt { .. }),
        )),
{
    let encoded = match encode_event(&record.event) {
        Ok(bytes) => bytes,
        Err(message) => {
            return Err(StateError::Persistence(PersistenceError::OutboxRecordCorrupt { message }));
        },
    };
    let attempt = integer(record.attempt_count as u64, "outbox attempt count")?;
    let sequence = integer(record.created_sequence, "outbox sequence")?;
    let at = integer(record.created_at_millis, "outbox timestamp")?;
    Ok(
        (
            record.outbox_id.clone(),
            record.installation.clone(),
            record.event.event_id.clone(),
            String::from_str(outbox_status_str(record.status)),
            attempt,
            sequence,
            at,
            encoded,
        ),
    )
}

/// An outbox record with a well-formed durable event that fits the record
/// limits, and numbers that fit SQLite integers, reads back from its row:
/// the row is valid, and the only event that fits and is stored as its
/// bytes is the record's own.
pub proof fn law_outbox_row_reads_back(o: OutboxView)
    requires
        envelope_well_formed(o.event),
        envelope_fits(o.event),
        o.event.delivery_mode == DeliveryMode::Durable,
        o.created_sequence <= i64::MAX,
        o.created_at_millis <= i64::MAX,
    ensures
        outbox_row_valid(row_of_outbox(o)),
        forall|e: EnvelopeView|
            envelope_fits(e) && #[trigger] enc_envelope(e) == row_of_outbox(o).record ==> e
                == o.event,
{
    assert(outbox_status_name(o.status) == row_of_outbox(o).status);
    assert forall|e: EnvelopeView|
        envelope_fits(e) && #[trigger] enc_envelope(e) == row_of_outbox(o).record implies e
            == o.event by {
        law_event_encoding_injective(e, o.event);
    }
}

/// Whether an outbox row reads back as a record.
pub open spec fn outbox_row_valid(v: OutboxRowView) -> bool {
    &&& exists|e: EnvelopeView|
        envelope_well_formed(e) && envelope_fits(e) && #[trigger] enc_envelope(e) == v.record
            && e.event_id == v.event_id && e.delivery_mode == DeliveryMode::Durable
    &&& exists|s: OutboxStatus| #[trigger] outbox_status_name(s) == v.status
    &&& 0 <= v.attempt_count <= u32::MAX
    &&& v.created_sequence >= 0
    &&& v.created_at_millis >= 0
}

} // verus!
