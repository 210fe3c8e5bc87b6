//! How storage failures are classified: a SQLite failure, read as plain
//! values, becomes the typed error of the store that met it.
use vstd::prelude::*;

use crate::errors::{EventJournalError, PersistenceError, StateError};
use crate::text::{decimal, push_decimal};

verus! {

/// The type of a stored value that failed to convert.
#[derive(Clone, Copy, Debug, PartialEq, Eq, Structural)]
pub enum ColumnType {
    Null,
    Integer,
    Real,
    Text,
    Blob,
}

/// A failure reported by SQLite, as the store reads it.
#[derive(Clone, Debug, PartialEq, Eq)]
pub enum SqliteFault {
    /// The engine failed. `busy` is whether the database was busy or
    /// locked; `failure` is the engine failure's own text and `text` the
    /// text of the whole error.
    Engine { busy: bool, failure: String, text: String },
    /// A stored value of type `column_type` could not be converted;
    /// `source` is the conversion's own text and `text` the whole error's.
    Conversion { column_type: ColumnType, source: String, text: String },
    /// Any other failure, with its text.
    Other { text: String },
}

/// The text of the whole error.
pub open spec fn fault_text(f: SqliteFault) -> Seq<char> {
    match f {
        SqliteFault::Engine { text, .. } => text@,
        SqliteFault::Conversion { text, .. } => text@,
        SqliteFault::Other { text } => text@,
    }
}

fn joined(a: &str, sep: &str, b: &str) -> (s: String)
    ensures
        s@ == a@ + sep@ + b@,
{
    let mut s = String::from_str(a);
    s.append(sep);
    s.append(b);
    s
}

fn concat(a: &str, b: &str) -> (s: String)
    ensures
        s@ == a@ + b@,
{
    let mut s = String::from_str(a);
    s.append(b);
    s
}

fn whole_text(f: &SqliteFault) -> (t: &str)
    ensures
        t@ == fault_text(*f),
{
    match f {
        SqliteFault::Engine { text, .. } => text.as_str(),
        SqliteFault::Conversion { text, .. } => text.as_str(),
        SqliteFault::Other { text } => text.as_str(),
    }
}

/// A failure of the state backend: busy or locked is `StorageBusy`, an
/// unconvertible stored blob is corrupt storage, anything else an I/O
/// failure of `operation`.
pub fn map_sqlite_error(operation: &str, fault: &SqliteFault) -> (e: StateError)
    ensures
        match *fault {
            SqliteFault::Engine { busy: true, text, .. } => e == StateError::Persistence(
                PersistenceError::StorageBusy { message: text },
            ),
            SqliteFault::Conversion { column_type: ColumnType::Blob, source, .. } => (e matches StateError::Persistence(
                PersistenceError::StorageCorrupt { message },
            ) && message@ == operation@ + ": "@ + source@),
            _ => (e matches StateError::Persistence(
                PersistenceError::StorageIoFailure { operation: o, message },
            ) && o@ == operation@ && message@ == fault_text(*fault)),
        },
{
    let persistence = match fault {
        SqliteFault::Engine { busy: true, text, .. } => PersistenceError::StorageBusy { message: text.clone() },
        SqliteFault::Conversion { column_type: ColumnType::Blob, source, .. } => PersistenceError::StorageCorrupt {
            message: joined(operation, ": ", source.as_str()),
        },
        _ => PersistenceError::StorageIoFailure {
            operation: String::from_str(operation),
            message: String::from_str(whole_text(fault)),
        },
    };
    StateError::Persistence(persistence)
}

/// A failure of the outbox store: busy or locked is `StorageBusy`, an
/// unconvertible stored blob a corrupt outbox record, anything else an
/// append failure of `operation`.
pub fn outbox_sqlite_error(operation: &str, fault: &SqliteFault) -> (e: PersistenceError)
    ensures
        match *fault {
            SqliteFault::Engine { busy: true, .. } => (e matches PersistenceError::StorageBusy { message }
                && message@ == operation@ + ": database is busy"@),
            SqliteFault::Engine { busy: false, failure, .. } => (e matches PersistenceError::OutboxAppendFailed { message }
                && message@ == operation@ + ": "@ + failure@),
            SqliteFault::Conversion { column_type: ColumnType::Blob, source, .. } => (e matches PersistenceError::OutboxRecordCorrupt { message }
                && message@ == operation@ + ": "@ + source@),
            _ => (e matches PersistenceError::OutboxAppendFailed { message } && message@ == operation@
                + ": "@ + fault_text(*fault)),
        },
{
    match fault {
        SqliteFault::Engine { busy: true, .. } => PersistenceError::StorageBusy {
            message: concat(operation, ": database is busy"),
        },
        SqliteFault::Engine { busy: false, failure, .. } => PersistenceError::OutboxAppendFailed {
            message: joined(operation, ": ", failure.as_str()),
        },
        SqliteFault::Conversion { column_type: ColumnType::Blob, source, .. } => PersistenceError::OutboxRecordCorrupt {
            message: joined(operation, ": ", source.as_str()),
        },
        _ => PersistenceError::OutboxAppendFailed { message: joined(operation, ": ", whole_text(fault)) },
    }
}

/// A failure of the audit store outside SQLite.
pub fn audit_store_error(operation: &str, message: &str) -> (e: PersistenceError)
    ensures
        e matches PersistenceError::StorageIoFailure { operation: o, message: m } && o@ == "audit "@
            + operation@ && m@ == message@,
{
    PersistenceError::StorageIoFailure {
        operation: concat("audit ", operation),
        message: String::from_str(message),
    }
}

/// A failure of the audit store: busy or locked is `StorageBusy`, an
/// unconvertible stored blob corrupt storage, anything else an audit I/O
/// failure.
pub fn audit_store_sqlite_error(operation: &str, fault: &SqliteFault) -> (e: PersistenceError)
    ensures
        match *fault {
            SqliteFault::Engine { busy: true, .. } => (e matches PersistenceError::StorageBusy { message }
                && message@ == "audit "@ + operation@ + ": database is busy"@),
            SqliteFault::Engine { busy: false, failure, .. } => (e matches PersistenceError::StorageIoFailure { operation: o, message }
                && o@ == "audit "@ + operation@ && message@ == failure@),
            SqliteFault::Conversion { column_type: ColumnType::Blob, source, .. } => (e matches PersistenceError::StorageCorrupt { message }
                && message@ == "audit "@ + operation@ + ": "@ + source@),
            _ => (e matches PersistenceError::StorageIoFailure { operation: o, message } && o@
                == "audit "@ + operation@ && message@ == fault_text(*fault)),
        },
{
    match fault {
        SqliteFault::Engine { busy: true, .. } => {
            let mut message = concat("audit ", operation);
            message.append(": database is busy");
            PersistenceError::StorageBusy { message }
        },
        SqliteFault::Engine { busy: false, failure, .. } => audit_store_error(operation, failure.as_str()),
        SqliteFault::Conversion { column_type: ColumnType::Blob, source, .. } => {
            let mut message = concat("audit ", operation);
            message.append(": ");
            message.append(source.as_str());
            PersistenceError::StorageCorrupt { message }
        },
        _ => audit_store_error(operation, whole_text(fault)),
    }
}

/// A failure of the job store outside SQLite.
pub fn job_store_error(operation: &str, message: &str) -> (e: PersistenceError)
    ensures
        e matches PersistenceError::JobStoreFailure { message: m } && m@ == operation@ + ": "@
            + message@,
{
    PersistenceError::JobStoreFailure { message: joined(operation, ": ", message) }
}

/// A failure of the job store: busy or locked is `StorageBusy`, an
/// unconvertible stored integer corrupt storage, anything else a job store
/// failure.
pub fn job_store_sqlite_error(operation: &str, fault: &SqliteFault) -> (e: PersistenceError)
    ensures
        match *fault {
            SqliteFault::Engine { busy: true, .. } => (e matches PersistenceError::StorageBusy { message }
                && message@ == "job "@ + operation@ + ": database is busy"@),
            SqliteFault::Engine { busy: false, failure, .. } => (e matches PersistenceError::JobStoreFailure { message }
                && message@ == operation@ + ": "@ + failure@),
            SqliteFault::Conversion { column_type: ColumnType::Integer, source, .. } => (e matches PersistenceError::StorageCorrupt { message }
                && message@ == "job "@ + operation@ + ": "@ + source@),
            _ => (e matches PersistenceError::JobStoreFailure { message } && message@ == operation@
                + ": "@ + fault_text(*fault)),
        },
{
    match fault {
        SqliteFault::Engine { busy: true, .. } => {
            let mut message = concat("job ", operation);
            message.append(": database is busy");
            PersistenceError::StorageBusy { message }
        },
        SqliteFault::Engine { busy: false, failure, .. } => job_store_error(operation, failure.as_str()),
        SqliteFault::Conversion { column_type: ColumnType::Integer, source, .. } => {
            let mut message = concat("job ", operation);
            message.append(": ");
            message.append(source.as_str());
            PersistenceError::StorageCorrupt { message }
        },
        _ => job_store_error(operation, whole_text(fault)),
    }
}

/// A failure to open storage.
pub fn open_error(operation: &str, fault: &SqliteFault) -> (e: PersistenceError)
    ensures
        e matches PersistenceError::StorageOpenFailed { message } && message@ == operation@ + ": "@
            + fault_text(*fault),
{
    PersistenceError::StorageOpenFailed { message: joined(operation, ": ", whole_text(fault)) }
}

/// A failure while appending to the event journal.
pub fn journal_append_sqlite_error(operation: &str, fault: &SqliteFault) -> (e: EventJournalError)
    ensures
        e matches EventJournalError::Failure(m) && m@ == "JournalAppendFailed: "@ + operation@
            + ": "@ + fault_text(*fault),
{
    let mut m = String::from_str("JournalAppendFailed: ");
    m.append(operation);
    m.append(": ");
    m.append(whole_text(fault));
    EventJournalError::Failure(m)
}

/// A failure while replaying the event journal.
pub fn journal_replay_sqlite_error(operation: &str, fault: &SqliteFault) -> (e: EventJournalError)
    ensures
        e matches EventJournalError::Failure(m) && m@ == "JournalReplayFailed: "@ + operation@
            + ": "@ + fault_text(*fault),
{
    let mut m = String::from_str("JournalReplayFailed: ");
    m.append(operation);
    m.append(": ");
    m.append(whole_text(fault));
    EventJournalError::Failure(m)
}

/// The text of a state failure that is not itself a persistence failure.
pub open spec fn state_error_text(e: StateError) -> Seq<char> {
    match e {
        StateError::InstallationAlreadyExists { installation } => "installation '"@ + installation@
            + "' already exists"@,
        StateError::UnknownInstallation { installation } => "unknown installation '"@ + installation@
            + "'"@,
        StateError::BackendFailure { operation, message } => "state backend failed during "@
            + operation@ + ": "@ + message@,
        StateError::TransactionConflict {
            installation,
            transaction,
            expected_revision,
            actual_revision,
        } => "transaction '"@ + transaction@ + "' on installation '"@ + installation@
            + "' expected revision "@ + decimal(expected_revision as nat) + " but found "@
            + decimal(actual_revision as nat),
        StateError::RevisionConflict { installation, expected_revision, actual_revision } =>
            "installation '"@ + installation@ + "' expected revision "@ + decimal(
            expected_revision as nat) + " but found "@ + decimal(actual_revision as nat),
        StateError::Persistence(_) => "persistence failure"@,
    }
}

/// A state failure met while appending to the outbox, as a persistence
/// failure: a persistence failure stays what it is, anything else becomes
/// `OutboxAppendFailed` with the failure's text.
pub fn state_error_to_persistence(error: StateError) -> (e: PersistenceError)
    ensures
        error matches StateError::Persistence(p) ==> e == p,
        !(error is Persistence) ==> (e matches PersistenceError::OutboxAppendFailed { message }
            && message@ == state_error_text(error)),
{
    match error {
        StateError::Persistence(p) => p,
        StateError::InstallationAlreadyExists { installation } => {
            let mut m = String::from_str("installation '");
            m.append(installation.as_str());
            m.append("' already exists");
            PersistenceError::OutboxAppendFailed { message: m }
        },
        StateError::UnknownInstallation { installation } => {
            let mut m = String::from_str("unknown installation '");
            m.append(installation.as_str());
            m.append("'");
            PersistenceError::OutboxAppendFailed { message: m }
        },
        StateError::BackendFailure { operation, message } => {
            let mut m = String::from_str("state backend failed during ");
            m.append(operation.as_str());
            m.append(": ");
            m.append(message.as_str());
            PersistenceError::OutboxAppendFailed { message: m }
        },
        StateError::TransactionConflict {
            installation,
            transaction,
            expected_revision,
            actual_revision,
        } => {
            let mut m = String::from_str("transaction '");
            m.append(transaction.as_str());
            m.append("' on installation '");
            m.append(installation.as_str());
            m.append("' expected revision ");
            push_decimal(&mut m, expected_revision);
            m.append(" but found ");
            push_decimal(&mut m, actual_revision);
            PersistenceError::OutboxAppendFailed { message: m }
        },
        StateError::RevisionConflict { installation, expected_revision, actual_revision } => {
            let mut m = String::from_str("installation '");
            m.append(installation.as_str());
            m.append("' expected revision ");
            push_decimal(&mut m, expected_revision);
            m.append(" but found ");
            push_decimal(&mut m, actual_revision);
            PersistenceError::OutboxAppendFailed { message: m }
        },
    }
}

} // verus!
