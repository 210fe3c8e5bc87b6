//! Failure classes of the persistence layer.
use vstd::prelude::*;

verus! {

/// Typed persistence failures.
#[derive(Clone, Debug, PartialEq, Eq)]
pub enum PersistenceError {
    StorageOpenFailed { message: String },
    StorageCorrupt { message: String },
    UnsupportedStorageFormat { found: u32, supported: u32 },
    StorageIoFailure { operation: String, message: String },
    StorageBusy { message: String },
    BackupFailed { message: String },
    RestoreValidationFailed { message: String },
    OutboxAppendFailed { message: String },
    OutboxDeliveryFailed { message: String },
    OutboxRecordCorrupt { message: String },
    InvalidRecord { message: String },
    JobStoreFailure { message: String },
    BlobWriteFailed { message: String },
    BlobNotFound { id: String },
    BlobCorrupt { id: String },
}

/// Typed failures of installation state operations.
#[derive(Clone, Debug, PartialEq, Eq)]
pub enum StateError {
    InstallationAlreadyExists { installation: String },
    UnknownInstallation { installation: String },
    BackendFailure { operation: String, message: String },
    TransactionConflict {
        installation: String,
        transaction: String,
        expected_revision: u64,
        actual_revision: u64,
    },
    RevisionConflict { installation: String, expected_revision: u64, actual_revision: u64 },
    Persistence(PersistenceError),
}

/// Failure of the durable event journal.
#[derive(Clone, Debug, PartialEq, Eq)]
pub enum EventJournalError {
    Failure(String),
}

} // verus!
