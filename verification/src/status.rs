//! Stored names of the persistence status vocabularies.
use vstd::prelude::*;

use crate::errors::PersistenceError;
use crate::text::text_eq;

verus! {

/// Delivery state of one outbox record.
#[derive(Clone, Copy, Debug, PartialEq, Eq, Structural)]
pub enum OutboxStatus {
    Pending,
    Delivering,
    Delivered,
    Failed,
}

/// The name a OutboxStatus is stored under.
pub open spec fn outbox_status_name(s: OutboxStatus) -> Seq<char> {
    match s {
        OutboxStatus::Pending => "Pending"@,
        OutboxStatus::Delivering => "Delivering"@,
        OutboxStatus::Delivered => "Delivered"@,
        OutboxStatus::Failed => "Failed"@,
    }
}

/// The stored name of a status.
pub fn outbox_status_str(s: OutboxStatus) -> (name: &'static str)
    ensures
        name@ == outbox_status_name(s),
{
    match s {
        OutboxStatus::Pending => "Pending",
        OutboxStatus::Delivering => "Delivering",
        OutboxStatus::Delivered => "Delivered",
        OutboxStatus::Failed => "Failed",
    }
}

/// Distinct statuses have distinct stored names.
pub proof fn outbox_status_names_distinct(a: OutboxStatus, b: OutboxStatus)
    ensures
        outbox_status_name(a) == outbox_status_name(b) ==> a == b,
{
    reveal_strlit("Pending");
    reveal_strlit("Delivering");
    reveal_strlit("Delivered");
    reveal_strlit("Failed");
    match a {
        OutboxStatus::Pending => {
            match b {
                OutboxStatus::Pending => {},
                OutboxStatus::Delivering => {
                    assert(outbox_status_name(a).len() != outbox_status_name(b).len());
                },
                OutboxStatus::Delivered => {
                    assert(outbox_status_name(a).len() != outbox_status_name(b).len());
                },
                OutboxStatus::Failed => {
                    assert(outbox_status_name(a).len() != outbox_status_name(b).len());
                },
            }
        },
        OutboxStatus::Delivering => {
            match b {
                OutboxStatus::Pending => {
                    assert(outbox_status_name(a).len() != outbox_status_name(b).len());
                },
                OutboxStatus::Delivering => {},
                OutboxStatus::Delivered => {
                    assert(outbox_status_name(a).len() != outbox_status_name(b).len());
                },
                OutboxStatus::Failed => {
                    assert(outbox_status_name(a).len() != outbox_status_name(b).len());
                },
            }
        },
        OutboxStatus::Delivered => {
            match b {
                OutboxStatus::Pending => {
                    assert(outbox_status_name(a).len() != outbox_status_name(b).len());
                },
                OutboxStatus::Delivering => {
                    assert(outbox_status_name(a).len() != outbox_status_name(b).len());
                },
                OutboxStatus::Delivered => {},
                OutboxStatus::Failed => {
                    assert(outbox_status_name(a).len() != outbox_status_name(b).len());
                },
            }
        },
        OutboxStatus::Failed => {
            match b {
                OutboxStatus::Pending => {
                    assert(outbox_status_name(a).len() != outbox_status_name(b).len());
                },
                OutboxStatus::Delivering => {
                    assert(outbox_status_name(a).len() != outbox_status_name(b).len());
                },
                OutboxStatus::Delivered => {
                    assert(outbox_status_name(a).len() != outbox_status_name(b).len());
                },
                OutboxStatus::Failed => {},
            }
        },
    }
}

/// Parses a stored name back into a status; any other text is refused as
/// corrupt.
pub fn outbox_status_from_string(value: &str) -> (res: Result<OutboxStatus, PersistenceError>)
    ensures
        res matches Ok(s) ==> outbox_status_name(s) == value@,
        (exists|s: OutboxStatus| #[trigger] outbox_status_name(s) == value@) ==> res is Ok,
        res matches Err(e) ==> e matches PersistenceError::OutboxRecordCorrupt { message } && message@
            == "unknown outbox status '"@ + value@ + "'"@,
{
        if text_eq(value, "Pending") {
            return Ok(OutboxStatus::Pending);
        }
        if text_eq(value, "Delivering") {
            return Ok(OutboxStatus::Delivering);
        }
        if text_eq(value, "Delivered") {
            return Ok(OutboxStatus::Delivered);
        }
        if text_eq(value, "Failed") {
            return Ok(OutboxStatus::Failed);
        }
    let mut message = String::from_str("unknown outbox status '");
    message.append(value);
    message.append("'");
    Err(PersistenceError::OutboxRecordCorrupt { message })
}

/// Lifecycle state of a persistent job.
#[derive(Clone, Copy, Debug, PartialEq, Eq, Structural)]
pub enum JobState {
    Pending,
    Waiting,
    Runnable,
    Running,
    Completed,
    Cancelled,
    Failed,
    Interrupted,
}

/// The name a JobState is stored under.
pub open spec fn job_state_name(s: JobState) -> Seq<char> {
    match s {
        JobState::Pending => "Pending"@,
        JobState::Waiting => "Waiting"@,
        JobState::Runnable => "Runnable"@,
        JobState::Running => "Running"@,
        JobState::Completed => "Completed"@,
        JobState::Cancelled => "Cancelled"@,
        JobState::Failed => "Failed"@,
        JobState::Interrupted => "Interrupted"@,
    }
}

/// The stored name of a status.
pub fn job_state_str(s: JobState) -> (name: &'static str)
    ensures
        name@ == job_state_name(s),
{
    match s {
        JobState::Pending => "Pending",
        JobState::Waiting => "Waiting",
        JobState::Runnable => "Runnable",
        JobState::Running => "Running",
        JobState::Completed => "Completed",
        JobState::Cancelled => "Cancelled",
        JobState::Failed => "Failed",
        JobState::Interrupted => "Interrupted",
    }
}

/// Distinct statuses have distinct stored names.
pub proof fn job_state_names_distinct(a: JobState, b: JobState)
    ensures
        job_state_name(a) == job_state_name(b) ==> a == b,
{
    reveal_strlit("Pending");
    reveal_strlit("Waiting");
    reveal_strlit("Runnable");
    reveal_strlit("Running");
    reveal_strlit("Completed");
    reveal_strlit("Cancelled");
    reveal_strlit("Failed");
    reveal_strlit("Interrupted");
    match a {
        JobState::Pending => {
            match b {
                JobState::Pending => {},
                JobState::Waiting => {
                    assert(job_state_name(a)[0] != job_state_name(b)[0]);
                },
                JobState::Runnable => {
                    assert(job_state_name(a).len() != job_state_name(b).len());
                },
                JobState::Running => {
                    assert(job_state_name(a)[0] != job_state_name(b)[0]);
                },
                JobState::Completed => {
                    assert(job_state_name(a).len() != job_state_name(b).len());
                },
                JobState::Cancelled => {
                    assert(job_state_name(a).len() != job_state_name(b).len());
                },
                JobState::Failed => {
                    assert(job_state_name(a).len() != job_state_name(b).len());
                },
                JobState::Interrupted => {
                    assert(job_state_name(a).len() != job_state_name(b).len());
                },
            }
        },
        JobState::Waiting => {
            match b {
                JobState::Pending => {
                    assert(job_state_name(a)[0] != job_state_name(b)[0]);
                },
                JobState::Waiting => {},
                JobState::Runnable => {
                    assert(job_state_name(a).len() != job_state_name(b).len());
                },
                JobState::Running => {
                    assert(job_state_name(a)[0] != job_state_name(b)[0]);
                },
                JobState::Completed => {
                    assert(job_state_name(a).len() != job_state_name(b).len());
                },
                JobState::Cancelled => {
                    assert(job_state_name(a).len() != job_state_name(b).len());
                },
                JobState::Failed => {
                    assert(job_state_name(a).len() != job_state_name(b).len());
                },
                JobState::Interrupted => {
                    assert(job_state_name(a).len() != job_state_name(b).len());
                },
            }
        },
        JobState::Runnable => {
            match b {
                JobState::Pending => {
                    assert(job_state_name(a).len() != job_state_name(b).len());
                },
                JobState::Waiting => {
                    assert(job_state_name(a).len() != job_state_name(b).len());
                },
                JobState::Runnable => {},
                JobState::Running => {
                    assert(job_state_name(a).len() != job_state_name(b).len());
                },
                JobState::Completed => {
                    assert(job_state_name(a).len() != job_state_name(b).len());
                },
                JobState::Cancelled => {
                    assert(job_state_name(a).len() != job_state_name(b).len());
                },
                JobState::Failed => {
                    assert(job_state_name(a).len() != job_state_name(b).len());
                },
                JobState::Interrupted => {
                    assert(job_state_name(a).len() != job_state_name(b).len());
                },
            }
        },
        JobState::Running => {
            match b {
                JobState::Pending => {
                    assert(job_state_name(a)[0] != job_state_name(b)[0]);
                },
                JobState::Waiting => {
                    assert(job_state_name(a)[0] != job_state_name(b)[0]);
                },
                JobState::Runnable => {
                    assert(job_state_name(a).len() != job_state_name(b).len());
                },
                JobState::Running => {},
                JobState::Completed => {
                    assert(job_state_name(a).len() != job_state_name(b).len());
                },
                JobState::Cancelled => {
                    assert(job_state_name(a).len() != job_state_name(b).len());
                },
                JobState::Failed => {
                    assert(job_state_name(a).len() != job_state_name(b).len());
                },
                JobState::Interrupted => {
                    assert(job_state_name(a).len() != job_state_name(b).len());
                },
            }
        },
        JobState::Completed => {
            match b {
                JobState::Pending => {
                    assert(job_state_name(a).len() != job_state_name(b).len());
                },
                JobState::Waiting => {
                    assert(job_state_name(a).len() != job_state_name(b).len());
                },
                JobState::Runnable => {
                    assert(job_state_name(a).len() != job_state_name(b).len());
                },
                JobState::Running => {
                    assert(job_state_name(a).len() != job_state_name(b).len());
                },
                JobState::Completed => {},
                JobState::Cancelled => {
                    assert(job_state_name(a)[1] != job_state_name(b)[1]);
                },
                JobState::Failed => {
                    assert(job_state_name(a).len() != job_state_name(b).len());
                },
                JobState::Interrupted => {
                    assert(job_state_name(a).len() != job_state_name(b).len());
                },
            }
        },
        JobState::Cancelled => {
            match b {
                JobState::Pending => {
                    assert(job_state_name(a).len() != job_state_name(b).len());
                },
                JobState::Waiting => {
                    assert(job_state_name(a).len() != job_state_name(b).len());
                },
                JobState::Runnable => {
                    assert(job_state_name(a).len() != job_state_name(b).len());
                },
                JobState::Running => {
                    assert(job_state_name(a).len() != job_state_name(b).len());
                },
                JobState::Completed => {
                    assert(job_state_name(a)[1] != job_state_name(b)[1]);
                },
                JobState::Cancelled => {},
                JobState::Failed => {
                    assert(job_state_name(a).len() != job_state_name(b).len());
                },
                JobState::Interrupted => {
                    assert(job_state_name(a).len() != job_state_name(b).len());
                },
            }
        },
        JobState::Failed => {
            match b {
                JobState::Pending => {
                    assert(job_state_name(a).len() != job_state_name(b).len());
                },
                JobState::Waiting => {
                    assert(job_state_name(a).len() != job_state_name(b).len());
                },
                JobState::Runnable => {
                    assert(job_state_name(a).len() != job_state_name(b).len());
                },
                JobState::Running => {
                    assert(job_state_name(a).len() != job_state_name(b).len());
                },
                JobState::Completed => {
                    assert(job_state_name(a).len() != job_state_name(b).len());
                },
                JobState::Cancelled => {
                    assert(job_state_name(a).len() != job_state_name(b).len());
                },
                JobState::Failed => {},
                JobState::Interrupted => {
                    assert(job_state_name(a).len() != job_state_name(b).len());
                },
            }
        },
        JobState::Interrupted => {
            match b {
                JobState::Pending => {
                    assert(job_state_name(a).len() != job_state_name(b).len());
                },
                JobState::Waiting => {
                    assert(job_state_name(a).len() != job_state_name(b).len());
                },
                JobState::Runnable => {
                    assert(job_state_name(a).len() != job_state_name(b).len());
                },
                JobState::Running => {
                    assert(job_state_name(a).len() != job_state_name(b).len());
                },
                JobState::Completed => {
                    assert(job_state_name(a).len() != job_state_name(b).len());
                },
                JobState::Cancelled => {
                    assert(job_state_name(a).len() != job_state_name(b).len());
                },
                JobState::Failed => {
                    assert(job_state_name(a).len() != job_state_name(b).len());
                },
                JobState::Interrupted => {},
            }
        },
    }
}

/// Parses a stored name back into a status; any other text is refused as
/// corrupt.
pub fn job_state_from_string(value: &str) -> (res: Result<JobState, PersistenceError>)
    ensures
        res matches Ok(s) ==> job_state_name(s) == value@,
        (exists|s: JobState| #[trigger] job_state_name(s) == value@) ==> res is Ok,
        res matches Err(e) ==> e matches PersistenceError::StorageCorrupt { message } && message@
            == "unknown job state '"@ + value@ + "'"@,
{
        if text_eq(value, "Pending") {
            return Ok(JobState::Pending);
        }
        if text_eq(value, "Waiting") {
            return Ok(JobState::Waiting);
        }
        if text_eq(value, "Runnable") {
            return Ok(JobState::Runnable);
        }
        if text_eq(value, "Running") {
            return Ok(JobState::Running);
        }
        if text_eq(value, "Completed") {
            return Ok(JobState::Completed);
        }
        if text_eq(value, "Cancelled") {
            return Ok(JobState::Cancelled);
        }
        if text_eq(value, "Failed") {
            return Ok(JobState::Failed);
        }
        if text_eq(value, "Interrupted") {
            return Ok(JobState::Interrupted);
        }
    let mut message = String::from_str("unknown job state '");
    message.append(value);
    message.append("'");
    Err(PersistenceError::StorageCorrupt { message })
}

/// How a persistent job may be resumed after an interruption.
#[derive(Clone, Copy, Debug, PartialEq, Eq, Structural)]
pub enum JobRecoveryPolicy {
    Manual,
    RetrySafe,
    Idempotent,
}

/// The name a JobRecoveryPolicy is stored under.
pub open spec fn job_recovery_policy_name(s: JobRecoveryPolicy) -> Seq<char> {
    match s {
        JobRecoveryPolicy::Manual => "Manual"@,
        JobRecoveryPolicy::RetrySafe => "RetrySafe"@,
        JobRecoveryPolicy::Idempotent => "Idempotent"@,
    }
}

/// The stored name of a status.
pub fn job_recovery_policy_str(s: JobRecoveryPolicy) -> (name: &'static str)
    ensures
        name@ == job_recovery_policy_name(s),
{
    match s {
        JobRecoveryPolicy::Manual => "Manual",
        JobRecoveryPolicy::RetrySafe => "RetrySafe",
        JobRecoveryPolicy::Idempotent => "Idempotent",
    }
}

/// Distinct statuses have distinct stored names.
pub proof fn job_recovery_policy_names_distinct(a: JobRecoveryPolicy, b: JobRecoveryPolicy)
    ensures
        job_recovery_policy_name(a) == job_recovery_policy_name(b) ==> a == b,
{
    reveal_strlit("Manual");
    reveal_strlit("RetrySafe");
    reveal_strlit("Idempotent");
    match a {
        JobRecoveryPolicy::Manual => {
            match b {
                JobRecoveryPolicy::Manual => {},
                JobRecoveryPolicy::RetrySafe => {
                    assert(job_recovery_policy_name(a).len() != job_recovery_policy_name(b).len());
                },
                JobRecoveryPolicy::Idempotent => {
                    assert(job_recovery_policy_name(a).len() != job_recovery_policy_name(b).len());
                },
            }
        },
        JobRecoveryPolicy::RetrySafe => {
            match b {
                JobRecoveryPolicy::Manual => {
                    assert(job_recovery_policy_name(a).len() != job_recovery_policy_name(b).len());
                },
                JobRecoveryPolicy::RetrySafe => {},
                JobRecoveryPolicy::Idempotent => {
                    assert(job_recovery_policy_name(a).len() != job_recovery_policy_name(b).len());
                },
            }
        },
        JobRecoveryPolicy::Idempotent => {
            match b {
                JobRecoveryPolicy::Manual => {
                    assert(job_recovery_policy_name(a).len() != job_recovery_policy_name(b).len());
                },
                JobRecoveryPolicy::RetrySafe => {
                    assert(job_recovery_policy_name(a).len() != job_recovery_policy_name(b).len());
                },
                JobRecoveryPolicy::Idempotent => {},
            }
        },
    }
}

/// Parses a stored name back into a status; any other text is refused as
/// corrupt.
pub fn job_recovery_policy_from_string(value: &str) -> (res: Result<JobRecoveryPolicy, PersistenceError>)
    ensures
        res matches Ok(s) ==> job_recovery_policy_name(s) == value@,
        (exists|s: JobRecoveryPolicy| #[trigger] job_recovery_policy_name(s) == value@) ==> res is Ok,
        res matches Err(e) ==> e matches PersistenceError::StorageCorrupt { message } && message@
            == "unknown job recovery policy '"@ + value@ + "'"@,
{
        if text_eq(value, "Manual") {
            return Ok(JobRecoveryPolicy::Manual);
        }
        if text_eq(value, "RetrySafe") {
            return Ok(JobRecoveryPolicy::RetrySafe);
        }
        if text_eq(value, "Idempotent") {
            return Ok(JobRecoveryPolicy::Idempotent);
        }
    let mut message = String::from_str("unknown job recovery policy '");
    message.append(value);
    message.append("'");
    Err(PersistenceError::StorageCorrupt { message })
}

/// Outcome recorded by one audit record.
#[derive(Clone, Copy, Debug, PartialEq, Eq, Structural)]
pub enum AuditOutcome {
    Committed,
    NotCommitted,
    PendingDelivery,
    Interrupted,
    Failed,
}

/// The name a AuditOutcome is stored under.
pub open spec fn audit_outcome_name(s: AuditOutcome) -> Seq<char> {
    match s {
        AuditOutcome::Committed => "Committed"@,
        AuditOutcome::NotCommitted => "NotCommitted"@,
        AuditOutcome::PendingDelivery => "PendingDelivery"@,
        AuditOutcome::Interrupted => "Interrupted"@,
        AuditOutcome::Failed => "Failed"@,
    }
}

/// The stored name of a status.
pub fn audit_outcome_str(s: AuditOutcome) -> (name: &'static str)
    ensures
        name@ == audit_outcome_name(s),
{
    match s {
        AuditOutcome::Committed => "Committed",
        AuditOutcome::NotCommitted => "NotCommitted",
        AuditOutcome::PendingDelivery => "PendingDelivery",
        AuditOutcome::Interrupted => "Interrupted",
        AuditOutcome::Failed => "Failed",
    }
}

/// Distinct statuses have distinct stored names.
pub proof fn audit_outcome_names_distinct(a: AuditOutcome, b: AuditOutcome)
    ensures
        audit_outcome_name(a) == audit_outcome_name(b) ==> a == b,
{
    reveal_strlit("Committed");
    reveal_strlit("NotCommitted");
    reveal_strlit("PendingDelivery");
    reveal_strlit("Interrupted");
    reveal_strlit("Failed");
    match a {
        AuditOutcome::Committed => {
            match b {
                AuditOutcome::Committed => {},
                AuditOutcome::NotCommitted => {
                    assert(audit_outcome_name(a).len() != audit_outcome_name(b).len());
                },
                AuditOutcome::PendingDelivery => {
                    assert(audit_outcome_name(a).len() != audit_outcome_name(b).len());
                },
                AuditOutcome::Interrupted => {
                    assert(audit_outcome_name(a).len() != audit_outcome_name(b).len());
                },
                AuditOutcome::Failed => {
                    assert(audit_outcome_name(a).len() != audit_outcome_name(b).len());
                },
            }
        },
        AuditOutcome::NotCommitted => {
            match b {
                AuditOutcome::Committed => {
                    assert(audit_outcome_name(a).len() != audit_outcome_name(b).len());
                },
                AuditOutcome::NotCommitted => {},
                AuditOutcome::PendingDelivery => {
                    assert(audit_outcome_name(a).len() != audit_outcome_name(b).len());
                },
                AuditOutcome::Interrupted => {
                    assert(audit_outcome_name(a).len() != audit_outcome_name(b).len());
                },
                AuditOutcome::Failed => {
                    assert(audit_outcome_name(a).len() != audit_outcome_name(b).len());
                },
            }
        },
        AuditOutcome::PendingDelivery => {
            match b {
                AuditOutcome::Committed => {
                    assert(audit_outcome_name(a).len() != audit_outcome_name(b).len());
                },
                AuditOutcome::NotCommitted => {
                    assert(audit_outcome_name(a).len() != audit_outcome_name(b).len());
                },
                AuditOutcome::PendingDelivery => {},
                AuditOutcome::Interrupted => {
                    assert(audit_outcome_name(a).len() != audit_outcome_name(b).len());
                },
                AuditOutcome::Failed => {
                    assert(audit_outcome_name(a).len() != audit_outcome_name(b).len());
                },
            }
        },
        AuditOutcome::Interrupted => {
            match b {
                AuditOutcome::Committed => {
                    assert(audit_outcome_name(a).len() != audit_outcome_name(b).len());
                },
                AuditOutcome::NotCommitted => {
                    assert(audit_outcome_name(a).len() != audit_outcome_name(b).len());
                },
                AuditOutcome::PendingDelivery => {
                    assert(audit_outcome_name(a).len() != audit_outcome_name(b).len());
                },
                AuditOutcome::Interrupted => {},
                AuditOutcome::Failed => {
                    assert(audit_outcome_name(a).len() != audit_outcome_name(b).len());
                },
            }
        },
        AuditOutcome::Failed => {
            match b {
                AuditOutcome::Committed => {
                    assert(audit_outcome_name(a).len() != audit_outcome_name(b).len());
                },
                AuditOutcome::NotCommitted => {
                    assert(audit_outcome_name(a).len() != audit_outcome_name(b).len());
                },
                AuditOutcome::PendingDelivery => {
                    assert(audit_outcome_name(a).len() != audit_outcome_name(b).len());
                },
                AuditOutcome::Interrupted => {
                    assert(audit_outcome_name(a).len() != audit_outcome_name(b).len());
                },
                AuditOutcome::Failed => {},
            }
        },
    }
}

/// Parses a stored name back into a status; any other text is refused as
/// corrupt.
pub fn audit_outcome_from_string(value: &str) -> (res: Result<AuditOutcome, PersistenceError>)
    ensures
        res matches Ok(s) ==> audit_outcome_name(s) == value@,
        (exists|s: AuditOutcome| #[trigger] audit_outcome_name(s) == value@) ==> res is Ok,
        res matches Err(e) ==> e matches PersistenceError::StorageCorrupt { message } && message@
            == "unknown audit outcome '"@ + value@ + "'"@,
{
        if text_eq(value, "Committed") {
            return Ok(AuditOutcome::Committed);
        }
        if text_eq(value, "NotCommitted") {
            return Ok(AuditOutcome::NotCommitted);
        }
        if text_eq(value, "PendingDelivery") {
            return Ok(AuditOutcome::PendingDelivery);
        }
        if text_eq(value, "Interrupted") {
            return Ok(AuditOutcome::Interrupted);
        }
        if text_eq(value, "Failed") {
            return Ok(AuditOutcome::Failed);
        }
    let mut message = String::from_str("unknown audit outcome '");
    message.append(value);
    message.append("'");
    Err(PersistenceError::StorageCorrupt { message })
}

/// Lifecycle status of a plugin installation.
#[derive(Clone, Copy, Debug, PartialEq, Eq, Structural)]
pub enum InstallationStatus {
    Installed,
    PreparingState,
    Migrating,
    Ready,
    MigrationFailed,
    Uninstalling,
    RecoveryFailed,
}

/// The name a InstallationStatus is stored under.
pub open spec fn installation_status_name(s: InstallationStatus) -> Seq<char> {
    match s {
        InstallationStatus::Installed => "Installed"@,
        InstallationStatus::PreparingState => "PreparingState"@,
        InstallationStatus::Migrating => "Migrating"@,
        InstallationStatus::Ready => "Ready"@,
        InstallationStatus::MigrationFailed => "MigrationFailed"@,
        InstallationStatus::Uninstalling => "Uninstalling"@,
        InstallationStatus::RecoveryFailed => "RecoveryFailed"@,
    }
}

/// The stored name of a status.
pub fn installation_status_str(s: InstallationStatus) -> (name: &'static str)
    ensures
        name@ == installation_status_name(s),
{
    match s {
        InstallationStatus::Installed => "Installed",
        InstallationStatus::PreparingState => "PreparingState",
        InstallationStatus::Migrating => "Migrating",
        InstallationStatus::Ready => "Ready",
        InstallationStatus::MigrationFailed => "MigrationFailed",
        InstallationStatus::Uninstalling => "Uninstalling",
        InstallationStatus::RecoveryFailed => "RecoveryFailed",
    }
}

/// Distinct statuses have distinct stored names.
pub proof fn installation_status_names_distinct(a: InstallationStatus, b: InstallationStatus)
    ensures
        installation_status_name(a) == installation_status_name(b) ==> a == b,
{
    reveal_strlit("Installed");
    reveal_strlit("PreparingState");
    reveal_strlit("Migrating");
    reveal_strlit("Ready");
    reveal_strlit("MigrationFailed");
    reveal_strlit("Uninstalling");
    reveal_strlit("RecoveryFailed");
    match a {
        InstallationStatus::Installed => {
            match b {
                InstallationStatus::Installed => {},
                InstallationStatus::PreparingState => {
                    assert(installation_status_name(a).len() != installation_status_name(b).len());
                },
                InstallationStatus::Migrating => {
                    assert(installation_status_name(a)[0] != installation_status_name(b)[0]);
                },
                InstallationStatus::Ready => {
                    assert(installation_status_name(a).len() != installation_status_name(b).len());
                },
                InstallationStatus::MigrationFailed => {
                    assert(installation_status_name(a).len() != installation_status_name(b).len());
                },
                InstallationStatus::Uninstalling => {
                    assert(installation_status_name(a).len() != installation_status_name(b).len());
                },
                InstallationStatus::RecoveryFailed => {
                    assert(installation_status_name(a).len() != installation_status_name(b).len());
                },
            }
        },
        InstallationStatus::PreparingState => {
            match b {
                InstallationStatus::Installed => {
                    assert(installation_status_name(a).len() != installation_status_name(b).len());
                },
                InstallationStatus::PreparingState => {},
                InstallationStatus::Migrating => {
                    assert(installation_status_name(a).len() != installation_status_name(b).len());
                },
                InstallationStatus::Ready => {
                    assert(installation_status_name(a).len() != installation_status_name(b).len());
                },
                InstallationStatus::MigrationFailed => {
                    assert(installation_status_name(a).len() != installation_status_name(b).len());
                },
                InstallationStatus::Uninstalling => {
                    assert(installation_status_name(a).len() != installation_status_name(b).len());
                },
                InstallationStatus::RecoveryFailed => {
                    assert(installation_status_name(a)[0] != installation_status_name(b)[0]);
                },
            }
        },
        InstallationStatus::Migrating => {
            match b {
                InstallationStatus::Installed => {
                    assert(installation_status_name(a)[0] != installation_status_name(b)[0]);
                },
                InstallationStatus::PreparingState => {
                    assert(installation_status_name(a).len() != installation_status_name(b).len());
                },
                InstallationStatus::Migrating => {},
                InstallationStatus::Ready => {
                    assert(installation_status_name(a).len() != installation_status_name(b).len());
                },
                InstallationStatus::MigrationFailed => {
                    assert(installation_status_name(a).len() != installation_status_name(b).len());
                },
                InstallationStatus::Uninstalling => {
                    assert(installation_status_name(a).len() != installation_status_name(b).len());
                },
                InstallationStatus::RecoveryFailed => {
                    assert(installation_status_name(a).len() != installation_status_name(b).len());
                },
            }
        },
        InstallationStatus::Ready => {
            match b {
                InstallationStatus::Installed => {
                    assert(installation_status_name(a).len() != installation_status_name(b).len());
                },
                InstallationStatus::PreparingState => {
                    assert(installation_status_name(a).len() != installation_status_name(b).len());
                },
                InstallationStatus::Migrating => {
                    assert(installation_status_name(a).len() != installation_status_name(b).len());
                },
                InstallationStatus::Ready => {},
                InstallationStatus::MigrationFailed => {
                    assert(installation_status_name(a).len() != installation_status_name(b).len());
                },
                InstallationStatus::Uninstalling => {
                    assert(installation_status_name(a).len() != installation_status_name(b).len());
                },
                InstallationStatus::RecoveryFailed => {
                    assert(installation_status_name(a).len() != installation_status_name(b).len());
                },
            }
        },
        InstallationStatus::MigrationFailed => {
            match b {
                InstallationStatus::Installed => {
                    assert(installation_status_name(a).len() != installation_status_name(b).len());
                },
                InstallationStatus::PreparingState => {
                    assert(installation_status_name(a).len() != installation_status_name(b).len());
                },
                InstallationStatus::Migrating => {
                    assert(installation_status_name(a).len() != installation_status_name(b).len());
                },
                InstallationStatus::Ready => {
                    assert(installation_status_name(a).len() != installation_status_name(b).len());
                },
                InstallationStatus::MigrationFailed => {},
                InstallationStatus::Uninstalling => {
                    assert(installation_status_name(a).len() != installation_status_name(b).len());
                },
                InstallationStatus::RecoveryFailed => {
                    assert(installation_status_name(a).len() != installation_status_name(b).len());
                },
            }
        },
        InstallationStatus::Uninstalling => {
            match b {
                InstallationStatus::Installed => {
                    assert(installation_status_name(a).len() != installation_status_name(b).len());
                },
                InstallationStatus::PreparingState => {
                    assert(installation_status_name(a).len() != installation_status_name(b).len());
                },
                InstallationStatus::Migrating => {
                    assert(installation_status_name(a).len() != installation_status_name(b).len());
                },
                InstallationStatus::Ready => {
                    assert(installation_status_name(a).len() != installation_status_name(b).len());
                },
                InstallationStatus::MigrationFailed => {
                    assert(installation_status_name(a).len() != installation_status_name(b).len());
                },
                InstallationStatus::Uninstalling => {},
                InstallationStatus::RecoveryFailed => {
                    assert(installation_status_name(a).len() != installation_status_name(b).len());
                },
            }
        },
        InstallationStatus::RecoveryFailed => {
            match b {
                InstallationStatus::Installed => {
                    assert(installation_status_name(a).len() != installation_status_name(b).len());
                },
                InstallationStatus::PreparingState => {
                    assert(installation_status_name(a)[0] != installation_status_name(b)[0]);
                },
                InstallationStatus::Migrating => {
                    assert(installation_status_name(a).len() != installation_status_name(b).len());
                },
                InstallationStatus::Ready => {
                    assert(installation_status_name(a).len() != installation_status_name(b).len());
                },
                InstallationStatus::MigrationFailed => {
                    assert(installation_status_name(a).len() != installation_status_name(b).len());
                },
                InstallationStatus::Uninstalling => {
                    assert(installation_status_name(a).len() != installation_status_name(b).len());
                },
                InstallationStatus::RecoveryFailed => {},
            }
        },
    }
}

/// Parses a stored name back into a status; any other text is refused as
/// corrupt.
pub fn installation_status_from_string(value: &str) -> (res: Result<InstallationStatus, PersistenceError>)
    ensures
        res matches Ok(s) ==> installation_status_name(s) == value@,
        (exists|s: InstallationStatus| #[trigger] installation_status_name(s) == value@) ==> res is Ok,
        res matches Err(e) ==> e matches PersistenceError::StorageCorrupt { message } && message@
            == "unknown installation status '"@ + value@ + "'"@,
{
        if text_eq(value, "Installed") {
            return Ok(InstallationStatus::Installed);
        }
        if text_eq(value, "PreparingState") {
            return Ok(InstallationStatus::PreparingState);
        }
        if text_eq(value, "Migrating") {
            return Ok(InstallationStatus::Migrating);
        }
        if text_eq(value, "Ready") {
            return Ok(InstallationStatus::Ready);
        }
        if text_eq(value, "MigrationFailed") {
            return Ok(InstallationStatus::MigrationFailed);
        }
        if text_eq(value, "Uninstalling") {
            return Ok(InstallationStatus::Uninstalling);
        }
        if text_eq(value, "RecoveryFailed") {
            return Ok(InstallationStatus::RecoveryFailed);
        }
    let mut message = String::from_str("unknown installation status '");
    message.append(value);
    message.append("'");
    Err(PersistenceError::StorageCorrupt { message })
}

} // verus!
