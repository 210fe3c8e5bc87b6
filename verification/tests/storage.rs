use worldline_host::codec::{Decoder, Encoder};
use worldline_host::errors::{EventJournalError, PersistenceError, StateError};
use worldline_host::event::{
    decode_event, decode_outcome, encode_event, encode_outcome, CausationRef, DeliveryMode,
    EventEnvelope, InvocationCompleted, RpcOutcomeClass,
};
use worldline_host::faults::{
    audit_store_sqlite_error, job_store_sqlite_error, journal_append_sqlite_error,
    map_sqlite_error, open_error, outbox_sqlite_error, state_error_to_persistence, ColumnType,
    SqliteFault,
};
use worldline_host::metadata::{decode_metadata, encode_metadata, key_less, AuditMetadata};
use worldline_host::records::{
    audit_row, check_job_updated, decode_audit_columns, decode_causation_columns,
    decode_job_columns, interrupt_running, job_row, validate_audit_record, validate_job_record,
    AuditRecord, JobRecord,
};
use worldline_host::status::{
    audit_outcome_from_string, job_state_from_string, outbox_status_from_string, AuditOutcome,
    JobRecoveryPolicy, JobState, OutboxStatus,
};
use worldline_host::store::{
    admit_commit, admit_commit_with_outbox, admit_installation_creation, admit_installation_deletion, admit_outbox_append, audit_listing_limit,
    check_backup_format, check_storage_format, current_revision_from, decode_outbox_columns,
    has_failure_message_column, integer, journal_append_action, journal_cursor,
    journal_mode_check, mark_delivered, mark_delivering, mark_failed, optional_integer,
    optional_unsigned, outbox_listing_limit, parse_u32, parse_u64, prepare_journal_append,
    backup_temporary_name, restore_temporary_name,
    record_from_columns, unsigned_integer, validate_outbox_for_installation, verify_journal_row,
    JournalAppendAction, OutboxRecord, CURRENT_STORAGE_FORMAT_VERSION,
};
use worldline_host::status::InstallationStatus;

fn envelope(id: &str) -> EventEnvelope {
    EventEnvelope {
        event_id: id.to_string(),
        namespace: "worldline.test".to_string(),
        name: "fact".to_string(),
        version_major: 1,
        version_minor: 2,
        producer: "plugin-installation:reference".to_string(),
        producer_runtime: Some((3, 4)),
        sequence: 17,
        correlation_id: "corr-1".to_string(),
        causation: Some(CausationRef::Invocation("inv-9".to_string())),
        delivery_mode: DeliveryMode::Durable,
        payload: vec![1, 2, 3, 255],
        invocation_completed: Some(InvocationCompleted {
            request_id: "req-1".to_string(),
            invocation_id: "inv-9".to_string(),
            caller: "caller".to_string(),
            provider_incarnation: 5,
            provider_sequence: 6,
            capability_namespace: "browser".to_string(),
            capability_name: "navigate".to_string(),
            interface_major: 1,
            operation: "go".to_string(),
            outcome: RpcOutcomeClass::ProviderBusy,
        }),
    }
}

fn outbox(id: &str) -> OutboxRecord {
    OutboxRecord {
        outbox_id: id.to_string(),
        installation: "installation-a".to_string(),
        event: envelope("event-1"),
        status: OutboxStatus::Pending,
        attempt_count: 0,
        created_sequence: 10,
        created_at_millis: 100,
    }
}

#[test]
fn event_envelope_round_trips_through_its_stored_bytes() {
    let event = envelope("event-1");
    let bytes = encode_event(&event).expect("a fitting event encodes");
    assert!(bytes.starts_with(b"WL-EVENT-1"));
    assert_eq!(decode_event(&bytes), Ok(event.clone()));
    let mut minimal = event.clone();
    minimal.producer_runtime = None;
    minimal.causation = None;
    minimal.invocation_completed = None;
    minimal.delivery_mode = DeliveryMode::Ephemeral;
    let bytes = encode_event(&minimal).unwrap();
    assert_eq!(decode_event(&bytes), Ok(minimal));
}

#[test]
fn damaged_event_bytes_are_refused() {
    let bytes = encode_event(&envelope("event-1")).unwrap();
    let mut trailing = bytes.clone();
    trailing.push(0);
    assert!(decode_event(&trailing).is_err());
    assert!(decode_event(&bytes[..bytes.len() - 1]).is_err());
    let mut bad_magic = bytes.clone();
    bad_magic[0] = b'X';
    assert!(decode_event(&bad_magic).is_err());
    assert!(decode_event(&[]).is_err());
    let mut blank = envelope(" ");
    blank.payload = vec![];
    let bytes = encode_event(&blank).unwrap();
    assert!(decode_event(&bytes).is_err());
}

#[test]
fn outcome_codes_round_trip_and_unknown_codes_fail() {
    for outcome in [
        RpcOutcomeClass::Success,
        RpcOutcomeClass::AuthorizationDenied,
        RpcOutcomeClass::InvalidIdempotencyKey,
    ] {
        assert_eq!(decode_outcome(encode_outcome(outcome)), Ok(outcome));
    }
    assert_eq!(encode_outcome(RpcOutcomeClass::Success), 0);
    assert_eq!(encode_outcome(RpcOutcomeClass::InvalidIdempotencyKey), 11);
    assert!(decode_outcome(12).is_err());
}

#[test]
fn codec_fields_read_back_in_order() {
    let mut encoder = Encoder::new();
    encoder.u8(7);
    encoder.u16(0x1234);
    encoder.u32(0xdead_beef);
    encoder.u64(42);
    encoder.string("héllo", "text").unwrap();
    encoder.bytes(&[9, 8], 4, "blob").unwrap();
    assert_eq!(
        encoder.bytes(&[1, 2, 3, 4, 5], 4, "blob"),
        Err("blob exceeds the storage record limit".to_string())
    );
    let bytes = encoder.finish();
    assert_eq!(&bytes[..3], &[7, 0x34, 0x12]);
    let mut decoder = Decoder::new(&bytes);
    assert_eq!(decoder.u8(), Ok(7));
    assert_eq!(decoder.u16(), Ok(0x1234));
    assert_eq!(decoder.u32(), Ok(0xdead_beef));
    assert_eq!(decoder.u64(), Ok(42));
    assert_eq!(decoder.string("text"), Ok("héllo".to_string()));
    assert_eq!(decoder.bytes(4, "blob"), Ok(vec![9, 8]));
    assert!(decoder.finish().is_ok());
}

#[test]
fn outbox_must_enter_storage_pending_durable_and_owned() {
    let record = outbox("outbox-1");
    assert_eq!(validate_outbox_for_installation("installation-a", &record), Ok(()));
    assert_eq!(
        validate_outbox_for_installation("installation-b", &record),
        Err(PersistenceError::OutboxRecordCorrupt {
            message: "outbox 'outbox-1' belongs to installation 'installation-a', expected 'installation-b'".to_string()
        })
    );
    let mut blank = record.clone();
    blank.outbox_id = "  ".to_string();
    assert_eq!(
        validate_outbox_for_installation("installation-a", &blank),
        Err(PersistenceError::OutboxRecordCorrupt {
            message: "outbox identity must not be empty".to_string()
        })
    );
    let mut delivered = record.clone();
    delivered.status = OutboxStatus::Delivered;
    assert_eq!(
        validate_outbox_for_installation("installation-a", &delivered),
        Err(PersistenceError::OutboxAppendFailed {
            message: "outbox 'outbox-1' must enter storage as Pending, got Delivered".to_string()
        })
    );
    let mut ephemeral = record.clone();
    ephemeral.event.delivery_mode = DeliveryMode::Ephemeral;
    assert!(matches!(
        validate_outbox_for_installation("installation-a", &ephemeral),
        Err(PersistenceError::OutboxAppendFailed { .. })
    ));
}

#[test]
fn outbox_delivery_lifecycle_keeps_the_event() {
    let mut record = outbox("outbox-1");
    let event = record.event.clone();
    assert_eq!(mark_delivering(&mut record), Ok(()));
    assert_eq!(record.status, OutboxStatus::Delivering);
    assert_eq!(record.attempt_count, 1);
    assert_eq!(mark_delivering(&mut record), Ok(()));
    assert_eq!(record.attempt_count, 2);
    assert_eq!(mark_delivered(&mut record), Ok(()));
    assert_eq!(record.status, OutboxStatus::Delivered);
    assert_eq!(mark_delivered(&mut record), Ok(()));
    assert_eq!(
        mark_delivering(&mut record),
        Err(PersistenceError::OutboxDeliveryFailed {
            message: "outbox 'outbox-1' cannot enter Delivering from Delivered".to_string()
        })
    );
    assert_eq!(
        mark_failed(&mut record, "late"),
        Err(PersistenceError::OutboxDeliveryFailed {
            message: "outbox 'outbox-1' is already Delivered".to_string()
        })
    );
    assert_eq!(record.event, event);
}

#[test]
fn failed_outbox_keeps_a_bounded_message() {
    let mut record = outbox("outbox-2");
    let long = "x".repeat(5000);
    let kept = mark_failed(&mut record, &long).expect("pending records can fail");
    assert_eq!(kept.map(|m| m.chars().count()), Some(4096));
    assert_eq!(record.status, OutboxStatus::Failed);
    assert_eq!(mark_failed(&mut record, "again"), Ok(None));
    assert_eq!(
        mark_delivered(&mut record),
        Err(PersistenceError::OutboxDeliveryFailed {
            message: "outbox 'outbox-2' is already Failed".to_string()
        })
    );
    let mut exhausted = outbox("outbox-3");
    exhausted.attempt_count = u32::MAX;
    assert_eq!(
        mark_delivering(&mut exhausted),
        Err(PersistenceError::OutboxDeliveryFailed {
            message: "outbox 'outbox-3' attempt counter exhausted".to_string()
        })
    );
    assert_eq!(exhausted.status, OutboxStatus::Pending);
}

#[test]
fn commits_are_compare_and_swap() {
    assert_eq!(admit_commit("inst", "tx", 3, "inst", 4, 3), Ok(()));
    assert_eq!(
        admit_commit("inst", "tx", 3, "inst", 4, 5),
        Err(StateError::TransactionConflict {
            installation: "inst".to_string(),
            transaction: "tx".to_string(),
            expected_revision: 3,
            actual_revision: 5
        })
    );
    assert_eq!(
        admit_commit("inst", "tx", 3, "other", 4, 3),
        Err(StateError::BackendFailure {
            operation: "commit".to_string(),
            message: "state installation does not match commit target".to_string()
        })
    );
    assert_eq!(
        admit_commit("inst", "tx", 3, "inst", 6, 3),
        Err(StateError::BackendFailure {
            operation: "commit".to_string(),
            message: "commit revision must advance from 3 to 4, got 6".to_string()
        })
    );
    assert_eq!(
        admit_commit("inst", "tx", u64::MAX, "inst", 0, u64::MAX),
        Err(StateError::BackendFailure {
            operation: "commit".to_string(),
            message: "state revision counter exhausted".to_string()
        })
    );
}

#[test]
fn sqlite_integers_are_range_checked() {
    assert_eq!(integer(5, "revision"), Ok(5));
    assert_eq!(
        integer(u64::MAX, "revision"),
        Err(StateError::Persistence(PersistenceError::StorageIoFailure {
            operation: "encode".to_string(),
            message: "revision exceeds SQLite integer range".to_string()
        }))
    );
    assert_eq!(unsigned_integer(7, "revision"), Ok(7));
    assert_eq!(
        unsigned_integer(-3, "revision"),
        Err(StateError::Persistence(PersistenceError::StorageCorrupt {
            message: "revision contains negative value -3".to_string()
        }))
    );
    assert_eq!(optional_integer(None, "x"), Ok(None));
    assert_eq!(optional_integer(Some(9), "x"), Ok(Some(9)));
    assert!(matches!(
        optional_integer(Some(u64::MAX), "x"),
        Err(PersistenceError::OutboxDeliveryFailed { .. })
    ));
    assert_eq!(optional_unsigned(Some(9), "x"), Ok(Some(9)));
    assert_eq!(
        optional_unsigned(Some(i64::MIN), "x"),
        Err(PersistenceError::OutboxRecordCorrupt {
            message: "x contains negative value -9223372036854775808".to_string()
        })
    );
}

#[test]
fn storage_format_markers_are_checked() {
    assert_eq!(CURRENT_STORAGE_FORMAT_VERSION, 1);
    assert_eq!(parse_u32("42"), Some(42));
    assert_eq!(parse_u32("4294967295"), Some(u32::MAX));
    assert_eq!(parse_u32("4294967296"), None);
    assert_eq!(parse_u32("+7"), Some(7));
    assert_eq!(parse_u32(""), None);
    assert_eq!(parse_u32("1x"), None);
    assert_eq!(check_storage_format("1", 1), Ok(()));
    assert_eq!(
        check_storage_format("999", 1),
        Err(PersistenceError::UnsupportedStorageFormat { found: 999, supported: 1 })
    );
    assert_eq!(
        check_storage_format("abc", 1),
        Err(PersistenceError::StorageCorrupt {
            message: "storage format value 'abc' is not an integer".to_string()
        })
    );
    assert_eq!(
        check_storage_format("0", 1),
        Err(PersistenceError::StorageCorrupt {
            message: "storage format 0 has no non-destructive migration to 1".to_string()
        })
    );
    assert_eq!(check_backup_format("1", 1), Ok(()));
    assert!(matches!(
        check_backup_format("0", 1),
        Err(PersistenceError::RestoreValidationFailed { .. })
    ));
    assert_eq!(
        check_backup_format("2", 1),
        Err(PersistenceError::UnsupportedStorageFormat { found: 2, supported: 1 })
    );
}

#[test]
fn journal_appends_are_idempotent_and_replay_verifies() {
    let event = envelope("event-1");
    let (record, digest) = prepare_journal_append(&event).expect("durable events append");
    assert_eq!(digest.len(), 32);
    assert_eq!(
        journal_append_action("event-1", &record, &digest, None),
        Ok(JournalAppendAction::Insert)
    );
    assert_eq!(
        journal_append_action("event-1", &record, &digest, Some((record.clone(), digest.clone()))),
        Ok(JournalAppendAction::AlreadyPresent)
    );
    assert_eq!(
        journal_append_action("event-1", &record, &digest, Some((vec![0], digest.clone()))),
        Err(EventJournalError::Failure(
            "JournalAppendFailed: JournalAppendFailed: event 'event-1' already exists with different bytes".to_string()
        ))
    );
    assert_eq!(verify_journal_row(1, "event-1", &record, &digest), Ok(event.clone()));
    assert!(verify_journal_row(1, "event-1", &[0], &digest).is_err());
    assert!(verify_journal_row(1, "event-2", &record, &digest).is_err());
    let mut ephemeral = event.clone();
    ephemeral.delivery_mode = DeliveryMode::Ephemeral;
    assert_eq!(
        prepare_journal_append(&ephemeral),
        Err(EventJournalError::Failure(
            "JournalAppendFailed: only Durable events may be appended to the production journal".to_string()
        ))
    );
    assert_eq!(journal_cursor(5), Ok(5));
    assert!(journal_cursor(u64::MAX).is_err());
}

#[test]
fn outbox_rows_read_back() {
    let record = outbox("outbox-9");
    let bytes = encode_event(&record.event).unwrap();
    let columns = (
        "outbox-9".to_string(),
        "installation-a".to_string(),
        "event-1".to_string(),
        "Pending".to_string(),
        0i64,
        10i64,
        100i64,
        bytes.clone(),
    );
    assert_eq!(decode_outbox_columns(columns.clone()), Ok(record));
    let mut wrong_status = columns.clone();
    wrong_status.3 = "Lost".to_string();
    assert!(matches!(
        decode_outbox_columns(wrong_status),
        Err(PersistenceError::OutboxRecordCorrupt { .. })
    ));
    let mut wrong_event = columns.clone();
    wrong_event.2 = "event-2".to_string();
    assert!(decode_outbox_columns(wrong_event).is_err());
    let mut negative = columns;
    negative.5 = -1;
    assert!(decode_outbox_columns(negative).is_err());
}

#[test]
fn stored_status_names_parse_back() {
    assert_eq!(outbox_status_from_string("Delivering"), Ok(OutboxStatus::Delivering));
    assert_eq!(job_state_from_string("Interrupted"), Ok(JobState::Interrupted));
    assert_eq!(audit_outcome_from_string("PendingDelivery"), Ok(AuditOutcome::PendingDelivery));
    assert_eq!(
        job_state_from_string("Sleeping"),
        Err(PersistenceError::StorageCorrupt { message: "unknown job state 'Sleeping'".to_string() })
    );
}

#[test]
fn installation_rows_read_back() {
    let row = ("inst".to_string(), "plugin".to_string(), 2i64, "Ready".to_string(), 5i64, 1i64);
    let record = record_from_columns(row.clone()).unwrap();
    assert_eq!(record.status, InstallationStatus::Ready);
    assert_eq!((record.schema_version, record.revision, record.runtime_generation), (2, 5, 1));
    let mut unknown = row.clone();
    unknown.3 = "Gone".to_string();
    assert_eq!(
        record_from_columns(unknown),
        Err(StateError::Persistence(PersistenceError::StorageCorrupt {
            message: "unknown installation status 'Gone'".to_string()
        }))
    );
    let mut negative = row;
    negative.4 = -1;
    assert!(record_from_columns(negative).is_err());
    assert_eq!(admit_installation_creation("inst", false), Ok(()));
    assert_eq!(
        admit_installation_creation("inst", true),
        Err(StateError::InstallationAlreadyExists { installation: "inst".to_string() })
    );
    assert_eq!(current_revision_from("inst", Some(4)), Ok(4));
    assert_eq!(
        current_revision_from("inst", None),
        Err(StateError::UnknownInstallation { installation: "inst".to_string() })
    );
}

#[test]
fn outbox_append_and_listing_checks() {
    let record = outbox("outbox-1");
    assert_eq!(admit_outbox_append(&record, true, false), Ok(()));
    assert_eq!(
        admit_outbox_append(&record, false, false),
        Err(PersistenceError::OutboxAppendFailed {
            message: "installation 'installation-a' does not exist".to_string()
        })
    );
    assert_eq!(
        admit_outbox_append(&record, true, true),
        Err(PersistenceError::OutboxAppendFailed {
            message: "outbox 'outbox-1' already exists".to_string()
        })
    );
    assert_eq!(outbox_listing_limit(0), Ok(None));
    assert_eq!(outbox_listing_limit(10), Ok(Some(10)));
    assert_eq!(audit_listing_limit(0), Ok(None));
    assert_eq!(audit_listing_limit(3), Ok(Some(3)));
    if usize::MAX as u64 > i64::MAX as u64 {
        assert!(outbox_listing_limit(usize::MAX).is_err());
        assert!(audit_listing_limit(usize::MAX).is_err());
    }
    assert_eq!(journal_mode_check("wal"), Ok(()));
    assert_eq!(
        journal_mode_check("delete"),
        Err(PersistenceError::StorageOpenFailed {
            message: "SQLite requested journal mode 'WAL', got 'delete'".to_string()
        })
    );
    assert!(has_failure_message_column(&vec!["outbox_id".to_string(), "failure_message".to_string()]));
    assert!(!has_failure_message_column(&vec!["outbox_id".to_string()]));
}

fn metadata(pairs: &[(&str, &str)]) -> AuditMetadata {
    let mut m = AuditMetadata::new();
    for (k, v) in pairs {
        m.insert(k.to_string(), v.to_string());
    }
    m
}

#[test]
fn metadata_is_kept_in_key_order_and_reads_back() {
    let m = metadata(&[("operation", "state.commit"), ("attempt", "1"), ("zeta", "z"), ("attempt", "2")]);
    let keys: Vec<&str> = m.entries().iter().map(|(k, _)| k.as_str()).collect();
    assert_eq!(keys, vec!["attempt", "operation", "zeta"]);
    assert_eq!(m.entries()[0].1, "2");
    let bytes = encode_metadata(&m).unwrap();
    assert_eq!(&bytes[..4], &[3, 0, 0, 0]);
    assert_eq!(decode_metadata(&bytes), Ok(m));
    assert!(key_less("a", "b"));
    assert!(key_less("ab", "abc"));
    assert!(!key_less("abc", "ab"));
    assert!(!key_less("same", "same"));
}

#[test]
fn damaged_metadata_is_corrupt() {
    let mut encoder = Encoder::new();
    encoder.u32(2);
    encoder.string("k", "key").unwrap();
    encoder.string("v", "value").unwrap();
    encoder.string("k", "key").unwrap();
    encoder.string("w", "value").unwrap();
    let duplicate = encoder.finish();
    assert_eq!(
        decode_metadata(&duplicate),
        Err(PersistenceError::StorageCorrupt { message: "duplicate audit metadata key 'k'".to_string() })
    );
    let mut encoder = Encoder::new();
    encoder.u32(10_001);
    assert_eq!(
        decode_metadata(&encoder.finish()),
        Err(PersistenceError::StorageCorrupt {
            message: "audit metadata entry count exceeds the safety limit".to_string()
        })
    );
    let mut unsorted = Encoder::new();
    unsorted.u32(2);
    unsorted.string("b", "key").unwrap();
    unsorted.string("2", "value").unwrap();
    unsorted.string("a", "key").unwrap();
    unsorted.string("1", "value").unwrap();
    let read = decode_metadata(&unsorted.finish()).unwrap();
    assert_eq!(read, metadata(&[("a", "1"), ("b", "2")]));
    assert!(matches!(decode_metadata(&[1, 0, 0]), Err(PersistenceError::StorageCorrupt { .. })));
    let mut trailing = encode_metadata(&metadata(&[("a", "1")])).unwrap();
    trailing.push(0);
    assert!(decode_metadata(&trailing).is_err());
}

fn audit(id: u64) -> AuditRecord {
    AuditRecord {
        audit_id: id,
        record_type: "StateTransaction".to_string(),
        principal: Some("plugin-installation:a".to_string()),
        installation: Some("installation-a".to_string()),
        runtime: Some((2, 3)),
        correlation: Some("audit-correlation".to_string()),
        causation: Some(CausationRef::Invocation("audit-invocation".to_string())),
        outcome: AuditOutcome::Committed,
        metadata: metadata(&[("operation", "state.commit"), ("attempt", "1")]),
    }
}

#[test]
fn audit_records_read_back_from_their_rows() {
    let record = audit(10);
    assert_eq!(validate_audit_record(&record), Ok(()));
    let row = audit_row(&record).unwrap();
    assert_eq!(row.0, 10);
    assert_eq!(row.7.as_deref(), Some("Invocation"));
    assert_eq!(row.9, "Committed");
    assert_eq!(decode_audit_columns(row), Ok(record));
}

#[test]
fn audit_refuses_unsafe_metadata() {
    let mut record = audit(1);
    record.metadata.insert("raw_payload".to_string(), "must-not-log".to_string());
    assert_eq!(
        validate_audit_record(&record),
        Err(PersistenceError::InvalidRecord {
            message: "audit metadata key 'raw_payload' is not allowed".to_string()
        })
    );
    let mut shouting = audit(1);
    shouting.metadata.insert("API_TOKEN".to_string(), "x".to_string());
    assert!(validate_audit_record(&shouting).is_err());
    let mut blank = audit(1);
    blank.record_type = " ".to_string();
    assert_eq!(
        audit_row(&blank),
        Err(PersistenceError::InvalidRecord { message: "audit record type must not be empty".to_string() })
    );
    let mut orphan = audit(1);
    orphan.correlation = None;
    assert_eq!(
        validate_audit_record(&orphan),
        Err(PersistenceError::InvalidRecord {
            message: "audit causation requires a correlation id".to_string()
        })
    );
    let mut huge = audit(u64::MAX);
    huge.causation = None;
    assert!(matches!(audit_row(&huge), Err(PersistenceError::OutboxDeliveryFailed { .. })));
}

#[test]
fn damaged_audit_rows_are_corrupt() {
    let row = audit_row(&audit(3)).unwrap();
    let mut half_runtime = row.clone();
    half_runtime.5 = None;
    assert_eq!(
        decode_audit_columns(half_runtime),
        Err(PersistenceError::StorageCorrupt {
            message: "runtime incarnation and sequence must be present together".to_string()
        })
    );
    let mut orphan = row.clone();
    orphan.6 = None;
    assert_eq!(
        decode_audit_columns(orphan),
        Err(PersistenceError::StorageCorrupt {
            message: "audit causation exists without correlation".to_string()
        })
    );
    let mut negative = row.clone();
    negative.0 = -1;
    assert!(matches!(decode_audit_columns(negative), Err(PersistenceError::OutboxRecordCorrupt { .. })));
    let mut outcome = row;
    outcome.9 = "Maybe".to_string();
    assert!(decode_audit_columns(outcome).is_err());
}

#[test]
fn causation_columns_must_pair() {
    assert_eq!(decode_causation_columns(None, None), Ok(None));
    assert_eq!(
        decode_causation_columns(Some("Event".to_string()), Some("e".to_string())),
        Ok(Some(CausationRef::Event("e".to_string())))
    );
    assert_eq!(
        decode_causation_columns(Some("Other".to_string()), Some("e".to_string())),
        Err(PersistenceError::StorageCorrupt { message: "unknown causation kind 'Other'".to_string() })
    );
    assert_eq!(
        decode_causation_columns(None, Some("e".to_string())),
        Err(PersistenceError::StorageCorrupt {
            message: "causation kind and identity must be present together".to_string()
        })
    );
}

fn job(id: &str, state: JobState) -> JobRecord {
    JobRecord {
        job_id: id.to_string(),
        owner: "plugin-installation:installation-contract".to_string(),
        installation: Some("installation-contract".to_string()),
        state,
        deadline_millis: Some(500),
        wakeup_millis: None,
        cancellation_requested: true,
        attempt: 2,
        resource_budget: Some(200),
        recovery_policy: JobRecoveryPolicy::RetrySafe,
        correlation: Some("job-correlation".to_string()),
        causation: Some(CausationRef::Event("event-journal-1".to_string())),
    }
}

#[test]
fn jobs_read_back_from_their_rows() {
    let record = job("job-contract", JobState::Running);
    assert_eq!(validate_job_record(&record), Ok(()));
    let row = job_row(&record).unwrap();
    assert_eq!(row.3, "Running");
    assert_eq!(row.6, 1);
    assert_eq!(row.9, "RetrySafe");
    assert_eq!(decode_job_columns(row), Ok(record));
}

#[test]
fn invalid_jobs_and_rows_are_refused() {
    let mut no_id = job(" ", JobState::Pending);
    assert_eq!(
        validate_job_record(&no_id),
        Err(PersistenceError::InvalidRecord { message: "job identity must not be empty".to_string() })
    );
    no_id.job_id = "j".to_string();
    no_id.owner = "".to_string();
    assert_eq!(
        job_row(&no_id).err(),
        Some(PersistenceError::InvalidRecord { message: "job owner must be well formed".to_string() })
    );
    let row = job_row(&job("j", JobState::Waiting)).unwrap();
    let mut flag = row.clone();
    flag.6 = 2;
    assert_eq!(
        decode_job_columns(flag),
        Err(PersistenceError::StorageCorrupt {
            message: "job cancellation flag must be 0 or 1, got 2".to_string()
        })
    );
    let mut attempt = row.clone();
    attempt.7 = 1 << 40;
    assert_eq!(
        decode_job_columns(attempt),
        Err(PersistenceError::StorageCorrupt { message: "job attempt exceeds u32".to_string() })
    );
    let mut policy = row;
    policy.9 = "Sometimes".to_string();
    assert!(decode_job_columns(policy).is_err());
    assert_eq!(check_job_updated("j", 1), Ok(()));
    assert_eq!(
        check_job_updated("j", 0),
        Err(PersistenceError::JobStoreFailure { message: "job 'j' does not exist".to_string() })
    );
}

#[test]
fn recovery_interrupts_running_jobs_without_inventing_completion() {
    let jobs = vec![job("a", JobState::Running), job("b", JobState::Running)];
    let recovered = interrupt_running(jobs);
    assert_eq!(recovered.len(), 2);
    assert!(recovered.iter().all(|j| j.state == JobState::Interrupted));
    assert_eq!(recovered[1].job_id, "b");
    assert_eq!(recovered[0].attempt, 2);
}

#[test]
fn sqlite_failures_map_to_typed_errors() {
    let busy = SqliteFault::Engine { busy: true, failure: "locked".to_string(), text: "database is locked".to_string() };
    let broken = SqliteFault::Engine { busy: false, failure: "disk I/O error".to_string(), text: "disk I/O error (1)".to_string() };
    let blob = SqliteFault::Conversion { column_type: ColumnType::Blob, source: "bad blob".to_string(), text: "conv".to_string() };
    let int = SqliteFault::Conversion { column_type: ColumnType::Integer, source: "bad int".to_string(), text: "conv".to_string() };
    assert_eq!(
        map_sqlite_error("commit", &busy),
        StateError::Persistence(PersistenceError::StorageBusy { message: "database is locked".to_string() })
    );
    assert_eq!(
        map_sqlite_error("read", &blob),
        StateError::Persistence(PersistenceError::StorageCorrupt { message: "read: bad blob".to_string() })
    );
    assert_eq!(
        map_sqlite_error("read", &broken),
        StateError::Persistence(PersistenceError::StorageIoFailure {
            operation: "read".to_string(),
            message: "disk I/O error (1)".to_string()
        })
    );
    assert_eq!(
        outbox_sqlite_error("append", &busy),
        PersistenceError::StorageBusy { message: "append: database is busy".to_string() }
    );
    assert_eq!(
        outbox_sqlite_error("append", &broken),
        PersistenceError::OutboxAppendFailed { message: "append: disk I/O error".to_string() }
    );
    assert_eq!(
        audit_store_sqlite_error("list", &blob),
        PersistenceError::StorageCorrupt { message: "audit list: bad blob".to_string() }
    );
    assert_eq!(
        job_store_sqlite_error("read job", &int),
        PersistenceError::StorageCorrupt { message: "job read job: bad int".to_string() }
    );
    assert_eq!(
        job_store_sqlite_error("read job", &broken),
        PersistenceError::JobStoreFailure { message: "read job: disk I/O error".to_string() }
    );
    assert_eq!(
        open_error("open", &broken),
        PersistenceError::StorageOpenFailed { message: "open: disk I/O error (1)".to_string() }
    );
    assert_eq!(
        journal_append_sqlite_error("insert", &broken),
        EventJournalError::Failure("JournalAppendFailed: insert: disk I/O error (1)".to_string())
    );
}

#[test]
fn state_failures_become_outbox_append_failures() {
    let inner = PersistenceError::StorageBusy { message: "locked".to_string() };
    assert_eq!(state_error_to_persistence(StateError::Persistence(inner.clone())), inner);
    assert_eq!(
        state_error_to_persistence(StateError::RevisionConflict {
            installation: "inst-1".to_string(),
            expected_revision: 3,
            actual_revision: 12,
        }),
        PersistenceError::OutboxAppendFailed {
            message: "installation 'inst-1' expected revision 3 but found 12".to_string()
        }
    );
    assert_eq!(
        state_error_to_persistence(StateError::UnknownInstallation {
            installation: "ghost".to_string()
        }),
        PersistenceError::OutboxAppendFailed { message: "unknown installation 'ghost'".to_string() }
    );
}

#[test]
fn backup_and_restore_write_through_hidden_temporary_files() {
    assert_eq!(
        backup_temporary_name(Some("nightly.sqlite3"), 4321, 7),
        ".nightly.sqlite3.4321.7.tmp"
    );
    assert_eq!(backup_temporary_name(None, 1, 0), ".worldline-backup.1.0.tmp");
    assert_eq!(restore_temporary_name(12), ".worldline.sqlite3.12.restore.tmp");
}

#[test]
fn decimal_numbers_parse_as_from_str_does() {
    assert_eq!(parse_u64("18446744073709551615"), Some(u64::MAX));
    assert_eq!(parse_u64("18446744073709551616"), None);
    assert_eq!(parse_u64("+0042"), Some(42));
    assert_eq!(parse_u64("+"), None);
    assert_eq!(parse_u64(""), None);
    assert_eq!(parse_u64("-1"), None);
    assert_eq!(parse_u64(" 1"), None);
    assert_eq!(parse_u32("4294967295"), Some(u32::MAX));
    assert_eq!(parse_u32("4294967296"), None);
    for text in ["0", "7", "+9", "65536", "99999999999", "1a", "++1"] {
        assert_eq!(parse_u64(text), text.parse::<u64>().ok());
        assert_eq!(parse_u32(text), text.parse::<u32>().ok());
    }
}

#[test]
fn a_stale_transaction_cannot_overwrite_a_newer_state() {
    assert_eq!(admit_commit("inst", "first", 7, "inst", 8, 7), Ok(()));
    assert_eq!(
        admit_commit("inst", "second", 7, "inst", 8, 8),
        Err(StateError::TransactionConflict {
            installation: "inst".to_string(),
            transaction: "second".to_string(),
            expected_revision: 7,
            actual_revision: 8
        })
    );
}

#[test]
fn state_and_outbox_commit_is_admitted_as_one() {
    let record = outbox("outbox-1");
    let bytes = admit_commit_with_outbox("installation-a", "tx", 1, "installation-a", 2, 1, &record)
        .expect("acceptable outbox and fresh revision");
    assert_eq!(bytes, encode_event(&record.event).unwrap());
    assert_eq!(
        admit_commit_with_outbox("installation-b", "tx", 1, "installation-b", 2, 1, &record),
        Err(StateError::Persistence(PersistenceError::OutboxRecordCorrupt {
            message: "outbox 'outbox-1' belongs to installation 'installation-a', expected 'installation-b'"
                .to_string()
        }))
    );
    assert_eq!(
        admit_commit_with_outbox("installation-a", "tx", 1, "installation-a", 2, 2, &record),
        Err(StateError::TransactionConflict {
            installation: "installation-a".to_string(),
            transaction: "tx".to_string(),
            expected_revision: 1,
            actual_revision: 2
        })
    );
    let mut delivered = outbox("outbox-2");
    delivered.status = OutboxStatus::Delivered;
    assert_eq!(
        admit_commit_with_outbox("installation-a", "tx", 1, "installation-a", 2, 1, &delivered),
        Err(StateError::Persistence(PersistenceError::OutboxAppendFailed {
            message: "outbox 'outbox-2' must enter storage as Pending, got Delivered".to_string()
        }))
    );
}

#[test]
fn refused_rows_and_markers_say_why() {
    let row = (
        "inst".to_string(),
        "plugin".to_string(),
        2,
        "Ready".to_string(),
        -3,
        1,
    );
    assert_eq!(
        record_from_columns(row),
        Err(StateError::Persistence(PersistenceError::StorageCorrupt {
            message: "revision contains negative value -3".to_string()
        }))
    );
    assert_eq!(
        check_backup_format("0", 1),
        Err(PersistenceError::RestoreValidationFailed {
            message: "backup storage format 0 does not match supported format 1".to_string()
        })
    );
    assert_eq!(
        optional_integer(Some(u64::MAX), "job deadline"),
        Err(PersistenceError::OutboxDeliveryFailed {
            message: "job deadline exceeds SQLite integer range".to_string()
        })
    );
    assert_eq!(
        optional_unsigned(Some(-2), "job deadline"),
        Err(PersistenceError::OutboxRecordCorrupt {
            message: "job deadline contains negative value -2".to_string()
        })
    );
}

#[test]
fn delivered_and_failed_outbox_records_stay_final() {
    for final_status in [OutboxStatus::Delivered, OutboxStatus::Failed] {
        let mut record = outbox("outbox-final");
        record.status = final_status;
        record.attempt_count = 3;
        let _ = mark_delivering(&mut record);
        assert_eq!(record.status, final_status);
        let _ = mark_delivered(&mut record);
        assert_eq!(record.status, final_status);
        let _ = mark_failed(&mut record, "late failure");
        assert_eq!(record.status, final_status);
        assert_eq!(record.attempt_count, 3);
    }
}

#[test]
fn deleting_an_unknown_installation_is_refused() {
    assert_eq!(admit_installation_deletion("inst", 1), Ok(()));
    assert_eq!(
        admit_installation_deletion("ghost", 0),
        Err(StateError::UnknownInstallation { installation: "ghost".to_string() })
    );
}

#[test]
fn damaged_rows_name_the_first_failed_check() {
    let event = envelope("event-1");
    let bytes = encode_event(&event).unwrap();
    let columns = (
        "outbox-9".to_string(),
        "installation-a".to_string(),
        "event-1".to_string(),
        "Pending".to_string(),
        0i64,
        10i64,
        100i64,
        bytes,
    );
    let mut wrong_event = columns.clone();
    wrong_event.2 = "event-2".to_string();
    assert_eq!(
        decode_outbox_columns(wrong_event),
        Err(PersistenceError::OutboxRecordCorrupt {
            message: "outbox 'outbox-9' column event id 'event-2' does not match envelope 'event-1'"
                .to_string()
        })
    );
    let mut lost = columns.clone();
    lost.3 = "Lost".to_string();
    assert_eq!(
        decode_outbox_columns(lost),
        Err(PersistenceError::OutboxRecordCorrupt { message: "unknown outbox status 'Lost'".to_string() })
    );
    let mut negative = columns.clone();
    negative.5 = -1;
    assert_eq!(
        decode_outbox_columns(negative),
        Err(PersistenceError::OutboxRecordCorrupt {
            message: "outbox sequence contains negative value -1".to_string()
        })
    );
    let mut garbage = columns;
    garbage.7 = vec![1, 2, 3];
    match decode_outbox_columns(garbage) {
        Err(PersistenceError::OutboxRecordCorrupt { message }) => {
            assert!(message.starts_with("outbox 'outbox-9' event: "), "{message}")
        }
        other => panic!("unexpected {other:?}"),
    }

    let audit_columns = audit_row(&audit(3)).unwrap();
    let mut negative_audit = audit_columns.clone();
    negative_audit.0 = -4;
    assert_eq!(
        decode_audit_columns(negative_audit),
        Err(PersistenceError::OutboxRecordCorrupt {
            message: "audit id contains negative value -4".to_string()
        })
    );
    let mut outcome = audit_columns;
    outcome.9 = "Maybe".to_string();
    assert_eq!(
        decode_audit_columns(outcome),
        Err(PersistenceError::StorageCorrupt { message: "unknown audit outcome 'Maybe'".to_string() })
    );

    let job_columns = job_row(&job("j", JobState::Waiting)).unwrap();
    let mut policy = job_columns.clone();
    policy.9 = "Sometimes".to_string();
    assert_eq!(
        decode_job_columns(policy),
        Err(PersistenceError::StorageCorrupt {
            message: "unknown job recovery policy 'Sometimes'".to_string()
        })
    );
    let mut wakeup = job_columns;
    wakeup.5 = Some(-9);
    assert_eq!(
        decode_job_columns(wakeup),
        Err(PersistenceError::OutboxRecordCorrupt {
            message: "job wakeup contains negative value -9".to_string()
        })
    );
}

#[test]
fn oversized_event_fields_are_named_in_the_refusal() {
    let mut long_name = envelope("event-1");
    long_name.name = "n".repeat(1_048_577);
    assert_eq!(
        encode_event(&long_name),
        Err("event name exceeds the storage record limit".to_string())
    );
    assert_eq!(
        prepare_journal_append(&long_name),
        Err(EventJournalError::Failure(
            "JournalAppendFailed: event name exceeds the storage record limit".to_string()
        ))
    );
    let mut long_causation = envelope("event-1");
    long_causation.causation = Some(CausationRef::Event("e".repeat(1_048_577)));
    assert_eq!(
        encode_event(&long_causation),
        Err("causation event exceeds the storage record limit".to_string())
    );
    let mut long_operation = envelope("event-1");
    if let Some(completed) = long_operation.invocation_completed.as_mut() {
        completed.operation = "o".repeat(1_048_577);
    }
    assert_eq!(
        encode_event(&long_operation),
        Err("completed operation exceeds the storage record limit".to_string())
    );
}

#[test]
fn journal_refusals_name_the_replay_failure() {
    let event = envelope("event-journal-1");
    let (record, digest) = prepare_journal_append(&event).unwrap();
    assert_eq!(
        verify_journal_row(1, "event-journal-1", &[0u8], &digest),
        Err(EventJournalError::Failure("JournalReplayFailed: hash mismatch at sequence 1".to_string()))
    );
    assert_eq!(
        verify_journal_row(0, "event-journal-1", &record, &digest),
        Err(EventJournalError::Failure("JournalReplayFailed: invalid journal sequence".to_string()))
    );
    assert_eq!(
        verify_journal_row(7, "other-event", &record, &digest),
        Err(EventJournalError::Failure(
            "JournalReplayFailed: envelope identity or delivery mode mismatch at sequence 7".to_string()
        ))
    );
    assert_eq!(verify_journal_row(7, "event-journal-1", &record, &digest), Ok(event));
}

#[test]
fn stored_event_bytes_with_trailing_bytes_are_refused() {
    let event = envelope("event-1");
    let bytes = encode_event(&event).unwrap();
    assert_eq!(decode_event(&bytes), Ok(event));
    for extra in [vec![0u8], vec![1, 2, 3]] {
        let longer = [bytes.clone(), extra].concat();
        assert!(decode_event(&longer).is_err());
    }
}

#[test]
fn malformed_completed_contracts_and_outcome_codes_are_named() {
    assert_eq!(decode_outcome(12), Err("unknown RPC outcome code 12".to_string()));
    assert_eq!(decode_outcome(255), Err("unknown RPC outcome code 255".to_string()));
    let mut event = envelope("event-1");
    if let Some(completed) = event.invocation_completed.as_mut() {
        completed.capability_namespace = " ".to_string();
    }
    let bytes = encode_event(&event).unwrap();
    assert_eq!(decode_event(&bytes), Err("completed capability contract is malformed".to_string()));
    let longer = [bytes, vec![0u8]].concat();
    assert_eq!(decode_event(&longer), Err("completed capability contract is malformed".to_string()));
}
