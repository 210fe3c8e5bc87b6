use worldline_host::blob::{
    blob_id_for_digest, digest_id, temporary_file_name, verify_content, BlobId, BlobReadBroker,
    BlobReadError, FilesystemBlobStore, BLOB_READ_CAPABILITY,
};
use worldline_host::errors::PersistenceError;

#[test]
fn content_identity_is_the_lowercase_sha256_digest() {
    let id = digest_id(b"");
    assert_eq!(
        id.as_str(),
        "sha256-v1-e3b0c44298fc1c149afbf4c8996fb92427ae41e4649b934ca495991b7852b855"
    );
    let id = digest_id(b"abc");
    assert_eq!(
        id.as_str(),
        "sha256-v1-ba7816bf8f01cfea414140de5dae2223b00361a396177a9cb410ff61f20015ad"
    );
    assert_eq!(digest_id(b"immutable content"), digest_id(b"immutable content"));
    assert_ne!(digest_id(b"a"), digest_id(b"b"));
    assert_eq!(blob_id_for_digest(&[0x00, 0xff, 0x1a]), "sha256-v1-00ff1a");
}

#[test]
fn blob_ids_must_be_digest_shaped() {
    let zero = format!("sha256-v1-{}", "0".repeat(64));
    assert_eq!(BlobId::new(zero.clone()).map(|id| id.as_str().to_string()), Ok(zero));
    assert!(BlobId::new(format!("sha256-v1-{}", "A".repeat(64))).is_err());
    assert!(BlobId::new("sha256-v1-00".to_string()).is_err());
    assert_eq!(
        BlobId::new("../etc/passwd".to_string()),
        Err("blob id '../etc/passwd' is not 'sha256-v1-' followed by 64 lowercase hex digits".to_string())
    );
}

#[test]
fn corrupted_content_does_not_verify() {
    let id = digest_id(b"corruptible content");
    assert_eq!(verify_content(&id, b"corruptible content"), Ok(()));
    assert_eq!(
        verify_content(&id, b"corrupted"),
        Err(PersistenceError::BlobCorrupt { id: id.as_str().to_string() })
    );
}

#[test]
fn read_grants_are_exact_tuples() {
    let id = digest_id(b"immutable content");
    let mut broker = BlobReadBroker::new();
    assert_eq!(
        broker.issue("downloads-metadata-reader".to_string(), "browser.downloads.read", id.as_str().to_string()).err(),
        Some("capability 'browser.downloads.read' cannot authorize generic blob reads".to_string())
    );
    assert_eq!(
        broker.issue("reader".to_string(), BLOB_READ_CAPABILITY, "nope".to_string()).err(),
        Some("invalid blob scope for read grant: blob id 'nope' is not 'sha256-v1-' followed by 64 lowercase hex digits".to_string())
    );
    assert_eq!(
        broker.issue(String::new(), BLOB_READ_CAPABILITY, id.as_str().to_string()).err(),
        Some("blob read grant requires a principal".to_string())
    );
    let grant = broker
        .issue("generic-blob-reader".to_string(), BLOB_READ_CAPABILITY, id.as_str().to_string())
        .expect("generic blob broker must issue an exact grant");
    assert_eq!(grant.principal_id(), "generic-blob-reader");
    assert_eq!(grant.capability(), "blob.read");
    assert_eq!(grant.blob_id(), id.as_str());
    assert!(grant.is_active(&broker));
    assert!(!grant.is_active(&BlobReadBroker::new()));
    let again = broker
        .issue("generic-blob-reader".to_string(), BLOB_READ_CAPABILITY, id.as_str().to_string())
        .unwrap();
    assert!(again.is_active(&broker));
}

#[test]
fn reads_need_authority_for_the_exact_blob() {
    let store = FilesystemBlobStore::from_roots("/profile".to_string(), "/profile/blobs".to_string());
    assert_eq!(store.profile_root(), "/profile");
    assert_eq!(store.blob_root(), "/profile/blobs");
    let id = digest_id(b"immutable content");
    let other = digest_id(b"other content");
    let mut broker = BlobReadBroker::new();
    let grant = broker
        .issue("reader".to_string(), BLOB_READ_CAPABILITY, id.as_str().to_string())
        .unwrap();
    assert_eq!(
        store.get_with_authority(&broker, &id, &grant, Ok(b"immutable content".to_vec())),
        Ok(b"immutable content".to_vec())
    );
    assert_eq!(
        store.get_with_authority(&broker, &other, &grant, Ok(b"other content".to_vec())),
        Err(BlobReadError::AccessDenied {
            principal_id: "reader".to_string(),
            blob_id: other.as_str().to_string()
        })
    );
    assert_eq!(
        store.get_with_authority(&BlobReadBroker::new(), &id, &grant, Ok(b"immutable content".to_vec())),
        Err(BlobReadError::AccessDenied {
            principal_id: "reader".to_string(),
            blob_id: id.as_str().to_string()
        })
    );
    assert_eq!(
        store.get_with_authority(&broker, &id, &grant, Ok(b"tampered".to_vec())),
        Err(BlobReadError::Storage(PersistenceError::BlobCorrupt { id: id.as_str().to_string() }))
    );
    let missing = PersistenceError::BlobNotFound { id: id.as_str().to_string() };
    assert_eq!(
        store.get_with_authority(&broker, &id, &grant, Err(missing.clone())),
        Err(BlobReadError::Storage(missing))
    );
}

#[test]
fn temporary_blob_files_are_hidden_and_unique() {
    let id = digest_id(b"x");
    let name = temporary_file_name(&id, 42, 7);
    assert_eq!(name, format!(".{}.42.7.tmp", id.as_str()));
    assert!(name.starts_with('.') && name.ends_with(".tmp"));
    assert_ne!(name, temporary_file_name(&id, 42, 8));
}

#[test]
fn the_store_admits_only_the_granted_blob() {
    let store = FilesystemBlobStore::from_roots("/profile".to_string(), "/profile/blobs".to_string());
    let id = digest_id(b"granted");
    let other = digest_id(b"not granted");
    let mut broker = BlobReadBroker::new();
    let grant = broker
        .issue("reader".to_string(), BLOB_READ_CAPABILITY, id.as_str().to_string())
        .unwrap();
    assert!(store.admits(&broker, &id, &grant));
    assert!(!store.admits(&broker, &other, &grant));
    assert!(!store.admits(&BlobReadBroker::new(), &id, &grant));
}

#[test]
fn a_cloned_grant_is_the_same_grant() {
    let id = digest_id(b"shared");
    let mut broker = BlobReadBroker::new();
    let grant = broker
        .issue("reader".to_string(), BLOB_READ_CAPABILITY, id.as_str().to_string())
        .unwrap();
    let copy = grant.clone();
    assert_eq!(
        (copy.principal_id(), copy.capability(), copy.blob_id()),
        (grant.principal_id(), grant.capability(), grant.blob_id())
    );
    assert!(copy.is_active(&broker));
    broker
        .issue("other".to_string(), BLOB_READ_CAPABILITY, id.as_str().to_string())
        .unwrap();
    assert!(copy.is_active(&broker) && grant.is_active(&broker));
}
