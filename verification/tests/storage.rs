use geckopanda::backends::googledrive::drive_entry_metadata;
use geckopanda::backends::localdisk::disk_entry_metadata;
use geckopanda::backends::s3compat::s3_object_metadata;
use geckopanda::backends::s3compat::Backend;
use geckopanda::backends::memory::MemoryStorage;
use geckopanda::backends::s3compat::check_status;
use geckopanda::{Error, ObjectMetadata, Storage};

#[test]
fn crud_round_trip() {
    let mut storage = MemoryStorage::new();
    assert_eq!(storage.list().expect("list").len(), 0);

    let id = storage.create("f").expect("create");
    assert_eq!(id, "f");
    assert_eq!(storage.list().expect("list").len(), 1);

    storage.update(&id, b"abc").expect("update");
    assert_eq!(storage.get(&id).expect("get"), b"abc");

    storage.delete(&id).expect("delete");
    assert_eq!(storage.list().expect("list").len(), 0);
    assert!(matches!(storage.get(&id), Err(Error::NotFound)));
}

#[test]
fn missing_object_errors() {
    let mut storage = MemoryStorage::new();
    storage.create("present").expect("create");
    assert!(matches!(storage.get("absent"), Err(Error::NotFound)));
    assert!(matches!(
        storage.update("absent", b"data"),
        Err(Error::NotFound)
    ));
    assert!(matches!(storage.delete("absent"), Err(Error::NotFound)));
    // the store is untouched by the failed calls
    assert_eq!(storage.list().expect("list").len(), 1);
    assert_eq!(storage.get("present").expect("get"), b"");
}

#[test]
fn encrypted_crud() {
    let mut storage = MemoryStorage::new();
    let id = storage.create("f").expect("create");
    storage
        .update_encrypt(&id, b"secret", "key")
        .expect("update_encrypt");

    let raw = storage.get(&id).expect("get");
    assert_ne!(raw, b"secret");
    assert_eq!(raw.len(), b"secret".len() + 28);

    let opened = storage.get_decrypt(&id, "key").expect("get_decrypt");
    assert_eq!(opened, b"secret");

    assert!(matches!(
        storage.get_decrypt(&id, "other key"),
        Err(Error::DecryptionFailure)
    ));
}

#[test]
fn encrypted_ops_on_missing_id() {
    let mut storage = MemoryStorage::new();
    assert!(matches!(
        storage.update_encrypt("absent", b"data", "key"),
        Err(Error::NotFound)
    ));
    assert!(matches!(
        storage.get_decrypt("absent", "key"),
        Err(Error::NotFound)
    ));
}

#[test]
fn create_resets_existing_object() {
    let mut storage = MemoryStorage::new();
    let id = storage.create("f").expect("create");
    storage.update(&id, b"payload").expect("update");
    let id_again = storage.create("f").expect("create again");
    assert_eq!(id, id_again);
    assert_eq!(storage.list().expect("list").len(), 1);
    assert_eq!(storage.get(&id).expect("get"), b"");
}

#[test]
fn listing_carries_names_and_sizes() {
    let mut storage = MemoryStorage::new();
    storage.create("a").expect("create");
    storage.create("b").expect("create");
    storage.update("b", b"12345").expect("update");

    let mut listing = storage.list().expect("list");
    listing.sort_by(|x, y| x.id.cmp(&y.id));
    assert_eq!(listing.len(), 2);
    assert_eq!(listing[0].id, "a");
    assert_eq!(listing[0].name, "a");
    assert_eq!(listing[0].size, 0);
    assert_eq!(listing[1].id, "b");
    assert_eq!(listing[1].size, 5);
}

#[test]
fn object_metadata_holds_its_fields() {
    let m = ObjectMetadata::new("id0", "name0", "2021-01-01", 42);
    assert_eq!(m.id, "id0");
    assert_eq!(m.name, "name0");
    assert_eq!(m.last_modified, "2021-01-01");
    assert_eq!(m.size, 42);
}

#[test]
fn check_status_boundary() {
    assert!(check_status(0).is_ok());
    assert!(check_status(200).is_ok());
    assert!(check_status(299).is_ok());
    assert!(check_status(300).is_err());
    assert!(check_status(500).is_err());
}

#[test]
fn check_status_reports_the_code() {
    match check_status(404) {
        Err(Error::Backend(msg)) => assert_eq!(msg, "404"),
        other => panic!("expected a backend error, got {other:?}"),
    }
    match check_status(65535) {
        Err(Error::Backend(msg)) => assert_eq!(msg, "65535"),
        other => panic!("expected a backend error, got {other:?}"),
    }
}

#[test]
fn drive_entry_kept() {
    let m = drive_entry_metadata(
        Some(false),
        Some(false),
        Some("id1".to_owned()),
        Some("file one".to_owned()),
        Some("2023-05-01T10:00:00Z".to_owned()),
        Some(1234),
    )
    .expect("kept");
    assert_eq!(m.id, "id1");
    assert_eq!(m.name, "file one");
    assert_eq!(m.last_modified, "2023-05-01T10:00:00Z");
    assert_eq!(m.size, 1234);
}

#[test]
fn drive_entry_skipped() {
    let full = |trashed: Option<bool>, explicit: Option<bool>| {
        drive_entry_metadata(
            trashed,
            explicit,
            Some("id".to_owned()),
            Some("name".to_owned()),
            Some("time".to_owned()),
            Some(1),
        )
    };
    assert!(full(Some(true), Some(false)).is_none());
    assert!(full(Some(false), Some(true)).is_none());
    assert!(full(None, Some(false)).is_none());
    assert!(full(Some(false), None).is_none());
    assert!(drive_entry_metadata(
        Some(false),
        Some(false),
        None,
        Some("name".to_owned()),
        Some("time".to_owned()),
        Some(1)
    )
    .is_none());
    assert!(drive_entry_metadata(
        Some(false),
        Some(false),
        Some("id".to_owned()),
        Some("name".to_owned()),
        Some("time".to_owned()),
        None
    )
    .is_none());
}

#[test]
fn s3_backend_constructors() {
    assert!(Backend::new("bucket", "us-east-1", "secret", "access").is_ok());
    assert!(Backend::new("bucket", "unknown-region", "secret", "access").is_ok());
    assert!(Backend::new_israel("bucket", "secret", "access").is_ok());
}

#[test]
fn s3_object_metadata_uses_key_twice() {
    let m = s3_object_metadata("some/key.txt", "2022-02-02T00:00:00Z", 77);
    assert_eq!(m.id, "some/key.txt");
    assert_eq!(m.name, "some/key.txt");
    assert_eq!(m.last_modified, "2022-02-02T00:00:00Z");
    assert_eq!(m.size, 77);
}

#[test]
fn disk_entry_kept_and_skipped() {
    let m = disk_entry_metadata(
        Some("file.bin".to_owned()),
        Some("SystemTime(123)".to_owned()),
        Some(9),
    )
    .expect("kept");
    assert_eq!(m.id, "file.bin");
    assert_eq!(m.name, "file.bin");
    assert_eq!(m.last_modified, "SystemTime(123)");
    assert_eq!(m.size, 9);

    assert!(disk_entry_metadata(None, Some("t".to_owned()), Some(1)).is_none());
    assert!(disk_entry_metadata(Some("f".to_owned()), None, Some(1)).is_none());
    assert!(disk_entry_metadata(Some("f".to_owned()), Some("t".to_owned()), None).is_none());
}
