use password_store::{PasswordManager, StoreError};

#[test]
fn crud_scenario() {
    let mut store = PasswordManager::new("master password", ":memory:").unwrap();

    let listed = store.list_services().unwrap();
    assert_eq!(listed, Vec::<(String, String)>::new());

    store.add_password("github.com", "alice", "s3cr3t").unwrap();
    assert_eq!(store.get_password("github.com", "alice").unwrap(), "s3cr3t");

    let listed = store.list_services().unwrap();
    assert_eq!(listed, vec![("github.com".to_string(), "alice".to_string())]);

    let removed = store.delete_password("github.com", "alice").unwrap();
    assert_eq!(removed, 1);

    assert_eq!(
        store.get_password("github.com", "alice"),
        Err(StoreError::NotFound)
    );
}

#[test]
fn get_on_empty_store_reports_not_found() {
    let store = PasswordManager::new("master password", ":memory:").unwrap();
    assert_eq!(store.get_password("github.com", "alice"), Err(StoreError::NotFound));
    assert_eq!(store.get_password("", ""), Err(StoreError::NotFound));
}

#[test]
fn delete_on_empty_store_reports_not_found() {
    let mut store = PasswordManager::new("master password", ":memory:").unwrap();
    assert_eq!(store.delete_password("github.com", "alice"), Err(StoreError::NotFound));
    assert_eq!(store.delete_password("", ""), Err(StoreError::NotFound));
}

#[test]
fn duplicate_pairs_coexist_and_get_reads_the_newest() {
    let mut store = PasswordManager::new("master password", ":memory:").unwrap();
    store.add_password("github.com", "alice", "older secret").unwrap();
    store.add_password("github.com", "alice", "newer secret").unwrap();

    assert_eq!(store.get_password("github.com", "alice").unwrap(), "newer secret");
    assert_eq!(store.list_services().unwrap().len(), 2);

    let removed = store.delete_password("github.com", "alice").unwrap();
    assert_eq!(removed, 2);
    assert_eq!(store.list_services().unwrap().len(), 0);
}

#[test]
fn delete_removes_only_the_named_pair() {
    let mut store = PasswordManager::new("master password", ":memory:").unwrap();
    store.add_password("github.com", "alice", "one").unwrap();
    store.add_password("github.com", "bob", "two").unwrap();
    store.add_password("mail.example", "alice", "three").unwrap();

    assert_eq!(store.delete_password("github.com", "alice").unwrap(), 1);
    let listed = store.list_services().unwrap();
    assert_eq!(
        listed,
        vec![
            ("github.com".to_string(), "bob".to_string()),
            ("mail.example".to_string(), "alice".to_string()),
        ]
    );
    assert_eq!(store.get_password("github.com", "bob").unwrap(), "two");
}

#[test]
fn list_keeps_storage_order() {
    let mut store = PasswordManager::new("master password", ":memory:").unwrap();
    store.add_password("svc-b", "user-b", "two").unwrap();
    store.add_password("svc-a", "user-a", "one").unwrap();
    store.add_password("svc-c", "user-c", "three").unwrap();
    let listed = store.list_services().unwrap();
    assert_eq!(
        listed,
        vec![
            ("svc-b".to_string(), "user-b".to_string()),
            ("svc-a".to_string(), "user-a".to_string()),
            ("svc-c".to_string(), "user-c".to_string()),
        ]
    );
}

#[test]
fn reopening_the_store_keeps_entries_readable() {
    // A shared-cache in-memory database outlives one connection while
    // another holds it open, so a second open sees the first one's
    // rows and recorded salt.
    let uri = "file:reopen_keeps_entries?mode=memory&cache=shared";
    let mut first = PasswordManager::new("master password", uri).unwrap();
    first.add_password("github.com", "alice", "s3cr3t").unwrap();

    let second = PasswordManager::new("master password", uri).unwrap();
    assert_eq!(second.get_password("github.com", "alice").unwrap(), "s3cr3t");
    assert_eq!(second.list_services().unwrap().len(), 1);
}

#[test]
fn provisioning_twice_neither_fails_nor_resets_data() {
    let uri = "file:provision_twice?mode=memory&cache=shared";
    let mut first = PasswordManager::new("master password", uri).unwrap();
    first.add_password("github.com", "alice", "s3cr3t").unwrap();

    let second = PasswordManager::new("master password", uri).unwrap();
    let third = PasswordManager::new("master password", uri).unwrap();
    assert_eq!(second.list_services().unwrap().len(), 1);
    assert_eq!(third.get_password("github.com", "alice").unwrap(), "s3cr3t");
}

#[test]
fn wrong_master_password_fails_decryption() {
    let uri = "file:wrong_password?mode=memory&cache=shared";
    let mut first = PasswordManager::new("right password", uri).unwrap();
    first.add_password("github.com", "alice", "s3cr3t").unwrap();

    let second = PasswordManager::new("wrong password", uri).unwrap();
    assert_eq!(
        second.get_password("github.com", "alice"),
        Err(StoreError::DecryptionFailure)
    );
    // The pair is still listed: listing never decrypts.
    assert_eq!(second.list_services().unwrap().len(), 1);
}

#[test]
fn unusable_path_reports_store_unavailable() {
    let result = PasswordManager::new("master password", "/no/such/directory/anywhere/store.db");
    assert_eq!(result.err(), Some(StoreError::StoreUnavailable));
}

#[test]
fn lost_table_reports_read_and_write_failures() {
    let uri = "file:lost_table?mode=memory&cache=shared";
    let mut store = PasswordManager::new("master password", uri).unwrap();
    store.add_password("github.com", "alice", "s3cr3t").unwrap();

    // Pull the table out from under the open store.
    let raw = rusqlite::Connection::open(uri).unwrap();
    raw.execute_batch("DROP TABLE passwords").unwrap();

    assert_eq!(
        store.get_password("github.com", "alice"),
        Err(StoreError::StoreReadFailure)
    );
    assert_eq!(store.list_services(), Err(StoreError::StoreReadFailure));
    assert_eq!(
        store.add_password("github.com", "alice", "again"),
        Err(StoreError::StoreWriteFailure)
    );
    assert_eq!(
        store.delete_password("github.com", "alice"),
        Err(StoreError::StoreWriteFailure)
    );
}

#[test]
fn stored_text_is_not_the_secret() {
    // The persisted columns hold base64 of the sealed secret, never the
    // secret itself.
    let uri = "file:stored_text?mode=memory&cache=shared";
    let mut store = PasswordManager::new("master password", uri).unwrap();
    store.add_password("github.com", "alice", "s3cr3t").unwrap();

    let raw = rusqlite::Connection::open(uri).unwrap();
    let (stored_secret, stored_nonce): (String, String) = raw
        .query_row(
            "SELECT encrypted_password, nonce FROM passwords",
            [],
            |row| Ok((row.get(0)?, row.get(1)?)),
        )
        .unwrap();
    assert_ne!(stored_secret, "s3cr3t");
    assert!(!stored_secret.contains("s3cr3t"));
    // Both columns decode as base64: 22 ciphertext bytes and 12 nonce
    // bytes make 32 and 16 characters of base64 text.
    assert_eq!(stored_secret.len(), 32);
    assert_eq!(stored_nonce.len(), 16);
}

#[test]
fn error_messages_are_distinct() {
    let errors = [
        StoreError::EncryptionFailure,
        StoreError::DecryptionFailure,
        StoreError::NotFound,
        StoreError::StoreUnavailable,
        StoreError::StoreWriteFailure,
        StoreError::StoreReadFailure,
    ];
    for i in 0..errors.len() {
        assert!(!errors[i].message().is_empty());
        for j in (i + 1)..errors.len() {
            assert_ne!(errors[i].message(), errors[j].message());
        }
    }
}
