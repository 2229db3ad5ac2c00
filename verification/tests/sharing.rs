use fileshare_core::crypto::EnvelopeCipher;
use fileshare_core::errors::{AuthError, CreateLinkError, StoreError};
use fileshare_core::models::User;
use fileshare_core::store::Store;

fn cipher() -> EnvelopeCipher {
    EnvelopeCipher::new(vec![9u8; 32])
}

fn user(id: u128, name: &str, email: &str) -> User {
    User {
        id,
        username: name.to_string(),
        email: email.to_string(),
        password: "hashed-elsewhere".to_string(),
        public_key: None,
        created_at: Some(1_000),
        updated_at: None,
    }
}

const T0: i64 = 1_700_000_000_000;
const HOUR: i64 = 3_600_000;

#[test]
fn scenario_upload_share_fetch_expire() {
    // Upload "report.pdf" for user U, share it with a password and a
    // one-hour lifetime, fetch with right and wrong credentials, then let
    // the clock pass the expiration.
    let cipher = cipher();
    let mut store = Store::new();
    store.add_user(user(1, "u", "u@example.com")).unwrap();
    let bytes = b"%PDF-1.4..".to_vec();
    assert_eq!(bytes.len(), 10);
    let file_id = store
        .store_file(&cipher, Some(1), "report.pdf".to_string(), "application/pdf".to_string(), &bytes, T0)
        .unwrap();
    let link_id = store
        .create_link(file_id, None, Some("s3cr3t"), T0 + HOUR, T0)
        .unwrap();

    let fetched = store.authorize_and_fetch(&cipher, link_id, "s3cr3t", T0 + 1).unwrap();
    assert_eq!(fetched.plaintext, bytes);
    assert_eq!(fetched.filename, "report.pdf");
    assert_eq!(fetched.filetype, "application/pdf");

    let wrong = store.authorize_and_fetch(&cipher, link_id, "wrong", T0 + 1);
    assert_eq!(wrong.unwrap_err(), AuthError::InvalidPassword);

    // Past the expiration the link is gone for every caller, reaper or not.
    let late = store.authorize_and_fetch(&cipher, link_id, "s3cr3t", T0 + HOUR);
    assert_eq!(late.unwrap_err(), AuthError::NotFound);
}

#[test]
fn password_gate_both_ways() {
    let cipher = cipher();
    let mut store = Store::new();
    let file_id = store
        .store_file(&cipher, None, "f".to_string(), "t".to_string(), b"data", T0)
        .unwrap();
    let gated = store.create_link(file_id, None, Some("correct"), T0 + HOUR, T0).unwrap();
    let open = store.create_link(file_id, None, None, T0 + HOUR, T0).unwrap();

    assert!(store.authorize_and_fetch(&cipher, gated, "correct", T0).is_ok());
    assert_eq!(
        store.authorize_and_fetch(&cipher, gated, "wrong", T0).unwrap_err(),
        AuthError::InvalidPassword
    );
    // An open link admits any attempt.
    assert!(store.authorize_and_fetch(&cipher, open, "anything", T0).is_ok());
}

#[test]
fn expiration_boundary_is_strict() {
    let cipher = cipher();
    let mut store = Store::new();
    let file_id = store
        .store_file(&cipher, None, "f".to_string(), "t".to_string(), b"data", T0)
        .unwrap();
    // Expiration strictly in the future is required at creation.
    assert_eq!(
        store.create_link(file_id, None, None, T0, T0).unwrap_err(),
        CreateLinkError::ExpirationNotInFuture
    );
    assert_eq!(
        store.create_link(file_id, None, None, T0 - 1, T0).unwrap_err(),
        CreateLinkError::ExpirationNotInFuture
    );
    let link = store.create_link(file_id, None, None, T0 + 1_000, T0).unwrap();
    // Valid strictly before the instant, invalid at and after it.
    assert!(store.authorize_and_fetch(&cipher, link, "", T0 + 999).is_ok());
    assert_eq!(
        store.authorize_and_fetch(&cipher, link, "", T0 + 1_000).unwrap_err(),
        AuthError::NotFound
    );
    assert_eq!(
        store.authorize_and_fetch(&cipher, link, "", T0 + 2_000).unwrap_err(),
        AuthError::NotFound
    );
}

#[test]
fn create_link_rejects_missing_file() {
    let mut store = Store::new();
    assert_eq!(
        store.create_link(42, None, None, T0 + HOUR, T0).unwrap_err(),
        CreateLinkError::FileNotFound
    );
}

#[test]
fn unknown_and_purged_links_are_indistinguishable() {
    let cipher = cipher();
    let mut store = Store::new();
    let file_id = store
        .store_file(&cipher, Some(1), "f".to_string(), "t".to_string(), b"data", T0)
        .unwrap();
    let link = store.create_link(file_id, None, None, T0 + 1_000, T0).unwrap();

    let never_existed = store.authorize_and_fetch(&cipher, 123_456, "", T0).unwrap_err();
    // Purge the expired link, then ask again.
    let (reaped_links, reaped_files) = store.sweep(T0 + 1_000);
    assert_eq!(reaped_links, 1);
    assert_eq!(reaped_files, 0); // the file is owner-retained
    let post_purge = store.authorize_and_fetch(&cipher, link, "", T0 + 1_000).unwrap_err();
    assert_eq!(never_existed, AuthError::NotFound);
    assert_eq!(post_purge, never_existed);
}

#[test]
fn sweep_is_idempotent() {
    let cipher = cipher();
    let mut store = Store::new();
    // An orphaned file (no owner) shared twice; both links expire.
    let file_id = store
        .store_file(&cipher, None, "f".to_string(), "t".to_string(), b"data", T0)
        .unwrap();
    store.create_link(file_id, None, None, T0 + 1, T0).unwrap();
    store.create_link(file_id, None, None, T0 + 2, T0).unwrap();
    let keeper = store
        .store_file(&cipher, None, "keep".to_string(), "t".to_string(), b"data", T0)
        .unwrap();
    store.create_link(keeper, None, None, T0 + HOUR, T0).unwrap();

    let (l1, f1) = store.sweep(T0 + 10);
    assert_eq!((l1, f1), (2, 1));
    let (l2, f2) = store.sweep(T0 + 10);
    assert_eq!((l2, f2), (0, 0));
    // The file with a live link and its link both survived.
    assert_eq!(store.links.len(), 1);
    assert_eq!(store.files.len(), 1);
    assert!(store.load(keeper).is_some());
}

#[test]
fn sweep_never_touches_live_records() {
    let cipher = cipher();
    let mut store = Store::new();
    let file_id = store
        .store_file(&cipher, None, "f".to_string(), "t".to_string(), b"payload", T0)
        .unwrap();
    let link = store.create_link(file_id, None, Some("pw-123456"), T0 + HOUR, T0).unwrap();
    store.sweep(T0 + 1);
    let fetched = store.authorize_and_fetch(&cipher, link, "pw-123456", T0 + 2).unwrap();
    assert_eq!(fetched.plaintext, b"payload".to_vec());
}

#[test]
fn sweep_keeps_never_shared_files() {
    let cipher = cipher();
    let mut store = Store::new();
    // Ownerless but never shared: the sweep has no business deleting it.
    let file_id = store
        .store_file(&cipher, None, "f".to_string(), "t".to_string(), b"data", T0)
        .unwrap();
    let (l, f) = store.sweep(T0 + HOUR);
    assert_eq!((l, f), (0, 0));
    assert!(store.load(file_id).is_some());
}

#[test]
fn revoke_requires_ownership_and_removes_access() {
    let cipher = cipher();
    let mut store = Store::new();
    store.add_user(user(1, "owner", "o@example.com")).unwrap();
    store.add_user(user(2, "other", "x@example.com")).unwrap();
    let file_id = store
        .store_file(&cipher, Some(1), "f".to_string(), "t".to_string(), b"data", T0)
        .unwrap();
    let link = store.create_link(file_id, Some(2), None, T0 + HOUR, T0).unwrap();

    assert_eq!(store.revoke(link, 2).unwrap_err(), AuthError::Forbidden);
    assert_eq!(store.revoke(999, 1).unwrap_err(), AuthError::NotFound);
    store.revoke(link, 1).unwrap();
    assert_eq!(
        store.authorize_and_fetch(&cipher, link, "", T0).unwrap_err(),
        AuthError::NotFound
    );
}

#[test]
fn delete_file_cascades_to_links() {
    let cipher = cipher();
    let mut store = Store::new();
    let a = store
        .store_file(&cipher, Some(1), "a".to_string(), "t".to_string(), b"aa", T0)
        .unwrap();
    let b = store
        .store_file(&cipher, Some(1), "b".to_string(), "t".to_string(), b"bb", T0)
        .unwrap();
    store.create_link(a, None, None, T0 + HOUR, T0).unwrap();
    store.create_link(a, None, None, T0 + HOUR, T0).unwrap();
    let keep = store.create_link(b, None, None, T0 + HOUR, T0).unwrap();
    store.delete_file(a);
    assert!(store.load(a).is_none());
    assert_eq!(store.links.len(), 1);
    assert_eq!(store.links[0].id, keep);
}

#[test]
fn tampered_record_is_never_served() {
    // A record tampered at rest fails closed through the whole retrieval
    // path: the recipient gets an error, never altered bytes.
    let cipher = cipher();
    let mut store = Store::new();
    let file_id = store
        .store_file(&cipher, None, "f".to_string(), "t".to_string(), b"genuine", T0)
        .unwrap();
    let link = store.create_link(file_id, None, None, T0 + HOUR, T0).unwrap();
    store.files[0].encrypted_file[0] ^= 1;
    assert_eq!(
        store.authorize_and_fetch(&cipher, link, "", T0).unwrap_err(),
        AuthError::DecryptionFailed
    );
    store.files[0].encrypted_file[0] ^= 1;
    store.files[0].encrypted_aes_key[47] ^= 0x80;
    assert_eq!(
        store.authorize_and_fetch(&cipher, link, "", T0).unwrap_err(),
        AuthError::DecryptionFailed
    );
    store.files[0].encrypted_aes_key[47] ^= 0x80;
    store.files[0].iv[5] ^= 4;
    assert_eq!(
        store.authorize_and_fetch(&cipher, link, "", T0).unwrap_err(),
        AuthError::DecryptionFailed
    );
    // Restored, the record serves the genuine bytes again.
    store.files[0].iv[5] ^= 4;
    let fetched = store.authorize_and_fetch(&cipher, link, "", T0).unwrap();
    assert_eq!(fetched.plaintext, b"genuine".to_vec());
}

#[test]
fn caller_supplied_ids_must_be_fresh() {
    let cipher = cipher();
    let mut store = Store::new();
    store
        .store_file_with_id(&cipher, None, "a".to_string(), "t".to_string(), b"aa", T0, 7)
        .unwrap();
    assert_eq!(
        store
            .store_file_with_id(&cipher, None, "b".to_string(), "t".to_string(), b"bb", T0, 7)
            .unwrap_err(),
        StoreError::IdCollision
    );
    store.create_link_with_id(7, None, None, T0 + HOUR, T0, 40).unwrap();
    assert_eq!(
        store.create_link_with_id(7, None, None, T0 + HOUR, T0, 40).unwrap_err(),
        CreateLinkError::IdCollision
    );
    let fetched = store.authorize_and_fetch(&cipher, 40, "", T0).unwrap();
    assert_eq!(fetched.plaintext, b"aa".to_vec());
}

#[test]
fn add_user_enforces_unique_email_and_id() {
    let mut store = Store::new();
    store.add_user(user(1, "a", "a@example.com")).unwrap();
    assert_eq!(
        store.add_user(user(1, "b", "b@example.com")).unwrap_err(),
        StoreError::IdCollision
    );
    assert_eq!(
        store.add_user(user(2, "c", "a@example.com")).unwrap_err(),
        StoreError::EmailTaken
    );
    store.add_user(user(2, "c", "c@example.com")).unwrap();
}

#[test]
fn stored_record_holds_ciphertext_not_plaintext() {
    let cipher = cipher();
    let mut store = Store::new();
    let bytes = b"not at rest in the clear".to_vec();
    let file_id = store
        .store_file(&cipher, None, "f".to_string(), "t".to_string(), &bytes, T0)
        .unwrap();
    let record = store.load(file_id).unwrap();
    assert_eq!(record.filesize, bytes.len() as i64);
    assert_eq!(record.encrypted_file.len(), bytes.len() + 16);
    assert_ne!(&record.encrypted_file[..bytes.len()], bytes.as_slice());
    assert_eq!(record.iv.len(), 12);
    assert_eq!(record.encrypted_aes_key.len(), 48);
}

#[test]
fn listings_join_and_paginate() {
    let cipher = cipher();
    let mut store = Store::new();
    store.add_user(user(1, "sender", "s@example.com")).unwrap();
    store.add_user(user(2, "recipient", "r@example.com")).unwrap();
    let mut ids = Vec::new();
    for i in 0..5u8 {
        let fid = store
            .store_file(&cipher, Some(1), format!("f{i}"), "t".to_string(), b"data", T0)
            .unwrap();
        ids.push(fid);
        store.create_link(fid, Some(2), None, T0 + HOUR, T0 + i as i64).unwrap();
    }
    let sent = store.list_sent(1, 1, 50);
    assert_eq!(sent.len(), 5);
    assert_eq!(sent[0].recipient_email, "r@example.com");
    assert_eq!(sent[0].filename, "f0");
    assert_eq!(sent[0].expiration_date, Some(T0 + HOUR));
    assert_eq!(sent[0].created_at, Some(T0));

    let received = store.list_received(2, 1, 50);
    assert_eq!(received.len(), 5);
    assert_eq!(received[4].sender_email, "s@example.com");
    assert_eq!(received[4].filename, "f4");

    // Pagination: two per page, third page holds the remainder.
    let page1 = store.list_sent(1, 1, 2);
    let page2 = store.list_sent(1, 2, 2);
    let page3 = store.list_sent(1, 3, 2);
    let page4 = store.list_sent(1, 4, 2);
    assert_eq!(page1.len(), 2);
    assert_eq!(page2.len(), 2);
    assert_eq!(page3.len(), 1);
    assert_eq!(page4.len(), 0);
    assert_eq!(page1[0].filename, "f0");
    assert_eq!(page2[0].filename, "f2");
    assert_eq!(page3[0].filename, "f4");

    // Nobody else sent or received anything.
    assert!(store.list_sent(2, 1, 50).is_empty());
    assert!(store.list_received(1, 1, 50).is_empty());
}
