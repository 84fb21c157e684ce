use remote_settings_client::changeset::{
    changeset_from_response, collection_timestamps, find_timestamp, parse_error_response,
};
use remote_settings_client::client::{
    apply_changeset, check_local, finish_sync, get_outcome, local_from_read,
};
use remote_settings_client::codec::{decode_collection, encode_collection};
use remote_settings_client::{
    Changeset, Client, ClientError, Collection, CollectionTimestamp, GetStep, KintoError,
    MemoryStorage, Record, SignatureError, Storage, StorageError, SyncStep,
};

fn value(text: &str) -> serde_json::Value {
    serde_json::from_str(text).unwrap()
}

fn rec(text: &str) -> Record {
    Record::new(value(text))
}

fn collection(timestamp: u64) -> Collection {
    Collection {
        bid: "main".to_owned(),
        cid: "cfr".to_owned(),
        metadata: value(r#"{"signature": {"x5u": "https://example.com/chain"}}"#),
        records: vec![rec(r#"{"id": "a", "last_modified": 3, "deleted": false, "n": 1.5}"#)],
        timestamp,
    }
}

#[test]
fn encode_then_decode_gives_the_same_collection() {
    let c = collection(42);
    let bytes = encode_collection(&c);
    assert_eq!(decode_collection(&bytes), Some(c));
}

#[test]
fn round_trip_keeps_empty_metadata_and_no_records() {
    let c = Collection {
        bid: "main".to_owned(),
        cid: "empty".to_owned(),
        metadata: value("{}"),
        records: vec![],
        timestamp: 0,
    };
    let bytes = encode_collection(&c);
    assert_eq!(decode_collection(&bytes), Some(c));
}

#[test]
fn round_trip_keeps_absent_deleted_field() {
    let c = Collection {
        bid: "b".to_owned(),
        cid: "c".to_owned(),
        metadata: value("{}"),
        records: vec![rec(r#"{"id": "a", "last_modified": 3}"#)],
        timestamp: 3,
    };
    let back = decode_collection(&encode_collection(&c)).unwrap();
    assert_eq!(back.records[0].get("deleted"), None);
    assert_eq!(back, c);
}

#[test]
fn decode_refuses_malformed_bytes() {
    assert_eq!(decode_collection(b"abc"), None);
    assert_eq!(decode_collection(b""), None);
    assert_eq!(decode_collection(b"null"), None);
    assert_eq!(decode_collection(br#"{"bid": "main", "cid": "x", "metadata": {}, "records": [], "timestamp": -1}"#), None);
}

#[test]
fn storage_key_names_bucket_and_collection() {
    let client = Client::builder().bucket_name("blocklists").collection_name("addons").build();
    assert_eq!(client._storage_key(), "blocklists/addons:collection");
    let client = Client::builder().build();
    assert_eq!(client._storage_key(), "main/:collection");
    assert_eq!(client.server_url(), "https://firefox.settings.services.mozilla.com/v1");
}

#[test]
fn absent_local_without_sync_gives_empty_list() {
    match get_outcome(None, false, true, Ok(())) {
        GetStep::Done(Ok(v)) => assert!(v.is_empty()),
        _ => panic!("expected an empty list"),
    }
}

#[test]
fn absent_local_with_sync_asks_for_sync() {
    assert!(matches!(get_outcome(None, true, false, Ok(())), GetStep::Sync));
}

#[test]
fn untrusted_local_with_bad_signature_fails() {
    let err = SignatureError::CertificateError { name: "bad chain".to_owned() };
    match get_outcome(Some(collection(1)), true, false, Err(err.clone())) {
        GetStep::Done(Err(e)) => {
            assert_eq!(e, ClientError::VerificationError { name: "bad chain".to_owned() })
        }
        _ => panic!("expected a verification error"),
    }
    match get_outcome(Some(collection(1)), true, true, Err(err)) {
        GetStep::Done(Ok(v)) => assert_eq!(v, collection(1).records),
        _ => panic!("expected the local records"),
    }
}

#[test]
fn up_to_date_verified_local_is_kept() {
    match check_local(Some(collection(42)), 42, true) {
        SyncStep::Done(Ok(c)) => assert_eq!(c, collection(42)),
        _ => panic!("expected the local collection"),
    }
}

#[test]
fn stale_or_unverified_local_asks_for_changes() {
    match check_local(Some(collection(41)), 42, true) {
        SyncStep::FetchChangeset(s) => {
            assert_eq!(s.expected, Some(42));
            assert_eq!(s.since(), Some(41));
        }
        _ => panic!("expected a changeset request"),
    }
    match check_local(Some(collection(42)), 42, false) {
        SyncStep::FetchChangeset(s) => assert_eq!(s.since(), Some(42)),
        _ => panic!("expected a changeset request"),
    }
    match check_local(None, 42, true) {
        SyncStep::FetchChangeset(s) => assert_eq!(s.since(), None),
        _ => panic!("expected a changeset request"),
    }
}

#[test]
fn sync_without_expected_asks_for_timestamp_first() {
    let client = Client::builder().collection_name("cfr").build();
    match client.sync_begin(None) {
        SyncStep::FetchTimestamp(s) => assert_eq!(s.expected, None),
        _ => panic!("expected a timestamp request"),
    }
    match client.sync_begin(Some(7)) {
        SyncStep::FetchChangeset(s) => assert_eq!(s.expected, Some(7)),
        _ => panic!("expected a changeset request"),
    }
}

#[test]
fn find_timestamp_takes_first_match() {
    let entries = vec![
        CollectionTimestamp { bucket: "main".to_owned(), collection: "a".to_owned(), last_modified: 1 },
        CollectionTimestamp { bucket: "main".to_owned(), collection: "b".to_owned(), last_modified: 2 },
        CollectionTimestamp { bucket: "main".to_owned(), collection: "b".to_owned(), last_modified: 3 },
    ];
    assert_eq!(find_timestamp(&entries, "main", "b"), Ok(2));
    assert_eq!(
        find_timestamp(&entries, "other", "b"),
        Err(KintoError::UnknownCollection { bucket: "other".to_owned(), collection: "b".to_owned() })
    );
}

#[test]
fn unknown_collection_maps_to_named_api_error() {
    let err = KintoError::UnknownCollection { bucket: "main".to_owned(), collection: "x".to_owned() };
    assert_eq!(
        ClientError::from_kinto(err),
        ClientError::APIError { name: "Unknown collection main/x".to_owned(), response: None }
    );
}

#[test]
fn errors_keep_their_messages() {
    let e = KintoError::ContentError { name: "bad json".to_owned() };
    assert_eq!(ClientError::from_kinto(e), ClientError::APIError { name: "bad json".to_owned(), response: None });
    let e = KintoError::ServerError { name: "boom".to_owned(), response: None, retry_after: Some(3) };
    assert_eq!(ClientError::from_kinto(e), ClientError::APIError { name: "boom".to_owned(), response: None });
    let e = StorageError::ReadError { name: "disk".to_owned() };
    assert_eq!(ClientError::from_storage(e), ClientError::StorageError { name: "disk".to_owned() });
    let e = StorageError::Error { name: "full".to_owned() };
    assert_eq!(ClientError::from_storage(e), ClientError::StorageError { name: "full".to_owned() });
    let e = SignatureError::VerificationError { name: "mismatch".to_owned() };
    assert_eq!(ClientError::from_signature(e), ClientError::VerificationError { name: "mismatch".to_owned() });
    let e = SignatureError::InvalidSignature { name: "sig".to_owned() };
    assert_eq!(ClientError::from_signature(e), ClientError::VerificationError { name: "sig".to_owned() });
}

#[test]
fn apply_changeset_refuses_changes_without_id() {
    let cs = Changeset {
        metadata: value("{}"),
        changes: vec![rec(r#"{"last_modified": 3}"#)],
        timestamp: 3,
    };
    let r = apply_changeset(&"main".to_owned(), &"cfr".to_owned(), None, cs);
    assert!(matches!(r, Err(ClientError::APIError { response: None, .. })));
}

#[test]
fn apply_changeset_builds_the_new_collection() {
    let cs = Changeset {
        metadata: value(r#"{"k": 1}"#),
        changes: vec![rec(r#"{"id": "b", "last_modified": 9}"#)],
        timestamp: 9,
    };
    let c = apply_changeset(&"main".to_owned(), &"cfr".to_owned(), Some(collection(3)), cs).unwrap();
    assert_eq!(c.bid, "main");
    assert_eq!(c.cid, "cfr");
    assert_eq!(c.timestamp, 9);
    assert_eq!(c.metadata, value(r#"{"k": 1}"#));
    assert_eq!(c.records.len(), 2);
}

#[test]
fn responses_are_classified_by_status() {
    let ok = changeset_from_response(200, br#"{"metadata": {}, "changes": [], "timestamp": 5}"#, None).unwrap();
    assert_eq!(ok.timestamp, 5);
    let body = br#"{"code": 503, "errno": 201, "error": "Service Unavailable", "message": "later", "info": "none"}"#;
    match changeset_from_response(503, body, Some(30)) {
        Err(KintoError::ServerError { response: Some(r), retry_after, .. }) => {
            assert_eq!(r.code, 503);
            assert_eq!(r.errno, 201);
            assert_eq!(r.message, "later");
            assert_eq!(retry_after, Some(30));
        }
        other => panic!("unexpected {:?}", other),
    }
    assert!(matches!(changeset_from_response(404, b"", None), Err(KintoError::ClientError { response: None, .. })));
    assert!(matches!(changeset_from_response(302, b"", None), Err(KintoError::ContentError { .. })));
    assert_eq!(parse_error_response(b"{}"), None);
}

#[test]
fn monitor_entries_need_all_fields() {
    let cs = Changeset {
        metadata: value("{}"),
        changes: vec![
            rec(r#"{"id": "1", "last_modified": 4, "bucket": "main", "collection": "a"}"#),
            rec(r#"{"id": "2", "last_modified": 5, "bucket": "main"}"#),
        ],
        timestamp: 5,
    };
    let entries = collection_timestamps(&cs);
    assert_eq!(entries, vec![CollectionTimestamp { bucket: "main".to_owned(), collection: "a".to_owned(), last_modified: 4 }]);
}

#[test]
fn memory_storage_replaces_values() {
    let mut s = MemoryStorage::new();
    assert_eq!(s.retrieve("k"), Ok(None));
    s.store("k", vec![1]).unwrap();
    s.store("j", vec![2]).unwrap();
    s.store("k", vec![3]).unwrap();
    assert_eq!(s.retrieve("k"), Ok(Some(vec![3])));
    assert_eq!(s.retrieve("j"), Ok(Some(vec![2])));
}

#[test]
fn record_without_required_fields_is_not_valid() {
    assert!(!rec("{}").is_valid());
    assert!(!rec(r#"{"id": "a"}"#).is_valid());
    assert!(!rec(r#"{"id": 3, "last_modified": 1}"#).is_valid());
    assert!(rec(r#"{"id": "a", "last_modified": 0}"#).is_valid());
}

#[test]
fn failed_store_still_hands_back_the_verified_collection() {
    let error = StorageError::Error { name: "disk full".to_owned() };
    match finish_sync(collection(5), Ok(()), Err(error)) {
        SyncStep::Unsaved { collection: c, error: e } => {
            assert_eq!(c, collection(5));
            assert_eq!(e, ClientError::StorageError { name: "disk full".to_owned() });
        }
        _ => panic!("expected the unsaved collection"),
    }
    let bad = SignatureError::InvalidSignature { name: "bad".to_owned() };
    assert!(matches!(
        finish_sync(collection(5), Err(bad), Ok(())),
        SyncStep::Done(Err(ClientError::VerificationError { .. }))
    ));
    assert!(matches!(finish_sync(collection(5), Ok(()), Ok(())), SyncStep::Done(Ok(_))));
}

#[test]
fn failed_read_counts_as_no_local_state() {
    let quiet = Client::builder().collection_name("cfr").sync_if_empty(false).build();
    let failed = Err(StorageError::ReadError { name: "io".to_owned() });
    match quiet.get_with_read(failed.clone()) {
        GetStep::Done(Ok(v)) => assert!(v.is_empty()),
        _ => panic!("expected an empty list"),
    }
    let eager = Client::builder().collection_name("cfr").build();
    assert!(matches!(eager.get_with_read(failed.clone()), GetStep::Sync));
    assert!(matches!(eager.get_with_read(Ok(Some(b"abc".to_vec()))), GetStep::Sync));
    match eager.sync_with_read(failed, None) {
        SyncStep::FetchTimestamp(s) => assert!(s.local.is_none()),
        _ => panic!("expected a timestamp request"),
    }
}

#[test]
fn stored_collection_is_read_back() {
    let c = collection(42);
    let client = Client::builder().collection_name("cfr").build();
    match client.get_with_read(Ok(Some(encode_collection(&c)))) {
        GetStep::Done(Ok(v)) => assert_eq!(v, c.records),
        _ => panic!("expected the stored records"),
    }
    assert_eq!(local_from_read(Ok(Some(encode_collection(&c)))), Some(c));
    assert_eq!(local_from_read(Ok(None)), None);
}

#[test]
fn incomplete_local_collection_is_not_merged_from() {
    let c = Collection {
        bid: "main".to_owned(),
        cid: "cfr".to_owned(),
        metadata: value("{}"),
        records: vec![rec("{}")],
        timestamp: 42,
    };
    let client = Client::builder().collection_name("cfr").build();
    match client.sync_with_read(Ok(Some(encode_collection(&c))), Some(43)) {
        SyncStep::FetchChangeset(s) => {
            assert!(s.local.is_none());
            assert_eq!(s.since(), None);
        }
        _ => panic!("expected a changeset request"),
    }
}

#[test]
fn json_errors_keep_their_text() {
    let err = serde_json::from_str::<serde_json::Value>("{").unwrap_err();
    let text = err.to_string();
    assert_eq!(
        ClientError::from_json_error(&err),
        ClientError::StorageError { name: format!("Could not de/serialize data: {}", text) }
    );
}

#[test]
fn incomplete_local_collection_is_not_handed_out() {
    let c = Collection {
        bid: "main".to_owned(),
        cid: "cfr".to_owned(),
        metadata: value("{}"),
        records: vec![rec(r#"{"id": "a"}"#)],
        timestamp: 42,
    };
    let quiet = Client::builder().collection_name("cfr").sync_if_empty(false).build();
    match quiet.get_with_read(Ok(Some(encode_collection(&c)))) {
        GetStep::Done(Ok(v)) => assert!(v.is_empty()),
        _ => panic!("expected no records"),
    }
    let eager = Client::builder().collection_name("cfr").build();
    assert!(matches!(eager.get_with_read(Ok(Some(encode_collection(&c)))), GetStep::Sync));
}

#[test]
fn cloned_record_keeps_its_fields() {
    let r = rec(r#"{"id": "a", "last_modified": 7, "deleted": true}"#);
    let copy = r.clone();
    assert_eq!(copy.id(), "a");
    assert_eq!(copy.last_modified(), 7);
    assert!(copy.deleted());
    assert_eq!(copy, r);
}

#[test]
fn client_error_from_conversions() {
    let e: ClientError = StorageError::Error { name: "w".to_owned() }.into();
    assert_eq!(e, ClientError::StorageError { name: "w".to_owned() });
    let e: ClientError = SignatureError::CertificateError { name: "c".to_owned() }.into();
    assert_eq!(e, ClientError::VerificationError { name: "c".to_owned() });
    let e: ClientError = KintoError::UnknownCollection { bucket: "b".to_owned(), collection: "c".to_owned() }.into();
    assert_eq!(e, ClientError::APIError { name: "Unknown collection b/c".to_owned(), response: None });
}
