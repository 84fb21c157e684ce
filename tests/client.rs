use remote_settings_client::changeset::{changeset_from_response, parse_changeset};
use remote_settings_client::codec::encode_collection;
use remote_settings_client::{
    Client, ClientError, Collection, DummyStorage, GetStep, KintoError, MemoryStorage, Record,
    SignatureError, Storage, SyncStep, Verification,
};

struct VerifierWithNoError {}
struct VerifierWithInvalidSignatureError {}

impl Verification for VerifierWithNoError {
    fn verify(&self, _collection: &Collection) -> Result<(), SignatureError> {
        Ok(())
    }
}

impl Verification for VerifierWithInvalidSignatureError {
    fn verify(&self, _collection: &Collection) -> Result<(), SignatureError> {
        Err(SignatureError::InvalidSignature {
            name: "invalid signature error from tests".to_owned(),
        })
    }
}

/// One canned answer of the remote source, served only to the request it expects.
struct Mock {
    collection: &'static str,
    expected: Option<u64>,
    since: Option<u64>,
    body: &'static str,
    calls: usize,
}

impl Mock {
    fn new(collection: &'static str, expected: Option<u64>, body: &'static str) -> Mock {
        Mock { collection, expected, since: None, body, calls: 0 }
    }

    fn since(mut self, since: u64) -> Mock {
        self.since = Some(since);
        self
    }

    fn answer(&mut self, collection: &str, expected: Option<u64>, since: Option<u64>) -> Option<&'static str> {
        let matches = self.collection == collection
            && (self.expected.is_none() || self.expected == expected)
            && (self.since.is_none() || self.since == since);
        if matches {
            self.calls += 1;
            Some(self.body)
        } else {
            None
        }
    }
}

/// The remote source of a test: mocks for the monitor collection and for collections.
struct Server {
    mocks: Vec<Mock>,
}

impl Server {
    fn fetch(&mut self, collection: &str, expected: Option<u64>, since: Option<u64>) -> Result<remote_settings_client::Changeset, KintoError> {
        for m in self.mocks.iter_mut() {
            if let Some(body) = m.answer(collection, expected, since) {
                return changeset_from_response(200, body.as_bytes(), None);
            }
        }
        changeset_from_response(404, b"", None)
    }

    fn calls(&self, i: usize) -> usize {
        self.mocks[i].calls
    }
}

fn sync(client: &mut Client, server: &mut Server, expected: Option<u64>) -> Result<Collection, ClientError> {
    let mut step = client.sync_begin(expected);
    loop {
        step = match step {
            SyncStep::FetchTimestamp(state) => {
                let answer = server.fetch("monitor/changes", Some(0), None);
                client.sync_on_timestamp(state, answer)
            }
            SyncStep::FetchChangeset(state) => {
                let name = format!("{}/{}", client.bucket_name(), client.collection_name());
                let answer = server.fetch(&name, state.expected, state.since());
                client.sync_on_changeset(state, answer)
            }
            SyncStep::Done(result) => return result,
            SyncStep::Unsaved { collection, .. } => return Ok(collection),
        }
    }
}

fn get(client: &mut Client, server: &mut Server) -> Result<Vec<Record>, ClientError> {
    match client.get_begin() {
        GetStep::Done(result) => result,
        GetStep::Sync => sync(client, server, None).map(|c| c.records),
    }
}

fn value(text: &str) -> serde_json::Value {
    serde_json::from_str(text).unwrap()
}

fn field_str(r: &Record, key: &str) -> String {
    r.get(key).unwrap().as_str().unwrap().to_owned()
}

#[test]
fn test_get_empty_storage() {
    let mut server = Server { mocks: vec![] };
    let mut client = Client::builder()
        .server_url("http://localhost")
        .collection_name("url-classifier-skip-urls")
        .sync_if_empty(false)
        .build();

    assert_eq!(get(&mut client, &mut server).unwrap().len(), 0);
}

#[test]
fn test_get_bad_stored_data() {
    let mut server = Server { mocks: vec![] };
    let mut storage = DummyStorage {};
    storage.store("main/cfr", b"abc".to_vec()).unwrap();
    let mut client = Client::builder()
        .server_url("http://localhost")
        .collection_name("cfr")
        .storage(Box::new(storage))
        .sync_if_empty(false)
        .build();

    assert_eq!(get(&mut client, &mut server).unwrap().len(), 0);
}

#[test]
fn test_get_bad_stored_data_if_untrusted() {
    let mut server = Server { mocks: vec![] };
    let collection = Collection {
        bid: "main".to_owned(),
        cid: "search-config".to_owned(),
        metadata: value("{}"),
        records: vec![Record::new(value("{}"))],
        timestamp: 42,
    };
    let collection_bytes: Vec<u8> = encode_collection(&collection);
    let mut storage = MemoryStorage::new();
    storage.store("main/search-config:collection", collection_bytes).unwrap();

    let mut client = Client::builder()
        .server_url("http://localhost")
        .collection_name("search-config")
        .storage(Box::new(storage))
        .signature_verifier(Box::new(VerifierWithInvalidSignatureError {}))
        .sync_if_empty(false)
        .trust_local(false)
        .build();

    let err = get(&mut client, &mut server).unwrap_err();
    assert_eq!(
        err,
        ClientError::VerificationError {
            name: "invalid signature error from tests".to_owned()
        }
    );
}

#[test]
fn test_get_with_empty_records_list() {
    let mut server = Server {
        mocks: vec![Mock::new(
            "main/regions",
            Some(42),
            r#"{
                "metadata": {},
                "changes": [],
                "timestamp": 0
            }"#,
        )],
    };
    let mut client = Client::builder()
        .server_url("http://localhost")
        .collection_name("regions")
        .storage(Box::new(MemoryStorage::new()))
        .signature_verifier(Box::new(VerifierWithNoError {}))
        .build();

    sync(&mut client, &mut server, Some(42)).unwrap();

    assert_eq!(get(&mut client, &mut server).unwrap().len(), 0);

    assert_eq!(1, server.calls(0));
}

#[test]
fn test_get_return_previously_synced_records() {
    let mut server = Server {
        mocks: vec![Mock::new(
            "main/blocklist",
            Some(123),
            r#"{
                "metadata": {},
                "changes": [{
                    "id": "record-1",
                    "last_modified": 123,
                    "foo": "bar"
                }],
                "timestamp": 123
            }"#,
        )],
    };
    let mut client = Client::builder()
        .server_url("http://localhost")
        .collection_name("blocklist")
        .storage(Box::new(MemoryStorage::new()))
        .signature_verifier(Box::new(VerifierWithNoError {}))
        .build();

    sync(&mut client, &mut server, Some(123)).unwrap();

    let records = get(&mut client, &mut server).unwrap();

    assert_eq!(records.len(), 1);
    assert_eq!(field_str(&records[0], "foo"), "bar");

    assert_eq!(1, server.calls(0));
}

#[test]
fn test_get_works_with_dummy_storage() {
    let mut server = Server {
        mocks: vec![
            Mock::new(
                "monitor/changes",
                Some(0),
                r#"{
                    "metadata": {},
                    "changes": [{
                        "id": "not-read",
                        "last_modified": 555,
                        "bucket": "main",
                        "collection": "top-sites"
                    }],
                    "timestamp": 555
                }"#,
            ),
            Mock::new(
                "main/top-sites",
                Some(555),
                r#"{
                    "metadata": {},
                    "changes": [{
                        "id": "record-1",
                        "last_modified": 555,
                        "foo": "bar"
                    }],
                    "timestamp": 555
                }"#,
            ),
        ],
    };
    let mut client = Client::builder()
        .server_url("http://localhost")
        .collection_name("top-sites")
        .storage(Box::new(DummyStorage {}))
        .signature_verifier(Box::new(VerifierWithNoError {}))
        .build();

    let records = get(&mut client, &mut server).unwrap();
    assert_eq!(records.len(), 1);
    assert_eq!(field_str(&records[0], "foo"), "bar");

    assert_eq!(1, server.calls(1));
    assert_eq!(1, server.calls(0));
}

#[test]
fn test_sync_pulls_current_timestamp_from_changes_endpoint_if_none() {
    let mut server = Server {
        mocks: vec![
            Mock::new(
                "monitor/changes",
                None,
                r#"{
                    "metadata": {},
                    "changes": [{
                        "id": "not-read",
                        "last_modified": 123,
                        "bucket": "main",
                        "collection": "fxmonitor"
                    }],
                    "timestamp": 42
                }"#,
            ),
            Mock::new(
                "main/fxmonitor",
                Some(123),
                r#"{
                    "metadata": {},
                    "changes": [{
                        "id": "record-1",
                        "last_modified": 555,
                        "foo": "bar"
                    }],
                    "timestamp": 555
                }"#,
            ),
        ],
    };
    let mut client = Client::builder()
        .server_url("http://localhost")
        .collection_name("fxmonitor")
        .signature_verifier(Box::new(VerifierWithNoError {}))
        .build();

    sync(&mut client, &mut server, None).unwrap();

    assert_eq!(1, server.calls(1));
    assert_eq!(1, server.calls(0));
}

#[test]
fn test_sync_uses_specified_expected_parameter() {
    let mut server = Server {
        mocks: vec![Mock::new(
            "main/pioneers",
            Some(13),
            r#"{
                "metadata": {},
                "changes": [{
                    "id": "record-1",
                    "last_modified": 13,
                    "foo": "bar"
                }],
                "timestamp": 13
            }"#,
        )],
    };
    let mut client = Client::builder()
        .server_url("http://localhost")
        .collection_name("pioneers")
        .signature_verifier(Box::new(VerifierWithNoError {}))
        .build();

    sync(&mut client, &mut server, Some(13)).unwrap();

    assert_eq!(1, server.calls(0));
}

#[test]
fn test_sync_fails_with_unknown_collection() {
    let mut server = Server {
        mocks: vec![Mock::new(
            "monitor/changes",
            None,
            r#"{
                "metadata": {},
                "changes": [{
                    "id": "not-read",
                    "last_modified": 123,
                    "bucket": "main",
                    "collection": "fxmonitor"
                }],
                "timestamp": 42
            }"#,
        )],
    };
    let mut client = Client::builder()
        .server_url("http://localhost")
        .collection_name("url-classifier-skip-urls")
        .build();

    let err = sync(&mut client, &mut server, None).unwrap_err();
    assert_eq!(
        err,
        ClientError::APIError {
            name: format!("Unknown collection {}/{}", "main", "url-classifier-skip-urls"),
            response: None,
        }
    );

    assert_eq!(1, server.calls(0));
}

#[test]
fn test_sync_wraps_signature_errors() {
    let mut server = Server {
        mocks: vec![Mock::new(
            "main/password-recipes",
            Some(42),
            r#"{
                "metadata": {},
                "changes": [{
                    "id": "record-1",
                    "last_modified": 13,
                    "foo": "bar"
                }],
                "timestamp": 13
            }"#,
        )],
    };
    let mut client = Client::builder()
        .server_url("http://localhost")
        .collection_name("password-recipes")
        .signature_verifier(Box::new(VerifierWithInvalidSignatureError {}))
        .build();

    let err = sync(&mut client, &mut server, Some(42)).unwrap_err();
    assert_eq!(
        err,
        ClientError::VerificationError {
            name: "invalid signature error from tests".to_owned()
        }
    );

    assert_eq!(1, server.calls(0));
}

#[test]
fn test_sync_returns_collection_with_merged_changes() {
    let mut server = Server {
        mocks: vec![Mock::new(
            "main/onecrl",
            Some(15),
            r#"{
                "metadata": {},
                "changes": [{
                    "id": "record-1",
                    "last_modified": 15
                }, {
                    "id": "record-2",
                    "last_modified": 14,
                    "field": "before"
                }, {
                    "id": "record-3",
                    "last_modified": 13
                }],
                "timestamp": 15
            }"#,
        )],
    };
    let mut client = Client::builder()
        .server_url("http://localhost")
        .collection_name("onecrl")
        .storage(Box::new(MemoryStorage::new()))
        .signature_verifier(Box::new(VerifierWithNoError {}))
        .build();

    let res = sync(&mut client, &mut server, Some(15)).unwrap();
    assert_eq!(res.records.len(), 3);
    assert_eq!(1, server.calls(0));

    let mut server = Server {
        mocks: vec![Mock::new(
            "main/onecrl",
            Some(42),
            r#"{
                "metadata": {},
                "changes": [{
                    "id": "record-1",
                    "last_modified": 42,
                    "field": "after"
                }, {
                    "id": "record-4",
                    "last_modified": 30
                }, {
                    "id": "record-2",
                    "last_modified": 20,
                    "delete": true
                }],
                "timestamp": 42
            }"#,
        )
        .since(15)],
    };

    let res = sync(&mut client, &mut server, Some(42)).unwrap();
    assert_eq!(res.records.len(), 4);

    let record_1_idx = res.records.iter().position(|r| r.id() == "record-1").unwrap();
    let record_1 = &res.records[record_1_idx];
    assert_eq!(field_str(record_1, "field"), "after");

    assert_eq!(1, server.calls(0));
}

#[test]
fn test_record_fields() {
    let r = Record::new(value(
        r#"{
            "id": "abc",
            "last_modified": 100,
            "foo": {"bar": 42},
            "pi": "3.14"
        }"#,
    ));

    assert_eq!(r.id(), "abc");
    assert_eq!(r.last_modified(), 100);
    assert_eq!(r.deleted(), false);

    // Access fields by key
    assert_eq!(r.get("pi").unwrap().as_str(), Some("3.14"));
    assert_eq!(r.get("foo").unwrap()["bar"].as_u64(), Some(42));
    assert_eq!(r.get("bar").cloned().unwrap_or(serde_json::Value::Null), serde_json::Value::Null);

    // Or by get() as optional value
    assert_eq!(r.get("bar"), None);
    assert_eq!(r.get("pi").unwrap().as_str(), Some("3.14"));
    assert_eq!(r.get("pi").unwrap().as_f64(), None);
    assert_eq!(r.get("foo").unwrap().get("bar").unwrap().as_u64(), Some(42));

    let r = Record::new(value(
        r#"{
            "id": "abc",
            "last_modified": 100,
            "deleted": true
        }"#,
    ));
    assert_eq!(r.deleted(), true);

    let r = Record::new(value(
        r#"{
            "id": "abc",
            "last_modified": 100,
            "deleted": "foo"
        }"#,
    ));
    assert_eq!(r.deleted(), false);
}

#[test]
fn parse_changeset_rejects_garbage() {
    assert!(matches!(parse_changeset(b"abc"), Err(KintoError::ContentError { .. })));
    assert!(matches!(parse_changeset(b"{\"metadata\": {}}"), Err(KintoError::ContentError { .. })));
}
