//! The client: its configuration, and the decisions of `get` and `sync`
//! taken one step at a time, the caller performing each remote request.

use vstd::prelude::*;
use vstd::string::StringExecFns;

use crate::changeset::{
    collection_timestamps, entries_view, find_timestamp, listed, names, Changeset,
    CollectionTimestamp,
};
use crate::codec::{
    decodable, decode_collection, decoded_completeness, decodes_to, encode_collection,
};
use crate::json::{items_at, json_parse};
use crate::errors::{
    api_error_of, storage_error_of, unknown_collection_message, verification_error_of,
    ClientError, KintoError,
};
use crate::merge::{lists_map, merge_changes, merged};
use crate::record::{all_complete, records_complete, Collection, Record};
use crate::signatures::{DummyVerifier, SignatureError, Verification};
use crate::storage::{DummyStorage, Storage, StorageError};

verus! {

pub const DEFAULT_SERVER_URL: &'static str = "https://firefox.settings.services.mozilla.com/v1";

pub const DEFAULT_BUCKET_NAME: &'static str = "main";

/// Key under which the collection `collection` of the bucket `bucket` is stored.
pub open spec fn storage_key(bucket: Seq<char>, collection: Seq<char>) -> Seq<char> {
    bucket + "/"@ + collection + ":collection"@
}

/// The local records that a merge starts from: none where there is no local
/// collection, or where one of its records lacks a required field.
pub open spec fn local_base(local: Option<Collection>) -> Seq<Record> {
    match local {
        Some(c) => if all_complete(c.records@) {
            c.records@
        } else {
            Seq::empty()
        },
        None => Seq::empty(),
    }
}

/// `c` is the collection built from `changeset` merged into `local`.
pub open spec fn is_merge_result(
    c: Collection,
    bucket: Seq<char>,
    collection: Seq<char>,
    local: Option<Collection>,
    changeset: Changeset,
) -> bool {
    &&& c.bid@ == bucket
    &&& c.cid@ == collection
    &&& c.metadata == changeset.metadata
    &&& c.timestamp == changeset.timestamp
    &&& lists_map(c.records@, merged(local_base(local), changeset.changes@))
}

/// A synchronisation in progress: the local collection that was loaded, and
/// the timestamp that the remote source is expected to have reached.
pub struct SyncState {
    pub local: Option<Collection>,
    pub expected: Option<u64>,
}

impl SyncState {
    /// The timestamp after which changes are asked for: that of the local
    /// collection, when the merge starts from its records.
    pub fn since(&self) -> (r: Option<u64>)
        ensures
            r == (match self.local {
                Some(c) => if all_complete(c.records@) {
                    Some(c.timestamp)
                } else {
                    None
                },
                None => None,
            }),
    {
        match &self.local {
            Some(c) => if records_complete(&c.records) {
                Some(c.timestamp)
            } else {
                None
            },
            None => None,
        }
    }
}

/// What a synchronisation needs next.
pub enum SyncStep {
    /// The latest change timestamp of every collection (the monitor changeset).
    FetchTimestamp(SyncState),
    /// The changeset of the collection, against `expected` and since `since()`.
    FetchChangeset(SyncState),
    /// The synchronisation is over.
    Done(Result<Collection, ClientError>),
    /// The collection was merged and verified, but could not be stored.
    Unsaved { collection: Collection, error: ClientError },
}

/// What reading the records needs next.
pub enum GetStep {
    /// The records, or the error that stopped them.
    Done(Result<Vec<Record>, ClientError>),
    /// A synchronisation without expected timestamp, whose records are the answer.
    Sync,
}

/// `r` goes on from a known target timestamp: it hands back the local
/// collection, or asks for the changes against that target.
pub open spec fn continues_with_target(r: SyncStep, local: Option<Collection>, target: u64) -> bool {
    &&& match r {
        SyncStep::Done(Ok(c)) => local == Some(c) && c.timestamp == target,
        SyncStep::FetchChangeset(s) => s.local == local && s.expected == Some(target),
        _ => false,
    }
    &&& (local is None || local.unwrap().timestamp != target) ==> r is FetchChangeset
}

/// The local collection is kept when it is up to date and verifies, else the
/// changes against `target` are asked for.
pub fn check_local(local: Option<Collection>, target: u64, verified: bool) -> (r: SyncStep)
    ensures
        continues_with_target(r, local, target),
        r is Done <==> (local is Some && local.unwrap().timestamp == target && verified),
{
    match local {
        Some(c) => if c.timestamp == target && verified {
            SyncStep::Done(Ok(c))
        } else {
            SyncStep::FetchChangeset(SyncState { local: Some(c), expected: Some(target) })
        },
        None => SyncStep::FetchChangeset(SyncState { local: None, expected: Some(target) }),
    }
}

/// What `get` answers when it has no usable local collection: a
/// synchronisation, or no records, as configured.
pub open spec fn empty_answer(sync_if_empty: bool, r: GetStep) -> bool {
    if sync_if_empty {
        r is Sync
    } else {
        r matches GetStep::Done(Ok(v)) && v@.len() == 0
    }
}

/// What `get` does with the local collection that was read, the configuration,
/// and the outcome of the signature check (looked at only for a local
/// collection that is not trusted). A local collection with a record that
/// lacks a required field is not handed out: it counts as none.
pub fn get_outcome(
    stored: Option<Collection>,
    sync_if_empty: bool,
    trust_local: bool,
    verdict: Result<(), SignatureError>,
) -> (r: GetStep)
    ensures
        match stored {
            None => empty_answer(sync_if_empty, r),
            Some(c) => match verdict {
                Err(e) if !trust_local => r matches GetStep::Done(Err(x)) && verification_error_of(
                    e,
                    x,
                ),
                _ => if all_complete(c.records@) {
                    r matches GetStep::Done(Ok(v)) && v@ == c.records@
                } else {
                    empty_answer(sync_if_empty, r)
                },
            },
        },
{
    match stored {
        Some(c) => {
            if !trust_local {
                if let Err(e) = verdict {
                    return GetStep::Done(Err(ClientError::from_signature(e)));
                }
            }
            if records_complete(&c.records) {
                GetStep::Done(Ok(c.records))
            } else if sync_if_empty {
                GetStep::Sync
            } else {
                GetStep::Done(Ok(Vec::new()))
            }
        },
        None => {
            if sync_if_empty {
                GetStep::Sync
            } else {
                GetStep::Done(Ok(Vec::new()))
            }
        },
    }
}

/// Merges a changeset into the local collection and builds the new collection
/// of the pair. Fails with an API error when a change lacks `id` or `last_modified`.
pub fn apply_changeset(
    bucket: &String,
    collection: &String,
    local: Option<Collection>,
    changeset: Changeset,
) -> (r: Result<Collection, ClientError>)
    ensures
        r is Ok <==> all_complete(changeset.changes@),
        r matches Ok(c) ==> is_merge_result(c, bucket@, collection@, local, changeset),
        r matches Err(e) ==> e is APIError && e->APIError_response is None,
{
    if !records_complete(&changeset.changes) {
        return Err(
            ClientError::APIError {
                name: String::from_str("Changeset holds a record without id or last_modified"),
                response: None,
            },
        );
    }
    let local_records = match local {
        Some(c) => if records_complete(&c.records) {
            c.records
        } else {
            Vec::new()
        },
        None => Vec::new(),
    };
    let merged_records = merge_changes(local_records, changeset.changes);
    Ok(
        Collection {
            bid: bucket.clone(),
            cid: collection.clone(),
            metadata: changeset.metadata,
            records: merged_records,
            timestamp: changeset.timestamp,
        },
    )
}

/// How a synchronisation ends once the merged collection is built, given the
/// outcome of its signature check and, after a successful check, of storing it.
pub fn finish_sync(
    collection: Collection,
    verdict: Result<(), SignatureError>,
    saved: Result<(), StorageError>,
) -> (r: SyncStep)
    ensures
        match verdict {
            Err(e) => r matches SyncStep::Done(Err(x)) && verification_error_of(e, x),
            Ok(()) => match saved {
                Ok(()) => r == SyncStep::Done(Ok(collection)),
                Err(e) => r matches SyncStep::Unsaved { collection: c, error: x } && c
                    == collection && storage_error_of(e, x),
            },
        },
{
    match verdict {
        Err(e) => SyncStep::Done(Err(ClientError::from_signature(e))),
        Ok(()) => match saved {
            Ok(()) => SyncStep::Done(Ok(collection)),
            Err(e) => SyncStep::Unsaved { collection, error: ClientError::from_storage(e) },
        },
    }
}

/// `read` holds no local collection: the read failed, found nothing, or found
/// bytes that do not decode.
pub open spec fn no_local(read: Result<Option<Vec<u8>>, StorageError>) -> bool {
    match read {
        Ok(Some(b)) => !decodable(b@),
        _ => true,
    }
}

/// `local` is what the storage read `read` yields.
pub open spec fn read_gives(read: Result<Option<Vec<u8>>, StorageError>, local: Option<Collection>) -> bool {
    match local {
        Some(c) => read matches Ok(Some(b)) && decodes_to(b@, c),
        None => no_local(read),
    }
}

/// `local` is what a synchronisation starts from after the storage read
/// `read`: the decoded collection when all its records carry both required
/// fields, else none.
pub open spec fn read_gives_for_sync(
    read: Result<Option<Vec<u8>>, StorageError>,
    local: Option<Collection>,
) -> bool {
    match local {
        Some(c) => read matches Ok(Some(b)) && decodes_to(b@, c) && all_complete(c.records@),
        None => no_local(read) || (read matches Ok(Some(b)) && forall|c: Collection|
            decodes_to(b@, c) ==> !all_complete(c.records@)),
    }
}

/// The local collection that a storage read yields; a failed read, an empty
/// one and bytes that do not decode all count as none.
pub fn local_from_read(read: Result<Option<Vec<u8>>, StorageError>) -> (r: Option<Collection>)
    ensures
        read_gives(read, r),
{
    match read {
        Ok(Some(bytes)) => decode_collection(bytes.as_slice()),
        _ => None,
    }
}

pub struct ClientBuilder {
    server_url: String,
    bucket_name: String,
    collection_name: String,
    signature_verifier: Box<dyn Verification>,
    storage: Box<dyn Storage>,
    sync_if_empty: bool,
    trust_local: bool,
}

impl ClientBuilder {
    pub closed spec fn spec_server_url(self) -> Seq<char> {
        self.server_url@
    }

    pub closed spec fn spec_bucket(self) -> Seq<char> {
        self.bucket_name@
    }

    pub closed spec fn spec_collection(self) -> Seq<char> {
        self.collection_name@
    }

    pub closed spec fn spec_sync_if_empty(self) -> bool {
        self.sync_if_empty
    }

    pub closed spec fn spec_trust_local(self) -> bool {
        self.trust_local
    }

    /// A builder with the default server and bucket, no collection name, a
    /// verifier that accepts everything, a storage that keeps nothing, and
    /// both `sync_if_empty` and `trust_local` set.
    pub fn new() -> (r: ClientBuilder)
        ensures
            r.spec_bucket() == DEFAULT_BUCKET_NAME@,
            r.spec_server_url() == DEFAULT_SERVER_URL@,
            r.spec_collection().len() == 0,
            r.spec_sync_if_empty(),
            r.spec_trust_local(),
    {
        proof {
            reveal_strlit("");
        }
        ClientBuilder {
            server_url: String::from_str(DEFAULT_SERVER_URL),
            bucket_name: String::from_str(DEFAULT_BUCKET_NAME),
            collection_name: String::from_str(""),
            signature_verifier: Box::new(DummyVerifier {  }),
            storage: Box::new(DummyStorage {  }),
            sync_if_empty: true,
            trust_local: true,
        }
    }

    /// Sets the server url.
    pub fn server_url(self, server_url: &str) -> (r: ClientBuilder)
        ensures
            r.spec_server_url() == server_url@,
            r.spec_bucket() == self.spec_bucket(),
            r.spec_collection() == self.spec_collection(),
            r.spec_sync_if_empty() == self.spec_sync_if_empty(),
            r.spec_trust_local() == self.spec_trust_local(),
    {
        ClientBuilder { server_url: String::from_str(server_url), ..self }
    }

    /// Sets the bucket name.
    pub fn bucket_name(self, bucket_name: &str) -> (r: ClientBuilder)
        ensures
            r.spec_server_url() == self.spec_server_url(),
            r.spec_bucket() == bucket_name@,
            r.spec_collection() == self.spec_collection(),
            r.spec_sync_if_empty() == self.spec_sync_if_empty(),
            r.spec_trust_local() == self.spec_trust_local(),
    {
        ClientBuilder { bucket_name: String::from_str(bucket_name), ..self }
    }

    /// Sets the collection name.
    pub fn collection_name(self, collection_name: &str) -> (r: ClientBuilder)
        ensures
            r.spec_server_url() == self.spec_server_url(),
            r.spec_bucket() == self.spec_bucket(),
            r.spec_collection() == collection_name@,
            r.spec_sync_if_empty() == self.spec_sync_if_empty(),
            r.spec_trust_local() == self.spec_trust_local(),
    {
        ClientBuilder { collection_name: String::from_str(collection_name), ..self }
    }

    /// Sets the signature verifier.
    pub fn signature_verifier(self, signature_verifier: Box<dyn Verification>) -> (r: ClientBuilder)
        ensures
            r.spec_server_url() == self.spec_server_url(),
            r.spec_bucket() == self.spec_bucket(),
            r.spec_collection() == self.spec_collection(),
            r.spec_sync_if_empty() == self.spec_sync_if_empty(),
            r.spec_trust_local() == self.spec_trust_local(),
    {
        ClientBuilder { signature_verifier, ..self }
    }

    /// Sets the storage.
    pub fn storage(self, storage: Box<dyn Storage>) -> (r: ClientBuilder)
        ensures
            r.spec_server_url() == self.spec_server_url(),
            r.spec_bucket() == self.spec_bucket(),
            r.spec_collection() == self.spec_collection(),
            r.spec_sync_if_empty() == self.spec_sync_if_empty(),
            r.spec_trust_local() == self.spec_trust_local(),
    {
        ClientBuilder { storage, ..self }
    }

    /// Whether `get` synchronises when there is no usable local collection.
    pub fn sync_if_empty(self, sync_if_empty: bool) -> (r: ClientBuilder)
        ensures
            r.spec_server_url() == self.spec_server_url(),
            r.spec_bucket() == self.spec_bucket(),
            r.spec_collection() == self.spec_collection(),
            r.spec_sync_if_empty() == sync_if_empty,
            r.spec_trust_local() == self.spec_trust_local(),
    {
        ClientBuilder { sync_if_empty, ..self }
    }

    /// Whether `get` hands back the local collection without checking its signature.
    pub fn trust_local(self, trust_local: bool) -> (r: ClientBuilder)
        ensures
            r.spec_server_url() == self.spec_server_url(),
            r.spec_bucket() == self.spec_bucket(),
            r.spec_collection() == self.spec_collection(),
            r.spec_sync_if_empty() == self.spec_sync_if_empty(),
            r.spec_trust_local() == trust_local,
    {
        ClientBuilder { trust_local, ..self }
    }

    /// Builds the client.
    pub fn build(self) -> (r: Client)
        ensures
            r.spec_server_url() == self.spec_server_url(),
            r.spec_bucket() == self.spec_bucket(),
            r.spec_collection() == self.spec_collection(),
            r.spec_sync_if_empty() == self.spec_sync_if_empty(),
            r.spec_trust_local() == self.spec_trust_local(),
    {
        Client {
            server_url: self.server_url,
            bucket_name: self.bucket_name,
            collection_name: self.collection_name,
            signature_verifier: self.signature_verifier,
            storage: self.storage,
            sync_if_empty: self.sync_if_empty,
            trust_local: self.trust_local,
        }
    }
}

impl Default for ClientBuilder {
    fn default() -> (r: ClientBuilder)
        ensures
            r.spec_bucket() == DEFAULT_BUCKET_NAME@,
            r.spec_server_url() == DEFAULT_SERVER_URL@,
            r.spec_collection().len() == 0,
            r.spec_sync_if_empty(),
            r.spec_trust_local(),
    {
        ClientBuilder::new()
    }
}

/// Client of one collection of a remote settings server.
pub struct Client {
    server_url: String,
    bucket_name: String,
    collection_name: String,
    signature_verifier: Box<dyn Verification>,
    storage: Box<dyn Storage>,
    sync_if_empty: bool,
    trust_local: bool,
}

impl Default for Client {
    fn default() -> (r: Client)
        ensures
            r.spec_bucket() == DEFAULT_BUCKET_NAME@,
            r.spec_server_url() == DEFAULT_SERVER_URL@,
            r.spec_collection().len() == 0,
            r.spec_sync_if_empty(),
            r.spec_trust_local(),
    {
        Client::builder().build()
    }
}

/// How a synchronisation starts after the storage read `read`.
pub open spec fn sync_starts(
    read: Result<Option<Vec<u8>>, StorageError>,
    expected: Option<u64>,
    r: SyncStep,
) -> bool {
    &&& expected is None ==> (r matches SyncStep::FetchTimestamp(s) && s.expected is None
        && read_gives_for_sync(read, s.local))
    &&& expected matches Some(t) ==> match r {
        SyncStep::Done(Ok(c)) => c.timestamp == t && read_gives_for_sync(read, Some(c)),
        SyncStep::FetchChangeset(s) => s.expected == Some(t) && read_gives_for_sync(read, s.local),
        _ => false,
    }
}

impl Client {
    /// What `get` answers after the storage read `read`: without a usable
    /// local collection (none, or one with a record lacking a required field),
    /// asks for a synchronisation or hands back no records, as configured; with
    /// one, hands back its records. A signature check of a local collection
    /// that is not trusted comes first, and its failure is the answer.
    pub open spec fn get_answers(self, read: Result<Option<Vec<u8>>, StorageError>, r: GetStep) -> bool {
        &&& no_local(read) ==> empty_answer(self.spec_sync_if_empty(), r)
        &&& !no_local(read) ==> match r {
            GetStep::Done(Err(e)) => e is VerificationError && !self.spec_trust_local(),
            _ => (r matches GetStep::Done(Ok(v)) && exists|c: Collection|
                read_gives(read, Some(c)) && all_complete(c.records@) && #[trigger] c.records@
                    == v@) || (empty_answer(self.spec_sync_if_empty(), r) && forall|c: Collection|
                read_gives(read, Some(c)) ==> !all_complete(c.records@)),
        }
    }

    /// `i` is the first entry of `l` that names this client's collection.
    pub open spec fn first_listing(self, l: Seq<(Seq<char>, Seq<char>, u64)>, i: int) -> bool {
        &&& 0 <= i < l.len()
        &&& l[i].0 == self.spec_bucket() && l[i].1 == self.spec_collection()
        &&& forall|j: int|
            0 <= j < i ==> !(l[j].0 == self.spec_bucket() && l[j].1 == self.spec_collection())
    }

    /// How a synchronisation goes on from `state` with the answer to
    /// `FetchTimestamp`: an API error when the answer failed or does not list
    /// the collection, else on from the first listed timestamp.
    pub open spec fn after_timestamps(
        self,
        state: SyncState,
        monitor: Result<Changeset, KintoError>,
        r: SyncStep,
    ) -> bool {
        &&& r is Done || r is FetchChangeset
        &&& monitor matches Err(e) ==> (r matches SyncStep::Done(Err(x)) && api_error_of(e, x))
        &&& monitor matches Ok(cs) ==> {
            let l = listed(cs.changes@);
            &&& (forall|i: int|
                0 <= i < l.len() ==> !(l[i].0 == self.spec_bucket() && l[i].1
                    == self.spec_collection())) ==> (r matches SyncStep::Done(
                Err(ClientError::APIError { name, response }),
            ) && name@ == unknown_collection_message(self.spec_bucket(), self.spec_collection())
                && response is None)
            &&& forall|i: int| #[trigger]
                self.first_listing(l, i) ==> continues_with_target(r, state.local, l[i].2)
        }
    }

    /// How a synchronisation ends from `state` with the answer to
    /// `FetchChangeset`: an API error when the answer failed or holds a change
    /// without required fields, a verification error, or the merged collection
    /// (stored, or not with a storage error).
    pub open spec fn after_changeset(
        self,
        state: SyncState,
        changeset: Result<Changeset, KintoError>,
        r: SyncStep,
    ) -> bool {
        &&& r is Done || r is Unsaved
        &&& changeset matches Err(e) ==> (r matches SyncStep::Done(Err(x)) && api_error_of(e, x))
        &&& changeset matches Ok(cs) ==> {
            &&& !all_complete(cs.changes@) ==> (r matches SyncStep::Done(Err(x)) && x is APIError)
            &&& r matches SyncStep::Done(Ok(c)) ==> is_merge_result(
                c,
                self.spec_bucket(),
                self.spec_collection(),
                state.local,
                cs,
            )
            &&& r matches SyncStep::Unsaved { collection: c, error: e } ==> is_merge_result(
                c,
                self.spec_bucket(),
                self.spec_collection(),
                state.local,
                cs,
            ) && e is StorageError
            &&& all_complete(cs.changes@) ==> (r matches SyncStep::Done(Err(x)) ==> x is VerificationError)
        }
    }

    pub closed spec fn spec_server_url(self) -> Seq<char> {
        self.server_url@
    }

    pub closed spec fn spec_bucket(self) -> Seq<char> {
        self.bucket_name@
    }

    pub closed spec fn spec_collection(self) -> Seq<char> {
        self.collection_name@
    }

    pub closed spec fn spec_sync_if_empty(self) -> bool {
        self.sync_if_empty
    }

    pub closed spec fn spec_trust_local(self) -> bool {
        self.trust_local
    }

    /// A builder with the default configuration.
    pub fn builder() -> (r: ClientBuilder)
        ensures
            r.spec_bucket() == DEFAULT_BUCKET_NAME@,
            r.spec_server_url() == DEFAULT_SERVER_URL@,
            r.spec_collection().len() == 0,
            r.spec_sync_if_empty(),
            r.spec_trust_local(),
    {
        ClientBuilder::new()
    }

    /// The server url.
    pub fn server_url(&self) -> (r: &str)
        ensures
            r@ == self.spec_server_url(),
    {
        self.server_url.as_str()
    }

    /// The bucket name.
    pub fn bucket_name(&self) -> (r: &str)
        ensures
            r@ == self.spec_bucket(),
    {
        self.bucket_name.as_str()
    }

    /// The collection name.
    pub fn collection_name(&self) -> (r: &str)
        ensures
            r@ == self.spec_collection(),
    {
        self.collection_name.as_str()
    }

    /// The key of the collection in the storage.
    pub fn _storage_key(&self) -> (r: String)
        ensures
            r@ == storage_key(self.spec_bucket(), self.spec_collection()),
    {
        let mut key = self.bucket_name.clone();
        key.append("/");
        key.append(self.collection_name.as_str());
        key.append(":collection");
        proof {
            reveal_strlit("/");
            reveal_strlit(":collection");
        }
        key
    }

    /// Reads the stored collection under the collection's key.
    fn read_local(&self) -> (r: Result<Option<Vec<u8>>, StorageError>) {
        let key = self._storage_key();
        self.storage.retrieve(key.as_str())
    }

    /// What `get` does after reading `read` from the storage.
    pub fn get_with_read(&self, read: Result<Option<Vec<u8>>, StorageError>) -> (r: GetStep)
        ensures
            self.get_answers(read, r),
    {
        let stored = local_from_read(read);
        let verdict = match &stored {
            Some(c) => if !self.trust_local {
                self.signature_verifier.verify(c)
            } else {
                Ok(())
            },
            None => Ok(()),
        };
        let ghost before = stored;
        let r = get_outcome(stored, self.sync_if_empty, self.trust_local, verdict);
        proof {
            if let Some(c) = before {
                let b = read->Ok_0->Some_0;
                assert forall|c2: Collection| read_gives(read, Some(c2)) implies all_complete(
                    c2.records@,
                ) == all_complete(c.records@) by {
                    decoded_completeness(b@, c, c2);
                }
                if all_complete(c.records@) && r is Done && r->Done_0 is Ok {
                    assert(read_gives(read, Some(c)) && c.records@ == r->Done_0->Ok_0@);
                }
            }
        }
        r
    }

    /// Reads the local records, checking their signature unless the local
    /// collection is trusted.
    pub fn get_begin(&self) -> (r: GetStep)
        ensures
            exists|read: Result<Option<Vec<u8>>, StorageError>| self.get_answers(read, r),
            r is Sync ==> self.spec_sync_if_empty(),
            r matches GetStep::Done(Err(e)) ==> e is VerificationError && !self.spec_trust_local(),
    {
        let read = self.read_local();
        let r = self.get_with_read(read);
        assert(self.get_answers(read, r));
        r
    }

    fn go_on_with_target(&self, local: Option<Collection>, target: u64) -> (r: SyncStep)
        ensures
            continues_with_target(r, local, target),
    {
        let verified = match &local {
            Some(c) => c.timestamp == target && self.signature_verifier.verify(c).is_ok(),
            None => false,
        };
        check_local(local, target, verified)
    }

    /// Starts a synchronisation after reading `read` from the storage. Without
    /// an expected timestamp, the latest one is asked for first; with one, the
    /// local collection is kept if it is up to date and verifies, else the
    /// changes against it are asked for. A local collection with a record that
    /// lacks a required field counts as none.
    pub fn sync_with_read(&self, read: Result<Option<Vec<u8>>, StorageError>, expected: Option<u64>) -> (r:
        SyncStep)
        ensures
            sync_starts(read, expected, r),
    {
        let stored = local_from_read(read);
        let ghost before = stored;
        let local = match stored {
            Some(c) => if records_complete(&c.records) {
                Some(c)
            } else {
                None
            },
            None => None,
        };
        proof {
            if let Some(c) = before {
                if local is None {
                    let b = read->Ok_0->Some_0;
                    assert forall|c2: Collection| decodes_to(b@, c2) implies !all_complete(
                        c2.records@,
                    ) by {
                        decoded_completeness(b@, c, c2);
                    }
                }
            }
        }
        match expected {
            Some(t) => self.go_on_with_target(local, t),
            None => SyncStep::FetchTimestamp(SyncState { local, expected: None }),
        }
    }

    /// Starts a synchronisation from what the storage holds.
    pub fn sync_begin(&self, expected: Option<u64>) -> (r: SyncStep)
        ensures
            exists|read: Result<Option<Vec<u8>>, StorageError>| sync_starts(read, expected, r),
            expected is None ==> (r matches SyncStep::FetchTimestamp(s) && s.expected is None),
            expected matches Some(t) ==> match r {
                SyncStep::Done(Ok(c)) => c.timestamp == t,
                SyncStep::FetchChangeset(s) => s.expected == Some(t),
                _ => false,
            },
    {
        let read = self.read_local();
        let r = self.sync_with_read(read, expected);
        assert(sync_starts(read, expected, r));
        r
    }

    /// Goes on once the latest change timestamps of all collections are known:
    /// fails with an API error naming the pair when none of them is about this
    /// collection.
    pub fn sync_with_timestamps(&self, state: SyncState, entries: &Vec<CollectionTimestamp>) -> (r:
        SyncStep)
        ensures
            r is Done || r is FetchChangeset,
            (forall|i: int|
                0 <= i < entries.len() ==> !names(
                    entries[i],
                    self.spec_bucket(),
                    self.spec_collection(),
                )) ==> (r matches SyncStep::Done(Err(ClientError::APIError { name, response }))
                && name@ == unknown_collection_message(self.spec_bucket(), self.spec_collection())
                && response is None),
            forall|i: int|
                0 <= i < entries.len() && names(entries[i], self.spec_bucket(), self.spec_collection())
                    && (forall|j: int|
                    0 <= j < i ==> !names(entries[j], self.spec_bucket(), self.spec_collection()))
                    ==> continues_with_target(r, state.local, entries[i].last_modified),
    {
        match find_timestamp(entries, self.bucket_name.as_str(), self.collection_name.as_str()) {
            Ok(t) => self.go_on_with_target(state.local, t),
            Err(e) => SyncStep::Done(Err(ClientError::from_kinto(e))),
        }
    }

    /// Goes on with the answer to `FetchTimestamp`: the monitor changeset, whose
    /// entries name each collection with its latest change timestamp.
    pub fn sync_on_timestamp(&self, state: SyncState, monitor: Result<Changeset, KintoError>) -> (r:
        SyncStep)
        ensures
            self.after_timestamps(state, monitor, r),
    {
        match monitor {
            Ok(cs) => {
                let entries = collection_timestamps(&cs);
                proof {
                    let l = listed(cs.changes@);
                    assert forall|i: int| 0 <= i < entries.len() implies (names(
                        #[trigger] entries@[i],
                        self.spec_bucket(),
                        self.spec_collection(),
                    ) <==> (l[i].0 == self.spec_bucket() && l[i].1 == self.spec_collection()))
                        && entries@[i].last_modified == l[i].2 by {
                        assert(entries_view(entries@)[i] == l[i]);
                    }
                    assert(entries.len() == l.len()) by {
                        assert(entries_view(entries@).len() == l.len());
                    }
                }
                self.sync_with_timestamps(state, &entries)
            },
            Err(e) => SyncStep::Done(Err(ClientError::from_kinto(e))),
        }
    }

    /// Stores an encoded collection under the collection's key.
    fn save(&mut self, collection: &Collection) -> (r: Result<(), StorageError>)
        ensures
            final(self).spec_bucket() == old(self).spec_bucket(),
            final(self).spec_collection() == old(self).spec_collection(),
            final(self).spec_server_url() == old(self).spec_server_url(),
            final(self).spec_sync_if_empty() == old(self).spec_sync_if_empty(),
            final(self).spec_trust_local() == old(self).spec_trust_local(),
    {
        let bytes = encode_collection(collection);
        let key = self._storage_key();
        self.storage.store(key.as_str(), bytes)
    }

    /// Goes on with the answer to `FetchChangeset`: merges the changes into the
    /// local collection, checks the signature of the result, and stores it.
    /// A failed check is returned and nothing is stored; a failed store still
    /// hands back the verified collection, beside the error.
    pub fn sync_on_changeset(&mut self, state: SyncState, changeset: Result<Changeset, KintoError>) -> (r:
        SyncStep)
        ensures
            old(self).after_changeset(state, changeset, r),
            final(self).spec_bucket() == old(self).spec_bucket(),
            final(self).spec_collection() == old(self).spec_collection(),
            final(self).spec_server_url() == old(self).spec_server_url(),
            final(self).spec_sync_if_empty() == old(self).spec_sync_if_empty(),
            final(self).spec_trust_local() == old(self).spec_trust_local(),
    {
        let cs = match changeset {
            Ok(cs) => cs,
            Err(e) => {
                return SyncStep::Done(Err(ClientError::from_kinto(e)));
            },
        };
        let collection = match apply_changeset(
            &self.bucket_name,
            &self.collection_name,
            state.local,
            cs,
        ) {
            Ok(c) => c,
            Err(e) => {
                return SyncStep::Done(Err(e));
            },
        };
        let verdict = self.signature_verifier.verify(&collection);
        let saved = if verdict.is_ok() {
            self.save(&collection)
        } else {
            Ok(())
        };
        finish_sync(collection, verdict, saved)
    }
}

/// With no usable local state and `sync_if_empty` off, `get` answers with no
/// records at once: it asks for no synchronisation, so no request is made.
pub proof fn get_quiet_when_empty(
    client: Client,
    read: Result<Option<Vec<u8>>, StorageError>,
    r: GetStep,
)
    requires
        client.get_answers(read, r),
        no_local(read),
        !client.spec_sync_if_empty(),
    ensures
        r matches GetStep::Done(Ok(v)) && v@.len() == 0,
{
}

/// With no usable local state and `sync_if_empty` on, `get` synchronises: one
/// request for the latest timestamps, then one for the changes against the
/// timestamp listed for the collection, without a `since` cursor, after which
/// the synchronisation ends; when it succeeds, its records are the content of
/// the changes.
pub proof fn get_syncs_when_empty(
    client: Client,
    read: Result<Option<Vec<u8>>, StorageError>,
    g: GetStep,
    first: SyncStep,
    monitor: Changeset,
    second: SyncStep,
    i: int,
    cs: Changeset,
    third: SyncStep,
)
    requires
        client.get_answers(read, g),
        no_local(read),
        client.spec_sync_if_empty(),
        sync_starts(read, None, first),
        client.after_timestamps(first->FetchTimestamp_0, Ok(monitor), second),
        client.first_listing(listed(monitor.changes@), i),
        client.after_changeset(second->FetchChangeset_0, Ok(cs), third),
    ensures
        g is Sync,
        first is FetchTimestamp,
        second matches SyncStep::FetchChangeset(s) && s.expected == Some(
            listed(monitor.changes@)[i].2,
        ) && s.local is None,
        third is Done || third is Unsaved,
        third matches SyncStep::Done(Ok(c)) ==> lists_map(
            c.records@,
            merged(Seq::empty(), cs.changes@),
        ),
{
    assert(first->FetchTimestamp_0.local is None);
    assert(continues_with_target(second, None, listed(monitor.changes@)[i].2));
}

/// Without an expected timestamp, a synchronisation first asks for the latest
/// timestamps; what it does next goes on from the timestamp listed for the
/// collection: it asks for the changes against it, or keeps a local
/// collection that is up to date with it.
pub proof fn sync_asks_timestamp_first(
    client: Client,
    read: Result<Option<Vec<u8>>, StorageError>,
    first: SyncStep,
    monitor: Changeset,
    second: SyncStep,
    i: int,
)
    requires
        sync_starts(read, None, first),
        client.after_timestamps(first->FetchTimestamp_0, Ok(monitor), second),
        client.first_listing(listed(monitor.changes@), i),
    ensures
        first is FetchTimestamp,
        match second {
            SyncStep::FetchChangeset(s) => s.expected == Some(listed(monitor.changes@)[i].2),
            SyncStep::Done(Ok(c)) => c.timestamp == listed(monitor.changes@)[i].2,
            _ => false,
        },
{
}

/// With an expected timestamp, a synchronisation asks for no timestamp: the
/// changes it asks for are against the expected one.
pub proof fn sync_with_expected_asks_no_timestamp(
    read: Result<Option<Vec<u8>>, StorageError>,
    t: u64,
    first: SyncStep,
)
    requires
        sync_starts(read, Some(t), first),
    ensures
        !(first is FetchTimestamp),
        first matches SyncStep::FetchChangeset(s) ==> s.expected == Some(t),
{
}

} // verus!
