//! Changesets as the remote source answers them, and the lookup of a
//! collection's latest change timestamp in the monitor changeset.

use vstd::prelude::*;
use vstd::string::StringExecFns;

use crate::errors::{ErrorResponse, KintoError};
use crate::json::{
    array_items, error_text, field, from_bytes, items_at, json_at, json_parse, str_at, str_field,
    u64_at, u64_field,
};
use crate::record::{records_wrap, wrap_items, Record};

verus! {

/// Changes of a collection since a point in time, as the remote source returns them.
#[derive(Clone, Debug, PartialEq)]
pub struct Changeset {
    pub metadata: serde_json::Value,
    pub changes: Vec<Record>,
    pub timestamp: u64,
}

/// Latest change timestamp of one collection, as listed by the remote source.
#[derive(Clone, Debug, PartialEq)]
pub struct CollectionTimestamp {
    pub bucket: String,
    pub collection: String,
    pub last_modified: u64,
}

/// `entry` is about the collection `collection` of the bucket `bucket`.
pub open spec fn names(entry: CollectionTimestamp, bucket: Seq<char>, collection: Seq<char>) -> bool {
    entry.bucket@ == bucket && entry.collection@ == collection
}

/// The body parses to an object from which a changeset can be read.
pub open spec fn changeset_readable(body: Seq<u8>) -> bool {
    &&& json_parse(body) is Some
    &&& json_at(json_parse(body).unwrap(), "metadata"@) is Some
    &&& u64_at(json_parse(body).unwrap(), "timestamp"@) is Some
    &&& items_at(json_parse(body).unwrap(), "changes"@) is Some
}

/// `cs` is the changeset read from the body.
pub open spec fn reads_as_changeset(body: Seq<u8>, cs: Changeset) -> bool {
    &&& changeset_readable(body)
    &&& json_at(json_parse(body).unwrap(), "metadata"@) == Some(cs.metadata)
    &&& u64_at(json_parse(body).unwrap(), "timestamp"@) == Some(cs.timestamp)
    &&& records_wrap(cs.changes@, items_at(json_parse(body).unwrap(), "changes"@).unwrap())
}

/// The bucket, collection and timestamp that a monitor entry names, when it names all three.
pub open spec fn entry_of(r: Record) -> Option<(Seq<char>, Seq<char>, u64)> {
    match (
        str_at(r.data(), "bucket"@),
        str_at(r.data(), "collection"@),
        u64_at(r.data(), "last_modified"@),
    ) {
        (Some(b), Some(c), Some(t)) => Some((b, c, t)),
        _ => None,
    }
}

/// The entries of `changes` that name a bucket, a collection and a timestamp, in order.
pub open spec fn listed(changes: Seq<Record>) -> Seq<(Seq<char>, Seq<char>, u64)>
    decreases changes.len(),
{
    if changes.len() == 0 {
        Seq::empty()
    } else {
        let rest = listed(changes.drop_last());
        match entry_of(changes.last()) {
            Some(e) => rest.push(e),
            None => rest,
        }
    }
}

/// The plain view of a list of collection timestamps.
pub open spec fn entries_view(entries: Seq<CollectionTimestamp>) -> Seq<(Seq<char>, Seq<char>, u64)> {
    entries.map_values(|e: CollectionTimestamp| (e.bucket@, e.collection@, e.last_modified))
}

fn content_error(text: &str, detail: &str) -> (r: KintoError)
    ensures
        r is ContentError,
{
    let mut name = String::from_str(text);
    name.append(detail);
    KintoError::ContentError { name }
}

/// Reads a changeset from the JSON body of an answer: an object with
/// `metadata`, `changes` (an array) and `timestamp` (an unsigned integer).
pub fn parse_changeset(body: &[u8]) -> (r: Result<Changeset, KintoError>)
    ensures
        match r {
            Ok(cs) => reads_as_changeset(body@, cs),
            Err(e) => !changeset_readable(body@) && e is ContentError,
        },
{
    let value = match from_bytes(body) {
        Ok(v) => v,
        Err(e) => {
            let detail = error_text(&e);
            return Err(content_error("Could not parse changeset: ", detail.as_str()));
        },
    };
    let metadata = field(&value, "metadata");
    let timestamp = u64_field(&value, "timestamp");
    let items = match field(&value, "changes") {
        Some(list) => array_items(list),
        None => None,
    };
    match (metadata, timestamp, items) {
        (Some(metadata), Some(timestamp), Some(items)) => {
            let changes = wrap_items(&items);
            Ok(Changeset { metadata: metadata.clone(), changes, timestamp })
        },
        _ => Err(content_error("Changeset lacks a field: ", "metadata, changes or timestamp")),
    }
}

/// The body parses to an object with `code` and `errno` (unsigned integers
/// that fit in 16 bits) and `error`, `message` and `info` (strings).
pub open spec fn error_response_readable(body: Seq<u8>) -> bool {
    &&& json_parse(body) is Some
    &&& u64_at(json_parse(body).unwrap(), "code"@) matches Some(c) && c <= u16::MAX
    &&& u64_at(json_parse(body).unwrap(), "errno"@) matches Some(n) && n <= u16::MAX
    &&& str_at(json_parse(body).unwrap(), "error"@) is Some
    &&& str_at(json_parse(body).unwrap(), "message"@) is Some
    &&& str_at(json_parse(body).unwrap(), "info"@) is Some
}

/// Reads the error body of an answer: an object with `code`, `errno`, `error`,
/// `message` and `info`; `None` when it is not one.
pub fn parse_error_response(body: &[u8]) -> (r: Option<ErrorResponse>)
    ensures
        match r {
            Some(e) => {
                &&& error_response_readable(body@)
                &&& u64_at(json_parse(body@).unwrap(), "code"@) == Some(e.code as u64)
                &&& u64_at(json_parse(body@).unwrap(), "errno"@) == Some(e.errno as u64)
                &&& str_at(json_parse(body@).unwrap(), "error"@) == Some(e.error@)
                &&& str_at(json_parse(body@).unwrap(), "message"@) == Some(e.message@)
                &&& str_at(json_parse(body@).unwrap(), "info"@) == Some(e.info@)
            },
            None => !error_response_readable(body@),
        },
{
    let value = match from_bytes(body) {
        Ok(v) => v,
        Err(_) => {
            return None;
        },
    };
    let code = u64_field(&value, "code");
    let errno = u64_field(&value, "errno");
    let error = str_field(&value, "error");
    let message = str_field(&value, "message");
    let info = str_field(&value, "info");
    match (code, errno, error, message, info) {
        (Some(code), Some(errno), Some(error), Some(message), Some(info)) => {
            if code <= u16::MAX as u64 && errno <= u16::MAX as u64 {
                Some(ErrorResponse { code: code as u16, errno: errno as u16, error, message, info })
            } else {
                None
            }
        },
        _ => None,
    }
}

/// Reads an answer of the remote source to a changeset request: a success
/// status carries a changeset, a 5xx status is a server error, a 4xx status a
/// client error, any other status a content error.
pub fn changeset_from_response(status: u16, body: &[u8], retry_after: Option<u64>) -> (r: Result<
    Changeset,
    KintoError,
>)
    ensures
        200 <= status < 300 ==> match r {
            Ok(cs) => reads_as_changeset(body@, cs),
            Err(e) => !changeset_readable(body@) && e is ContentError,
        },
        500 <= status ==> (r is Err && r->Err_0 is ServerError && r->Err_0->ServerError_retry_after
            == retry_after),
        400 <= status < 500 ==> (r is Err && r->Err_0 is ClientError),
        status < 200 || 300 <= status < 400 ==> (r is Err && r->Err_0 is ContentError),
{
    if 200 <= status && status < 300 {
        parse_changeset(body)
    } else if 500 <= status {
        Err(
            KintoError::ServerError {
                name: String::from_str("The server answered with an error status"),
                response: parse_error_response(body),
                retry_after,
            },
        )
    } else if 400 <= status {
        Err(
            KintoError::ClientError {
                name: String::from_str("The server refused the request"),
                response: parse_error_response(body),
            },
        )
    } else {
        Err(content_error("Unexpected answer status", ""))
    }
}

/// The entries of a changeset of the monitor collection that name a bucket, a
/// collection and a timestamp, in order.
pub fn collection_timestamps(monitor: &Changeset) -> (r: Vec<CollectionTimestamp>)
    ensures
        entries_view(r@) == listed(monitor.changes@),
{
    let mut out: Vec<CollectionTimestamp> = Vec::new();
    let mut i: usize = 0;
    while i < monitor.changes.len()
        invariant
            i <= monitor.changes.len(),
            entries_view(out@) == listed(monitor.changes@.subrange(0, i as int)),
        decreases monitor.changes.len() - i,
    {
        let ghost before = out@;
        let rec = &monitor.changes[i];
        let bucket = str_field(rec.as_value(), "bucket");
        let collection = str_field(rec.as_value(), "collection");
        let stamp = u64_field(rec.as_value(), "last_modified");
        assert(monitor.changes@.subrange(0, i + 1).drop_last() =~= monitor.changes@.subrange(
            0,
            i as int,
        ));
        match (bucket, collection, stamp) {
            (Some(bucket), Some(collection), Some(last_modified)) => {
                out.push(CollectionTimestamp { bucket, collection, last_modified });
                assert(entries_view(out@) =~= entries_view(before).push(
                    entry_of(monitor.changes@[i as int]).unwrap(),
                ));
            },
            _ => {},
        }
        i = i + 1;
    }
    assert(monitor.changes@.subrange(0, i as int) =~= monitor.changes@);
    out
}

/// The timestamp of the first entry that names the pair, or the error for an
/// unknown collection.
pub fn find_timestamp(entries: &Vec<CollectionTimestamp>, bucket: &str, collection: &str) -> (r:
    Result<u64, KintoError>)
    ensures
        match r {
            Ok(t) => exists|i: int|
                0 <= i < entries.len() && names(entries[i], bucket@, collection@)
                    && entries[i].last_modified == t && forall|j: int|
                    0 <= j < i ==> !names(entries[j], bucket@, collection@),
            Err(e) => {
                &&& forall|i: int|
                    0 <= i < entries.len() ==> !names(entries[i], bucket@, collection@)
                &&& e is UnknownCollection
                &&& e->UnknownCollection_bucket@ == bucket@
                &&& e->UnknownCollection_collection@ == collection@
            },
        },
{
    let b = String::from_str(bucket);
    let c = String::from_str(collection);
    let mut i: usize = 0;
    while i < entries.len()
        invariant
            i <= entries.len(),
            b@ == bucket@,
            c@ == collection@,
            forall|j: int| 0 <= j < i ==> !names(entries[j], bucket@, collection@),
        decreases entries.len() - i,
    {
        if entries[i].bucket == b && entries[i].collection == c {
            return Ok(entries[i].last_modified);
        }
        i = i + 1;
    }
    Err(KintoError::UnknownCollection { bucket: b, collection: c })
}

} // verus!
