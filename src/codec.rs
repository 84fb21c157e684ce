//! The stored form of a collection: a JSON object.

use vstd::prelude::*;
use vstd::string::StringExecFns;

use crate::errors::ClientError;
use crate::json::{
    array_items, array_value, error_text, field, from_bytes, items_at, json_array, json_at,
    json_object, json_parse, json_string, json_text, json_u64, object_value, str_at,
    str_field, string_value, to_bytes, u64_at, u64_field, u64_value,
};
use crate::record::{all_complete, records_wrap, wrap_items, Collection, Record};

verus! {

/// Prefix of the message of a storage error raised while encoding or decoding.
pub open spec fn codec_error_prefix() -> Seq<char> {
    "Could not de/serialize data: "@
}

/// The JSON object that stands for a collection.
pub open spec fn collection_json(c: Collection) -> serde_json::Value {
    json_object(
        seq![
            ("bid"@, json_string(c.bid@)),
            ("cid"@, json_string(c.cid@)),
            ("metadata"@, c.metadata),
            ("records"@, json_array(c.records@.map_values(|r: Record| r.data()))),
            ("timestamp"@, json_u64(c.timestamp)),
        ],
    )
}

/// `bytes` is what `encode_collection` writes for `c`: the text of its JSON
/// object, whose fields read back as the collection's own.
pub open spec fn encoded(c: Collection, bytes: Seq<u8>) -> bool {
    let v = collection_json(c);
    &&& bytes == json_text(v)
    &&& str_at(v, "bid"@) == Some(c.bid@)
    &&& str_at(v, "cid"@) == Some(c.cid@)
    &&& json_at(v, "metadata"@) == Some(c.metadata)
    &&& u64_at(v, "timestamp"@) == Some(c.timestamp)
    &&& items_at(v, "records"@) == Some(c.records@.map_values(|r: Record| r.data()))
}

/// Decoding what `encode_collection` wrote for `c` gives `c` back: the same
/// `bid`, `cid`, `metadata` and `timestamp`, and records holding the same
/// values, in order, with the fields those values hold. This holds whenever
/// the text parses back to the object it was written from, which serde_json
/// does not promise for every floating-point number.
pub proof fn round_trip(c: Collection, bytes: Seq<u8>, d: Collection)
    requires
        encoded(c, bytes),
        json_parse(bytes) == Some(collection_json(c)),
        decodes_to(bytes, d),
    ensures
        d.bid@ == c.bid@,
        d.cid@ == c.cid@,
        d.metadata == c.metadata,
        d.timestamp == c.timestamp,
        d.records.len() == c.records.len(),
        forall|i: int|
            0 <= i < c.records.len() ==> (#[trigger] d.records@[i]).wraps(c.records@[i].data()),
{
    let items = c.records@.map_values(|r: Record| r.data());
    assert forall|i: int| 0 <= i < c.records.len() implies (#[trigger] d.records@[i]).wraps(
        c.records@[i].data(),
    ) by {
        assert(d.records@[i].wraps(items[i]));
    }
}

/// What `encode_collection` writes for `c` can be decoded, whenever the text
/// parses back to the object it was written from.
pub proof fn encoded_is_decodable(c: Collection, bytes: Seq<u8>)
    requires
        encoded(c, bytes),
        json_parse(bytes) == Some(collection_json(c)),
    ensures
        decodable(bytes),
{
}

/// The bytes parse to an object from which a collection can be read.
pub open spec fn decodable(bytes: Seq<u8>) -> bool {
    &&& json_parse(bytes) is Some
    &&& str_at(json_parse(bytes).unwrap(), "bid"@) is Some
    &&& str_at(json_parse(bytes).unwrap(), "cid"@) is Some
    &&& json_at(json_parse(bytes).unwrap(), "metadata"@) is Some
    &&& u64_at(json_parse(bytes).unwrap(), "timestamp"@) is Some
    &&& items_at(json_parse(bytes).unwrap(), "records"@) is Some
}

/// `c` is the collection read from the bytes.
pub open spec fn decodes_to(bytes: Seq<u8>, c: Collection) -> bool {
    &&& decodable(bytes)
    &&& str_at(json_parse(bytes).unwrap(), "bid"@) == Some(c.bid@)
    &&& str_at(json_parse(bytes).unwrap(), "cid"@) == Some(c.cid@)
    &&& json_at(json_parse(bytes).unwrap(), "metadata"@) == Some(c.metadata)
    &&& u64_at(json_parse(bytes).unwrap(), "timestamp"@) == Some(c.timestamp)
    &&& records_wrap(c.records@, items_at(json_parse(bytes).unwrap(), "records"@).unwrap())
}

/// Two collections decoded from the same bytes agree on whether all their
/// records carry both required fields.
pub proof fn decoded_completeness(bytes: Seq<u8>, c1: Collection, c2: Collection)
    requires
        decodes_to(bytes, c1),
        decodes_to(bytes, c2),
    ensures
        all_complete(c1.records@) == all_complete(c2.records@),
{
    let items = items_at(json_parse(bytes).unwrap(), "records"@).unwrap();
    assert forall|j: int| 0 <= j < c1.records.len() implies (#[trigger] c1.records@[j]).is_complete()
        == c2.records@[j].is_complete() by {
        assert(c1.records@[j].wraps(items[j]));
        assert(c2.records@[j].wraps(items[j]));
    }
    if !all_complete(c1.records@) {
        let j = choose|j: int| 0 <= j < c1.records.len() && !(#[trigger] c1.records@[j]).is_complete();
        assert(!c2.records@[j].is_complete());
    }
    if !all_complete(c2.records@) {
        let j = choose|j: int| 0 <= j < c2.records.len() && !(#[trigger] c2.records@[j]).is_complete();
        assert(!c1.records@[j].is_complete());
    }
}

impl ClientError {
    /// Maps a failure of the JSON layer to a storage error whose message
    /// follows a fixed prefix with the error's description.
    pub fn from_json_error(e: &serde_json::Error) -> (r: ClientError)
        ensures
            r matches ClientError::StorageError { name } && name@.len() >= codec_error_prefix().len()
                && name@.subrange(0, codec_error_prefix().len() as int) == codec_error_prefix(),
    {
        let mut name = String::from_str("Could not de/serialize data: ");
        let detail = error_text(e);
        name.append(detail.as_str());
        proof {
            reveal_strlit("Could not de/serialize data: ");
            assert(name@.subrange(0, codec_error_prefix().len() as int) =~= codec_error_prefix());
        }
        ClientError::StorageError { name }
    }
}

/// Encodes a collection as a JSON object with the fields `bid`, `cid`,
/// `metadata`, `records` and `timestamp`.
pub fn encode_collection(collection: &Collection) -> (r: Vec<u8>)
    ensures
        encoded(*collection, r@),
{
    let mut items: Vec<serde_json::Value> = Vec::new();
    let mut i: usize = 0;
    while i < collection.records.len()
        invariant
            i <= collection.records.len(),
            items@ == collection.records@.subrange(0, i as int).map_values(|r: Record| r.data()),
        decreases collection.records.len() - i,
    {
        items.push(collection.records[i].as_value().clone());
        i = i + 1;
        assert(items@ =~= collection.records@.subrange(0, i as int).map_values(
            |r: Record| r.data(),
        ));
    }
    assert(collection.records@.subrange(0, i as int) =~= collection.records@);
    let mut fields: Vec<(String, serde_json::Value)> = Vec::new();
    fields.push((String::from_str("bid"), string_value(collection.bid.as_str())));
    fields.push((String::from_str("cid"), string_value(collection.cid.as_str())));
    fields.push((String::from_str("metadata"), collection.metadata.clone()));
    fields.push((String::from_str("records"), array_value(items)));
    fields.push((String::from_str("timestamp"), u64_value(collection.timestamp)));
    proof {
        reveal_strlit("bid");
        reveal_strlit("cid");
        reveal_strlit("metadata");
        reveal_strlit("records");
        reveal_strlit("timestamp");
    }
    let ghost f = fields@;
    let obj = object_value(fields);
    assert(fields@.map_values(|f: (String, serde_json::Value)| (f.0@, f.1)) =~= seq![
        ("bid"@, json_string(collection.bid@)),
        ("cid"@, json_string(collection.cid@)),
        ("metadata"@, collection.metadata),
        ("records"@, json_array(collection.records@.map_values(|r: Record| r.data()))),
        ("timestamp"@, json_u64(collection.timestamp)),
    ]);
    proof {
        assert(f[0].0@ == "bid"@ && f[1].0@ == "cid"@ && f[2].0@ == "metadata"@);
        assert(f[3].0@ == "records"@ && f[4].0@ == "timestamp"@);
        assert(f[0].0@[0] == 'b' && f[1].0@[0] == 'c' && f[2].0@[0] == 'm');
        assert(f[3].0@[0] == 'r' && f[4].0@[0] == 't');
        assert forall|a: int, b: int| 0 <= a < b < 5 implies f[a].0@ != f[b].0@ by {
            assert(f[a].0@[0] != f[b].0@[0]);
        }
        assert(json_at(obj, f[0].0@) == Some(f[0].1));
        assert(json_at(obj, f[1].0@) == Some(f[1].1));
        assert(json_at(obj, f[2].0@) == Some(f[2].1));
        assert(json_at(obj, f[3].0@) == Some(f[3].1));
        assert(json_at(obj, f[4].0@) == Some(f[4].1));
    }
    match to_bytes(&obj) {
        Ok(b) => b,
        Err(_) => Vec::new(),
    }
}

/// Decodes a collection written by `encode_collection`; `None` when the bytes
/// are not such an object.
pub fn decode_collection(bytes: &[u8]) -> (r: Option<Collection>)
    ensures
        match r {
            Some(c) => decodes_to(bytes@, c),
            None => !decodable(bytes@),
        },
{
    let value = match from_bytes(bytes) {
        Ok(v) => v,
        Err(_) => {
            return None;
        },
    };
    let bid = str_field(&value, "bid");
    let cid = str_field(&value, "cid");
    let metadata = field(&value, "metadata");
    let timestamp = u64_field(&value, "timestamp");
    let items = match field(&value, "records") {
        Some(list) => array_items(list),
        None => None,
    };
    match (bid, cid, metadata, timestamp, items) {
        (Some(bid), Some(cid), Some(metadata), Some(timestamp), Some(items)) => {
            let records = wrap_items(&items);
            Some(Collection { bid, cid, metadata: metadata.clone(), records, timestamp })
        },
        _ => None,
    }
}

/// The description of the error is not a function of the error value alone,
/// so no spec value stands for the result: `ClientError::from_json_error`
/// states its prefix.
impl From<serde_json::Error> for ClientError {
    fn from(err: serde_json::Error) -> (r: ClientError) {
        ClientError::from_json_error(&err)
    }
}

impl vstd::std_specs::convert::FromSpecImpl<serde_json::Error> for ClientError {
    open spec fn obeys_from_spec() -> bool {
        false
    }

    open spec fn from_spec(v: serde_json::Error) -> ClientError {
        ClientError::StorageError { name: arbitrary() }
    }
}

} // verus!
