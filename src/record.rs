//! Records and collections.

use vstd::prelude::*;

use crate::json::{
    bool_field, field, json_at, json_fields, object_fields, str_at, str_field, u64_at, u64_field,
    bool_at,
};

verus! {

/// One entry of a collection: a JSON object with an `id` and a `last_modified`
/// timestamp, and optionally a `deleted` marker that makes it a tombstone.
///
/// The fields that the synchronisation reads are kept beside the JSON value.
#[derive(Debug, PartialEq)]
pub struct Record {
    value: serde_json::Value,
    id: Option<String>,
    last_modified: Option<u64>,
    deleted: bool,
}

impl Record {
    /// The fields kept beside the value are those the value holds.
    #[verifier::type_invariant]
    spec fn fields_match(self) -> bool {
        self.wraps(self.value)
    }

    /// The JSON value of the record.
    pub closed spec fn data(self) -> serde_json::Value {
        self.value
    }

    /// The `id` field, when it is a string.
    pub closed spec fn spec_id(self) -> Option<Seq<char>> {
        match self.id {
            Some(s) => Some(s@),
            None => None,
        }
    }

    /// The `last_modified` field, when it is an unsigned integer.
    pub closed spec fn spec_last_modified(self) -> Option<u64> {
        self.last_modified
    }

    /// Whether the record is a tombstone.
    pub closed spec fn spec_deleted(self) -> bool {
        self.deleted
    }

    /// Both required fields are present.
    pub open spec fn is_complete(self) -> bool {
        self.spec_id() is Some && self.spec_last_modified() is Some
    }

    /// The id of a complete record.
    pub open spec fn key(self) -> Seq<char> {
        self.spec_id().unwrap()
    }

    /// The record holds `v`, and its fields are those that `v` holds: `deleted`
    /// is set exactly when `v`'s `deleted` field is boolean true.
    pub open spec fn wraps(self, v: serde_json::Value) -> bool {
        &&& self.data() == v
        &&& self.spec_id() == str_at(v, "id"@)
        &&& self.spec_last_modified() == u64_at(v, "last_modified"@)
        &&& self.spec_deleted() == (bool_at(v, "deleted"@) == Some(true))
    }

    /// Wraps a JSON value, reading its `id`, `last_modified` and `deleted` fields.
    pub fn new(value: serde_json::Value) -> (r: Record)
        ensures
            r.wraps(value),
    {
        let id = str_field(&value, "id");
        let last_modified = u64_field(&value, "last_modified");
        let deleted = match bool_field(&value, "deleted") {
            Some(b) => b,
            None => false,
        };
        Record { value, id, last_modified, deleted }
    }

    /// Whether both required fields are present.
    pub fn is_valid(&self) -> (r: bool)
        ensures
            r == self.is_complete(),
    {
        self.id.is_some() && self.last_modified.is_some()
    }

    /// The JSON value of the record.
    pub fn as_value(&self) -> (r: &serde_json::Value)
        ensures
            *r == self.data(),
    {
        &self.value
    }

    /// The fields of the record, when its value is an object.
    pub fn as_object(&self) -> (r: Option<&serde_json::Map<String, serde_json::Value>>)
        ensures
            match r {
                Some(m) => json_fields(self.data()) == Some(*m),
                None => json_fields(self.data()) is None,
            },
    {
        object_fields(&self.value)
    }

    /// The record id.
    pub fn id(&self) -> (r: &str)
        requires
            self.spec_id() is Some,
        ensures
            r@ == self.key(),
    {
        match &self.id {
            Some(s) => s.as_str(),
            None => "",
        }
    }

    /// Whether the record's id is `id`.
    pub fn has_id(&self, id: &String) -> (r: bool)
        ensures
            r == (self.spec_id() == Some(id@)),
    {
        match &self.id {
            Some(s) => *s == *id,
            None => false,
        }
    }

    /// The record timestamp.
    pub fn last_modified(&self) -> (r: u64)
        requires
            self.spec_last_modified() is Some,
        ensures
            r == self.spec_last_modified().unwrap(),
    {
        match self.last_modified {
            Some(t) => t,
            None => 0,
        }
    }

    /// Whether the record is a tombstone: its `deleted` field is `true`.
    pub fn deleted(&self) -> (r: bool)
        ensures
            r == self.spec_deleted(),
    {
        self.deleted
    }

    /// The value of a field, or `None` when the record has no such field.
    pub fn get(&self, key: &str) -> (r: Option<&serde_json::Value>)
        ensures
            match r {
                Some(x) => json_at(self.data(), key@) == Some(*x),
                None => json_at(self.data(), key@) is None,
            },
    {
        field(&self.value, key)
    }
}

impl Clone for Record {
    fn clone(&self) -> (r: Record)
        ensures
            r == *self,
    {
        proof {
            use_type_invariant(self);
        }
        let id = match &self.id {
            Some(s) => Some(s.clone()),
            None => None,
        };
        Record {
            value: self.value.clone(),
            id,
            last_modified: self.last_modified,
            deleted: self.deleted,
        }
    }
}

/// Each record wraps the item at its position.
pub open spec fn records_wrap(records: Seq<Record>, items: Seq<serde_json::Value>) -> bool {
    &&& records.len() == items.len()
    &&& forall|i: int| 0 <= i < records.len() ==> (#[trigger] records[i]).wraps(items[i])
}

/// Wraps each item in a record, in order.
pub fn wrap_items(items: &Vec<serde_json::Value>) -> (r: Vec<Record>)
    ensures
        records_wrap(r@, items@),
{
    let mut records: Vec<Record> = Vec::new();
    let mut i: usize = 0;
    while i < items.len()
        invariant
            i <= items.len(),
            records.len() == i,
            forall|j: int| 0 <= j < i ==> (#[trigger] records[j]).wraps(items[j]),
        decreases items.len() - i,
    {
        records.push(Record::new(items[i].clone()));
        i = i + 1;
    }
    records
}

/// Every record carries both required fields.
pub open spec fn all_complete(records: Seq<Record>) -> bool {
    forall|i: int| 0 <= i < records.len() ==> (#[trigger] records[i]).is_complete()
}

/// Whether every record carries both required fields.
pub fn records_complete(records: &Vec<Record>) -> (r: bool)
    ensures
        r == all_complete(records@),
{
    let mut i: usize = 0;
    while i < records.len()
        invariant
            i <= records.len(),
            forall|j: int| 0 <= j < i ==> (#[trigger] records[j]).is_complete(),
        decreases records.len() - i,
    {
        if !records[i].is_valid() {
            return false;
        }
        i = i + 1;
    }
    true
}

/// A collection as it is stored and handed to the caller.
#[derive(Clone, Debug, PartialEq)]
pub struct Collection {
    pub bid: String,
    pub cid: String,
    pub metadata: serde_json::Value,
    pub records: Vec<Record>,
    pub timestamp: u64,
}

} // verus!
