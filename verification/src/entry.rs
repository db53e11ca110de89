//! A ready-made entity: one generated integer key and two payload fields.
use vstd::prelude::*;

use crate::record::Record;

verus! {

/// A row with a generated key, a text field and a flag field.
#[derive(Debug)]
pub struct Entry {
    pub id: i64,
    pub field1: String,
    pub field2: bool,
}

/// The insertable shape of `Entry`: the payload without the generated key.
#[derive(Debug)]
pub struct NewEntry {
    pub field1: String,
    pub field2: bool,
}

impl Record for Entry {
    type New = NewEntry;

    open spec fn key_spec(&self) -> i64 {
        self.id
    }

    open spec fn materialized(new_entity: NewEntry, key: i64) -> Entry {
        Entry { id: key, field1: new_entity.field1, field2: new_entity.field2 }
    }

    fn key(&self) -> (k: i64) {
        self.id
    }

    fn dup(&self) -> (r: Entry) {
        Entry { id: self.id, field1: self.field1.clone(), field2: self.field2 }
    }

    fn materialize(new_entity: NewEntry, key: i64) -> (r: Entry) {
        Entry { id: key, field1: new_entity.field1, field2: new_entity.field2 }
    }
}

impl PartialEq for Entry {
    fn eq(&self, other: &Entry) -> (r: bool) {
        self.id == other.id && self.field1 == other.field1 && self.field2 == other.field2
    }
}

impl vstd::std_specs::cmp::PartialEqSpecImpl for Entry {
    open spec fn obeys_eq_spec() -> bool {
        true
    }

    open spec fn eq_spec(&self, other: &Entry) -> bool {
        self.id == other.id && self.field1@ == other.field1@ && self.field2 == other.field2
    }
}

} // verus!
