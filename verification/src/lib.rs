//! A generic repository layer for relational persistence: a uniform,
//! contract-checked set of CRUD operations (insert, find, update, delete,
//! count) over any entity type that exposes an integer primary key.
use vstd::prelude::*;

mod entry;
mod laws;
mod memory;
mod policy;
mod record;
mod repository;
mod table;

pub use entry::{Entry, NewEntry};
pub use laws::{
    lemma_at_most_one_row, lemma_count_consistency, lemma_delete_idempotent,
    lemma_insert_round_trip,
};
pub use memory::MemRepository;
pub use policy::{affected_to_changed, count_from_engine};
pub use record::Record;
pub use repository::CrudRepository;
pub use table::{has_key, key_index, unique_keys};

verus! {

/// The failures a repository operation can surface.
#[derive(Clone, Copy, Debug, PartialEq, Eq, Structural)]
pub enum RepoError {
    /// The underlying connection is unusable.
    ConnectionFailure,
    /// An insert or update violates a uniqueness or integrity constraint.
    ConstraintViolation,
    /// A count or identifier cannot be represented in the requested type.
    TypeConversionFailure,
    /// A single-key operation affected more than one row.
    InvariantViolation,
}

} // verus!
