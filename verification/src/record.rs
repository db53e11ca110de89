use vstd::prelude::*;

verus! {

/// An entity type that a repository can manage: one value stands for one row
/// of a table, identified by an integer primary key.
///
/// `New` is the insertable shape of the entity: the same row without the
/// backend-generated key. `materialize` is the binding between the two
/// shapes: it builds the full row that inserting a `New` value under a given
/// generated key produces.
pub trait Record: Sized {
    /// The insertable shape of this entity, lacking the generated key.
    type New;

    /// The primary key of a row.
    spec fn key_spec(&self) -> i64;

    /// The row that an insertable value becomes under a given generated key.
    spec fn materialized(new_entity: Self::New, key: i64) -> Self;

    /// The primary key, as an executable accessor.
    fn key(&self) -> (k: i64)
        ensures
            k == self.key_spec(),
    ;

    /// An owned copy of the row, equal to the row it copies.
    fn dup(&self) -> (r: Self)
        ensures
            r == *self,
    ;

    /// Build the full row from an insertable value and a generated key.
    fn materialize(new_entity: Self::New, key: i64) -> (r: Self)
        ensures
            r == Self::materialized(new_entity, key),
            r.key_spec() == key,
    ;
}

} // verus!
