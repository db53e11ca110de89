//! The operation contract: the uniform CRUD interface a generated
//! repository exposes for one bound entity type.
use vstd::prelude::*;

use crate::record::Record;
use crate::table::{has_key, key_index, unique_keys};
use crate::RepoError;

verus! {

/// The seven CRUD operations over one bound (entity, key, backend) triple.
///
/// `model` is the bound table as the backend holds it; every operation says
/// exactly how it reads or rewrites that table. Mutating operations follow
/// one convention: they report a boolean derived from the affected-row
/// count, and a single-key operation never touches more than one row.
///
/// `infallible` is the capability of the backend to answer every request:
/// when it holds, each operation is owed a success. A backend that can fail
/// (a lost connection, a violated constraint) reports `Err`, and then leaves
/// the table as it was.
pub trait CrudRepository<E: Record>: Sized {
    /// The bound table: the sequence of rows the backend holds.
    spec fn model(&self) -> Seq<E>;

    /// Well-formedness of the binding; constructors establish it and every
    /// operation preserves it.
    spec fn wf(&self) -> bool;

    /// Whether the backend is owed a success on every operation.
    spec fn infallible(&self) -> bool;

    /// The key the backend will generate for the next inserted row.
    spec fn fresh_key(&self) -> i64;

    /// A well-formed repository has at most one row per key, and the key it
    /// will generate next is absent from the table.
    proof fn wf_properties(&self)
        requires
            self.wf(),
        ensures
            unique_keys(self.model()),
            !has_key(self.model(), self.fresh_key()),
    ;

    /// Insert an insertable value and return the materialized row,
    /// generated key included.
    fn insert(&mut self, new_entity: E::New) -> (r: Result<E, RepoError>)
        requires
            old(self).wf(),
        ensures
            final(self).wf(),
            old(self).infallible() ==> r is Ok,
            r matches Ok(e) ==> e == E::materialized(new_entity, old(self).fresh_key()),
            r matches Ok(e) ==> e.key_spec() == old(self).fresh_key(),
            r matches Ok(e) ==> final(self).model() == old(self).model().push(e),
            r is Ok && old(self).fresh_key() + 1 < i64::MAX ==> final(self).infallible(),
            r is Err ==> final(self).model() == old(self).model(),
    ;

    /// Insert an insertable value without asking the row back.
    fn insert_only(&mut self, new_entity: E::New) -> (r: Result<(), RepoError>)
        requires
            old(self).wf(),
        ensures
            final(self).wf(),
            old(self).infallible() ==> r is Ok,
            r is Ok ==> final(self).model() == old(self).model().push(
                E::materialized(new_entity, old(self).fresh_key()),
            ),
            r is Ok && old(self).fresh_key() + 1 < i64::MAX ==> final(self).infallible(),
            r is Err ==> final(self).model() == old(self).model(),
    ;

    /// Look one row up by its key; absence is a value, never a failure.
    fn find_by_id(&self, id: i64) -> (r: Result<Option<E>, RepoError>)
        requires
            self.wf(),
        ensures
            self.infallible() ==> r is Ok,
            r matches Ok(Some(e)) ==> has_key(self.model(), id),
            r matches Ok(Some(e)) ==> e == self.model()[key_index(self.model(), id)],
            r matches Ok(Some(e)) ==> e.key_spec() == id,
            r matches Ok(None) ==> !has_key(self.model(), id),
    ;

    /// Fetch every row of the table, in table order.
    fn find_all(&self) -> (r: Result<Vec<E>, RepoError>)
        requires
            self.wf(),
        ensures
            self.infallible() ==> r is Ok,
            r matches Ok(v) ==> v@ == self.model(),
    ;

    /// Rewrite the row that carries the key of `entity` with the fields of
    /// `entity`; report whether such a row existed.
    fn update(&mut self, entity: &E) -> (r: Result<bool, RepoError>)
        requires
            old(self).wf(),
        ensures
            final(self).wf(),
            old(self).infallible() ==> r is Ok,
            r matches Ok(changed) ==> changed == has_key(
                old(self).model(),
                entity.key_spec(),
            ),
            r matches Ok(true) ==> final(self).model() == old(self).model().update(
                key_index(old(self).model(), entity.key_spec()),
                *entity,
            ),
            r matches Ok(false) ==> final(self).model() == old(self).model(),
            r is Err ==> final(self).model() == old(self).model(),
            final(self).infallible() == old(self).infallible(),
            final(self).fresh_key() == old(self).fresh_key(),
    ;

    /// Delete the row that carries the key of `entity`; report whether such
    /// a row existed.
    fn delete(&mut self, entity: E) -> (r: Result<bool, RepoError>)
        requires
            old(self).wf(),
        ensures
            final(self).wf(),
            old(self).infallible() ==> r is Ok,
            r matches Ok(deleted) ==> deleted == has_key(
                old(self).model(),
                entity.key_spec(),
            ),
            r matches Ok(true) ==> final(self).model() == old(self).model().remove(
                key_index(old(self).model(), entity.key_spec()),
            ),
            r matches Ok(false) ==> final(self).model() == old(self).model(),
            r is Err ==> final(self).model() == old(self).model(),
            final(self).infallible() == old(self).infallible(),
            final(self).fresh_key() == old(self).fresh_key(),
    ;

    /// Delete the row that carries the key `id`; report whether such a row
    /// existed.
    fn delete_by_id(&mut self, id: i64) -> (r: Result<bool, RepoError>)
        requires
            old(self).wf(),
        ensures
            final(self).wf(),
            old(self).infallible() ==> r is Ok,
            r matches Ok(deleted) ==> deleted == has_key(old(self).model(), id),
            r matches Ok(true) ==> final(self).model() == old(self).model().remove(
                key_index(old(self).model(), id),
            ),
            r matches Ok(false) ==> final(self).model() == old(self).model(),
            r is Err ==> final(self).model() == old(self).model(),
            final(self).infallible() == old(self).infallible(),
            final(self).fresh_key() == old(self).fresh_key(),
    ;

    /// Count the rows of the table.
    fn count(&self) -> (r: Result<u64, RepoError>)
        requires
            self.wf(),
        ensures
            self.infallible() ==> r is Ok,
            r matches Ok(c) ==> c as nat == self.model().len(),
    ;
}

} // verus!
