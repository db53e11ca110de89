//! A repository bound to a table held in memory: the verified
//! implementation of the operation contract. It plays the part of the
//! storage engine itself, so none of its operations can fail for external
//! reasons; the one error it can surface is the exhaustion of the key
//! space on insert.
use vstd::prelude::*;

use crate::record::Record;
use crate::repository::CrudRepository;
use crate::table::{
    has_key, lemma_key_index_of, lemma_push_fresh_keeps_unique, lemma_remove_keeps_unique,
    lemma_update_same_key_keeps_unique, unique_keys,
};
use crate::RepoError;

verus! {

/// A repository over an in-memory table of `E` rows. Keys are generated as
/// a strictly growing sequence, so every row's key stays below the key to
/// be generated next.
pub struct MemRepository<E> {
    rows: Vec<E>,
    next_key: i64,
}

impl<E: Record> MemRepository<E> {
    /// An empty repository whose first generated key is 1.
    pub fn new() -> (r: Self)
        ensures
            r.wf(),
            r.model() == Seq::<E>::empty(),
            r.infallible(),
            r.fresh_key() == 1,
    {
        MemRepository { rows: Vec::new(), next_key: 1 }
    }

    /// An empty repository that resumes an existing key sequence: its first
    /// generated key is `first_key`.
    pub fn with_first_key(first_key: i64) -> (r: Self)
        ensures
            r.wf(),
            r.model() == Seq::<E>::empty(),
            r.infallible() == (first_key < i64::MAX),
            r.fresh_key() == first_key,
    {
        MemRepository { rows: Vec::new(), next_key: first_key }
    }
}

impl<E: Record> CrudRepository<E> for MemRepository<E> {
    closed spec fn model(&self) -> Seq<E> {
        self.rows@
    }

    closed spec fn wf(&self) -> bool {
        &&& unique_keys(self.rows@)
        &&& forall|i: int|
            0 <= i < self.rows@.len() ==> (#[trigger] self.rows@[i].key_spec()) < self.next_key
    }

    closed spec fn infallible(&self) -> bool {
        self.next_key < i64::MAX
    }

    closed spec fn fresh_key(&self) -> i64 {
        self.next_key
    }

    proof fn wf_properties(&self) {
        assert(!has_key(self.rows@, self.next_key)) by {
            if has_key(self.rows@, self.next_key) {
                let i = choose|i: int|
                    0 <= i < self.rows@.len() && (#[trigger] self.rows@[i].key_spec())
                        == self.next_key;
                assert(self.rows@[i].key_spec() < self.next_key);
            }
        }
    }

    fn insert(&mut self, new_entity: E::New) -> (r: Result<E, RepoError>) {
        if self.next_key == i64::MAX {
            return Err(RepoError::ConstraintViolation);
        }
        let k = self.next_key;
        let e = E::materialize(new_entity, k);
        let out = e.dup();
        proof {
            self.wf_properties();
            lemma_push_fresh_keeps_unique(self.rows@, e);
        }
        self.rows.push(e);
        self.next_key = k + 1;
        Ok(out)
    }

    fn insert_only(&mut self, new_entity: E::New) -> (r: Result<(), RepoError>) {
        match self.insert(new_entity) {
            Ok(_) => Ok(()),
            Err(e) => Err(e),
        }
    }

    fn find_by_id(&self, id: i64) -> (r: Result<Option<E>, RepoError>) {
        let n = self.rows.len();
        let mut i: usize = 0;
        while i < n
            invariant
                self.wf(),
                n == self.rows@.len(),
                i <= n,
                forall|j: int| 0 <= j < i ==> (#[trigger] self.rows@[j].key_spec()) != id,
            decreases n - i,
        {
            if self.rows[i].key() == id {
                proof {
                    lemma_key_index_of(self.rows@, id, i as int);
                }
                return Ok(Some(self.rows[i].dup()));
            }
            i = i + 1;
        }
        Ok(None)
    }

    fn find_all(&self) -> (r: Result<Vec<E>, RepoError>) {
        let n = self.rows.len();
        let mut out: Vec<E> = Vec::new();
        let mut i: usize = 0;
        while i < n
            invariant
                n == self.rows@.len(),
                i <= n,
                out@ == self.rows@.subrange(0, i as int),
            decreases n - i,
        {
            out.push(self.rows[i].dup());
            proof {
                assert(out@ =~= self.rows@.subrange(0, i + 1 as int));
            }
            i = i + 1;
        }
        proof {
            assert(out@ =~= self.rows@);
        }
        Ok(out)
    }

    fn update(&mut self, entity: &E) -> (r: Result<bool, RepoError>) {
        let id = entity.key();
        let n = self.rows.len();
        let mut i: usize = 0;
        while i < n
            invariant
                self == old(self),
                self.wf(),
                n == self.rows@.len(),
                i <= n,
                forall|j: int| 0 <= j < i ==> (#[trigger] self.rows@[j].key_spec()) != id,
                id == entity.key_spec(),
            decreases n - i,
        {
            if self.rows[i].key() == id {
                proof {
                    lemma_key_index_of(self.rows@, id, i as int);
                    lemma_update_same_key_keeps_unique(self.rows@, i as int, *entity);
                }
                self.rows[i] = entity.dup();
                proof {
                    assert forall|j: int|
                        0 <= j < self.rows@.len() implies (#[trigger] self.rows@[j].key_spec())
                        < self.next_key by {
                        assert(self.rows@[j] == if j == i { *entity } else { old(self).rows@[j] });
                    }
                }
                return Ok(true);
            }
            i = i + 1;
        }
        Ok(false)
    }

    fn delete(&mut self, entity: E) -> (r: Result<bool, RepoError>) {
        let id = entity.key();
        self.delete_by_id(id)
    }

    fn delete_by_id(&mut self, id: i64) -> (r: Result<bool, RepoError>) {
        let n = self.rows.len();
        let mut i: usize = 0;
        while i < n
            invariant
                self == old(self),
                self.wf(),
                n == self.rows@.len(),
                i <= n,
                forall|j: int| 0 <= j < i ==> (#[trigger] self.rows@[j].key_spec()) != id,
            decreases n - i,
        {
            if self.rows[i].key() == id {
                proof {
                    lemma_key_index_of(self.rows@, id, i as int);
                    lemma_remove_keeps_unique(self.rows@, i as int);
                }
                self.rows.remove(i);
                proof {
                    assert forall|j: int|
                        0 <= j < self.rows@.len() implies (#[trigger] self.rows@[j].key_spec())
                        < self.next_key by {
                        let j0: int = if j < i { j } else { j + 1 };
                        assert(self.rows@[j] == old(self).rows@[j0]);
                    }
                }
                return Ok(true);
            }
            i = i + 1;
        }
        Ok(false)
    }

    fn count(&self) -> (r: Result<u64, RepoError>) {
        Ok(self.rows.len() as u64)
    }
}

} // verus!
