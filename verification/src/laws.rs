//! The laws of the operation contract, proved over the table model that the
//! operations' own contracts speak of.
use vstd::prelude::*;

use crate::record::Record;
use crate::table::{
    has_key, key_index, lemma_key_index_in_range, lemma_key_index_of,
    lemma_push_fresh_keeps_unique, unique_keys,
};

verus! {

/// Round trip: inserting a row whose key is absent and then looking that
/// key up finds exactly the inserted row. An insert appends the
/// materialized row to the table's model, and a find by key returns the row
/// at `key_index`, so the two operations compose into this statement.
pub proof fn lemma_insert_round_trip<E: Record>(m: Seq<E>, e: E)
    requires
        unique_keys(m),
        !has_key(m, e.key_spec()),
    ensures
        unique_keys(m.push(e)),
        has_key(m.push(e), e.key_spec()),
        key_index(m.push(e), e.key_spec()) == m.len(),
        m.push(e)[key_index(m.push(e), e.key_spec())] == e,
{
    lemma_push_fresh_keeps_unique(m, e);
    lemma_key_index_of(m.push(e), e.key_spec(), m.len() as int);
}

/// Idempotent delete: once the row that carried `k` is removed, `k` is
/// absent from the table, so a second delete of `k` reports "not deleted"
/// and leaves the table as it is.
pub proof fn lemma_delete_idempotent<E: Record>(m: Seq<E>, k: i64)
    requires
        unique_keys(m),
        has_key(m, k),
    ensures
        !has_key(m.remove(key_index(m, k)), k),
{
    let i = key_index(m, k);
    lemma_key_index_in_range(m, k);
    let r = m.remove(i);
    assert forall|j: int| 0 <= j < r.len() implies (#[trigger] r[j].key_spec()) != k by {
        let j0: int = if j < i { j } else { j + 1 };
        assert(r[j] == m[j0]);
        assert(m[j0].key_spec() != m[i].key_spec());
    }
}

/// Single-row invariant: in a table with pairwise distinct keys, no two
/// positions carry the same key, so a key-scoped update or delete can
/// affect at most one row.
pub proof fn lemma_at_most_one_row<E: Record>(m: Seq<E>, k: i64, i: int, j: int)
    requires
        unique_keys(m),
        0 <= i < m.len(),
        0 <= j < m.len(),
        m[i].key_spec() == k,
        m[j].key_spec() == k,
    ensures
        i == j,
{
}

/// One bookkeeping step against a table: an insert of a row, or a delete
/// of the row that carries a given key.
pub enum TableOp<E> {
    Insert(E),
    Delete(i64),
}

/// The table that one operation leaves behind.
pub open spec fn apply_op<E: Record>(m: Seq<E>, op: TableOp<E>) -> Seq<E> {
    match op {
        TableOp::Insert(e) => m.push(e),
        TableOp::Delete(k) => if has_key(m, k) {
            m.remove(key_index(m, k))
        } else {
            m
        },
    }
}

/// The table that a run of operations leaves behind.
pub open spec fn apply_ops<E: Record>(m: Seq<E>, ops: Seq<TableOp<E>>) -> Seq<E>
    decreases ops.len(),
{
    if ops.len() == 0 {
        m
    } else {
        apply_ops(apply_op(m, ops[0]), ops.drop_first())
    }
}

/// Whether every operation of the run succeeds: each delete meets a table
/// that still holds its key.
pub open spec fn ops_succeed<E: Record>(m: Seq<E>, ops: Seq<TableOp<E>>) -> bool
    decreases ops.len(),
{
    if ops.len() == 0 {
        true
    } else {
        (match ops[0] {
            TableOp::Insert(_) => true,
            TableOp::Delete(k) => has_key(m, k),
        }) && ops_succeed(apply_op(m, ops[0]), ops.drop_first())
    }
}

/// How many operations of the run are inserts.
pub open spec fn insert_count<E>(ops: Seq<TableOp<E>>) -> int
    decreases ops.len(),
{
    if ops.len() == 0 {
        0
    } else {
        (if ops[0] is Insert {
            1int
        } else {
            0int
        }) + insert_count(ops.drop_first())
    }
}

/// How many operations of the run are deletes.
pub open spec fn delete_count<E>(ops: Seq<TableOp<E>>) -> int
    decreases ops.len(),
{
    if ops.len() == 0 {
        0
    } else {
        (if ops[0] is Delete {
            1int
        } else {
            0int
        }) + delete_count(ops.drop_first())
    }
}

/// Count consistency: after a run of inserts and deletes in which every
/// delete succeeds, the table holds its old rows, plus one row per insert,
/// minus one row per delete.
pub proof fn lemma_count_consistency<E: Record>(m: Seq<E>, ops: Seq<TableOp<E>>)
    requires
        ops_succeed(m, ops),
    ensures
        apply_ops(m, ops).len() == m.len() + insert_count(ops) - delete_count(ops),
    decreases ops.len(),
{
    if ops.len() != 0 {
        let m1 = apply_op(m, ops[0]);
        match ops[0] {
            TableOp::Insert(_) => {},
            TableOp::Delete(k) => {
                lemma_key_index_in_range(m, k);
            },
        }
        lemma_count_consistency(m1, ops.drop_first());
    }
}

} // verus!
