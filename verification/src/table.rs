//! The mathematical model of a bound table: a sequence of rows whose keys
//! are pairwise distinct.
use vstd::prelude::*;

use crate::record::Record;

verus! {

/// Whether some row of the table `m` carries the primary key `k`.
pub open spec fn has_key<E: Record>(m: Seq<E>, k: i64) -> bool {
    exists|i: int| 0 <= i < m.len() && (#[trigger] m[i].key_spec()) == k
}

/// The index of the row of `m` that carries the key `k`; meaningful only
/// when `has_key(m, k)` holds.
pub open spec fn key_index<E: Record>(m: Seq<E>, k: i64) -> int {
    choose|i: int| 0 <= i < m.len() && (#[trigger] m[i].key_spec()) == k
}

/// Every key identifies at most one row.
pub open spec fn unique_keys<E: Record>(m: Seq<E>) -> bool {
    forall|i: int, j: int|
        0 <= i < m.len() && 0 <= j < m.len() && i != j
            ==> (#[trigger] m[i].key_spec()) != (#[trigger] m[j].key_spec())
}

/// Under `unique_keys`, a row seen to carry `k` stands at `key_index(m, k)`.
pub proof fn lemma_key_index_of<E: Record>(m: Seq<E>, k: i64, i: int)
    requires
        unique_keys(m),
        0 <= i < m.len(),
        m[i].key_spec() == k,
    ensures
        has_key(m, k),
        key_index(m, k) == i,
{
    assert(has_key(m, k));
    let j = key_index(m, k);
    assert(0 <= j < m.len() && m[j].key_spec() == k);
}

/// When `has_key(m, k)` holds, `key_index(m, k)` is a position of `m` and
/// the row there carries `k`.
pub proof fn lemma_key_index_in_range<E: Record>(m: Seq<E>, k: i64)
    requires
        has_key(m, k),
    ensures
        0 <= key_index(m, k) < m.len(),
        m[key_index(m, k)].key_spec() == k,
{
}

/// Appending a row whose key is absent keeps the keys pairwise distinct.
pub proof fn lemma_push_fresh_keeps_unique<E: Record>(m: Seq<E>, e: E)
    requires
        unique_keys(m),
        !has_key(m, e.key_spec()),
    ensures
        unique_keys(m.push(e)),
{
    let p = m.push(e);
    assert forall|i: int, j: int|
        0 <= i < p.len() && 0 <= j < p.len() && i != j implies (#[trigger] p[i].key_spec())
        != (#[trigger] p[j].key_spec()) by {
        if i < m.len() && j < m.len() {
            assert(p[i] == m[i] && p[j] == m[j]);
        } else if i < m.len() {
            assert(p[i] == m[i] && p[j] == e);
            assert(m[i].key_spec() != e.key_spec());
        } else {
            assert(p[i] == e && p[j] == m[j]);
            assert(m[j].key_spec() != e.key_spec());
        }
    }
}

/// Replacing a row by one that carries the same key keeps the keys pairwise
/// distinct.
pub proof fn lemma_update_same_key_keeps_unique<E: Record>(m: Seq<E>, i: int, e: E)
    requires
        unique_keys(m),
        0 <= i < m.len(),
        e.key_spec() == m[i].key_spec(),
    ensures
        unique_keys(m.update(i, e)),
{
    let u = m.update(i, e);
    assert forall|p: int, q: int|
        0 <= p < u.len() && 0 <= q < u.len() && p != q implies (#[trigger] u[p].key_spec())
        != (#[trigger] u[q].key_spec()) by {
        assert(u[p] == if p == i { e } else { m[p] });
        assert(u[q] == if q == i { e } else { m[q] });
        assert(m[p].key_spec() != m[q].key_spec());
    }
}

/// Removing a row keeps the keys pairwise distinct.
pub proof fn lemma_remove_keeps_unique<E: Record>(m: Seq<E>, i: int)
    requires
        unique_keys(m),
        0 <= i < m.len(),
    ensures
        unique_keys(m.remove(i)),
{
    let r = m.remove(i);
    assert forall|p: int, q: int|
        0 <= p < r.len() && 0 <= q < r.len() && p != q implies (#[trigger] r[p].key_spec())
        != (#[trigger] r[q].key_spec()) by {
        let p0: int = if p < i { p } else { p + 1 };
        let q0: int = if q < i { q } else { q + 1 };
        assert(r[p] == m[p0] && r[q] == m[q0]);
        assert(m[p0].key_spec() != m[q0].key_spec());
    }
}

} // verus!
