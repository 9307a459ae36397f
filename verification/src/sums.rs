//! Summing a weight function over the values of a finite map, with the
//! update lemmas the ledger's invariants need: a client's held funds are
//! stated as such a sum over the dispute-tracking entries, and conservation
//! is stated as such a sum over the accounts.

use vstd::prelude::*;

verus! {

/// Sum of `weight` over the values of the finite map `m`, one addend per
/// key.
pub open spec fn map_sum<K, V>(m: Map<K, V>, weight: spec_fn(V) -> int) -> int
    decreases m.dom().len() when m.dom().finite()
{
    if m.dom().len() > 0 {
        let k = m.dom().choose();
        weight(m[k]) + map_sum(m.remove(k), weight)
    } else {
        0
    }
}

/// Removing a key takes exactly its weight out of the sum, wherever the
/// recursion's choice order would have visited it.
pub proof fn lemma_map_sum_remove<K, V>(m: Map<K, V>, weight: spec_fn(V) -> int, k: K)
    requires
        m.dom().finite(),
        m.dom().contains(k),
    ensures
        map_sum(m, weight) == weight(m[k]) + map_sum(m.remove(k), weight),
    decreases m.dom().len(),
{
    let k0 = m.dom().choose();
    if k0 == k {
        assert(map_sum(m, weight) == weight(m[k]) + map_sum(m.remove(k), weight));
    } else {
        lemma_map_sum_remove(m.remove(k0), weight, k);
        lemma_map_sum_remove(m.remove(k), weight, k0);
        assert(m.remove(k0).remove(k) =~= m.remove(k).remove(k0));
    }
}

/// Inserting a fresh key adds exactly its weight.
pub proof fn lemma_map_sum_insert<K, V>(m: Map<K, V>, weight: spec_fn(V) -> int, k: K, v: V)
    requires
        m.dom().finite(),
        !m.dom().contains(k),
    ensures
        map_sum(m.insert(k, v), weight) == map_sum(m, weight) + weight(v),
{
    lemma_map_sum_remove(m.insert(k, v), weight, k);
    assert(m.insert(k, v).remove(k) =~= m);
}

/// Overwriting a present key swaps its old weight for the new one.
pub proof fn lemma_map_sum_update<K, V>(m: Map<K, V>, weight: spec_fn(V) -> int, k: K, v: V)
    requires
        m.dom().finite(),
        m.dom().contains(k),
    ensures
        map_sum(m.insert(k, v), weight) == map_sum(m, weight) - weight(m[k]) + weight(v),
{
    lemma_map_sum_remove(m, weight, k);
    lemma_map_sum_remove(m.insert(k, v), weight, k);
    assert(m.insert(k, v).remove(k) =~= m.remove(k));
}

/// A sum of non-negative weights is non-negative.
pub proof fn lemma_map_sum_nonneg<K, V>(m: Map<K, V>, weight: spec_fn(V) -> int)
    requires
        m.dom().finite(),
        forall|v: V| 0 <= #[trigger] weight(v),
    ensures
        0 <= map_sum(m, weight),
    decreases m.dom().len(),
{
    if m.dom().len() > 0 {
        let k = m.dom().choose();
        lemma_map_sum_nonneg(m.remove(k), weight);
    }
}

/// With non-negative weights, the sum covers any single member's weight.
pub proof fn lemma_map_sum_ge_member<K, V>(m: Map<K, V>, weight: spec_fn(V) -> int, k: K)
    requires
        m.dom().finite(),
        m.dom().contains(k),
        forall|v: V| 0 <= #[trigger] weight(v),
    ensures
        weight(m[k]) <= map_sum(m, weight),
{
    lemma_map_sum_remove(m, weight, k);
    lemma_map_sum_nonneg(m.remove(k), weight);
}

/// A sum of all-zero weights is zero.
pub proof fn lemma_map_sum_zero<K, V>(m: Map<K, V>, weight: spec_fn(V) -> int)
    requires
        m.dom().finite(),
        forall|k: K| m.dom().contains(k) ==> weight(#[trigger] m[k]) == 0,
    ensures
        map_sum(m, weight) == 0,
    decreases m.dom().len(),
{
    if m.dom().len() > 0 {
        let k = m.dom().choose();
        lemma_map_sum_zero(m.remove(k), weight);
    }
}

} // verus!
