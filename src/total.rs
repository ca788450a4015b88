//! The sum of the amounts held in a finite map, and the facts about it that
//! the ledger's conservation proofs rely on.
use vstd::prelude::*;

verus! {

/// The sum of all values of `m` (zero for an empty or infinite map).
pub open spec fn total<K>(m: Map<K, u64>) -> int
    decreases m.dom().len(),
{
    if m.dom().finite() && m.dom().len() > 0 {
        let k = m.dom().choose();
        m[k] + total(m.remove(k))
    } else {
        0
    }
}

/// Taking any one key out of a finite map lowers its total by that key's value.
pub proof fn lemma_total_remove<K>(m: Map<K, u64>, k: K)
    requires
        m.dom().finite(),
        m.contains_key(k),
    ensures
        total(m) == m[k] + total(m.remove(k)),
    decreases m.dom().len(),
{
    let c = m.dom().choose();
    assert(m.dom().contains(c));
    if c != k {
        let mc = m.remove(c);
        let mk = m.remove(k);
        lemma_total_remove(mc, k);
        lemma_total_remove(mk, c);
        assert(mc.remove(k) =~= mk.remove(c));
    } else {
        assert(m.remove(k) =~= m.remove(c));
    }
}

/// The total of a map is never negative.
pub proof fn lemma_total_nonneg<K>(m: Map<K, u64>)
    ensures
        total(m) >= 0,
    decreases m.dom().len(),
{
    if m.dom().finite() && m.dom().len() > 0 {
        let k = m.dom().choose();
        lemma_total_nonneg(m.remove(k));
    }
}

/// Setting key `k` to `v` gives the total of the map without `k`, plus `v`.
pub proof fn lemma_total_insert<K>(m: Map<K, u64>, k: K, v: u64)
    requires
        m.dom().finite(),
    ensures
        total(m.insert(k, v)) == total(m.remove(k)) + v,
{
    let n = m.insert(k, v);
    lemma_total_remove(n, k);
    assert(n.remove(k) =~= m.remove(k));
}

/// Two distinct entries of a finite map together hold no more than its total.
pub proof fn lemma_total_bounds_pair<K>(m: Map<K, u64>, a: K, b: K)
    requires
        m.dom().finite(),
        m.contains_key(a),
        m.contains_key(b),
        a != b,
    ensures
        m[a] + m[b] <= total(m),
{
    lemma_total_remove(m, a);
    lemma_total_remove(m.remove(a), b);
    lemma_total_nonneg(m.remove(a).remove(b));
}

/// Any one entry of a finite map holds no more than its total.
pub proof fn lemma_total_bounds_entry<K>(m: Map<K, u64>, a: K)
    requires
        m.dom().finite(),
        m.contains_key(a),
    ensures
        m[a] <= total(m),
{
    lemma_total_remove(m, a);
    lemma_total_nonneg(m.remove(a));
}

} // verus!
