//! The sum of the balances held in a finite table.
use vstd::prelude::*;

verus! {

/// The sum of all values of a finite map.
pub open spec fn total_of(m: Map<u64, u128>) -> int
    decreases m.dom().len(),
    when m.dom().finite()
{
    if m.dom().len() == 0 {
        0
    } else {
        let k = m.dom().choose();
        m[k] + total_of(m.remove(k))
    }
}

/// Taking any one key out of the map takes exactly its value out of the sum.
pub proof fn lemma_total_remove(m: Map<u64, u128>, k: u64)
    requires
        m.dom().finite(),
        m.contains_key(k),
    ensures
        total_of(m) == m[k] + total_of(m.remove(k)),
    decreases m.dom().len(),
{
    let c = m.dom().choose();
    if c != k {
        lemma_total_remove(m.remove(c), k);
        lemma_total_remove(m.remove(k), c);
        assert(m.remove(c).remove(k) =~= m.remove(k).remove(c));
    }
}

/// Adding a key that was absent adds its value to the sum.
pub proof fn lemma_total_insert_new(m: Map<u64, u128>, k: u64, v: u128)
    requires
        m.dom().finite(),
        !m.contains_key(k),
    ensures
        total_of(m.insert(k, v)) == total_of(m) + v,
{
    lemma_total_remove(m.insert(k, v), k);
    assert(m.insert(k, v).remove(k) =~= m);
}

/// Overwriting the value of a present key changes the sum by the difference.
pub proof fn lemma_total_update(m: Map<u64, u128>, k: u64, v: u128)
    requires
        m.dom().finite(),
        m.contains_key(k),
    ensures
        total_of(m.insert(k, v)) == total_of(m) - m[k] + v,
{
    lemma_total_remove(m, k);
    lemma_total_remove(m.insert(k, v), k);
    assert(m.insert(k, v).remove(k) =~= m.remove(k));
}

/// Every value of the map is at most the sum, which is never negative.
pub proof fn lemma_total_bounds(m: Map<u64, u128>, k: u64)
    requires
        m.dom().finite(),
        m.contains_key(k),
    ensures
        0 <= m[k] <= total_of(m),
{
    lemma_total_remove(m, k);
    lemma_total_nonneg(m.remove(k));
}

/// The sum of a map of unsigned values is never negative.
pub proof fn lemma_total_nonneg(m: Map<u64, u128>)
    requires
        m.dom().finite(),
    ensures
        total_of(m) >= 0,
    decreases m.dom().len(),
{
    if m.dom().len() != 0 {
        let k = m.dom().choose();
        lemma_total_nonneg(m.remove(k));
    }
}

/// Two values under distinct keys together are at most the sum.
pub proof fn lemma_total_two(m: Map<u64, u128>, a: u64, b: u64)
    requires
        m.dom().finite(),
        m.contains_key(a),
        m.contains_key(b),
        a != b,
    ensures
        m[a] + m[b] <= total_of(m),
{
    lemma_total_remove(m, a);
    lemma_total_bounds(m.remove(a), b);
}

} // verus!
