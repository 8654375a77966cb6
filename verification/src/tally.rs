use vstd::prelude::*;

verus! {

/// The amount that `m` holds for `k`: absent keys hold nothing.
pub open spec fn entry<K>(m: Map<K, int>, k: K) -> int {
    if m.contains_key(k) {
        m[k]
    } else {
        0
    }
}

/// `m` with `k` holding `v`. An entry that reaches zero is dropped, so a map
/// never records a zero amount.
pub open spec fn with_entry<K>(m: Map<K, int>, k: K, v: int) -> Map<K, int> {
    if v == 0 {
        m.remove(k)
    } else {
        m.insert(k, v)
    }
}

/// Every recorded amount is strictly positive.
pub open spec fn positive_entries<K>(m: Map<K, int>) -> bool {
    forall|k: K| m.contains_key(k) ==> m[k] > 0
}

/// Every recorded amount is strictly positive, and there are finitely many.
pub open spec fn all_positive<K>(m: Map<K, int>) -> bool {
    &&& m.dom().finite()
    &&& positive_entries(m)
}

/// The sum of all amounts recorded in `m`.
pub open spec fn sum_values<K>(m: Map<K, int>) -> int
    decreases m.dom().len(),
    when m.dom().finite()
{
    if m.dom().len() == 0 {
        0
    } else {
        let k = m.dom().choose();
        m[k] + sum_values(m.remove(k))
    }
}

/// The sum does not depend on which key is taken out first.
pub proof fn lemma_sum_split<K>(m: Map<K, int>, k: K)
    requires
        m.dom().finite(),
        m.contains_key(k),
    ensures
        sum_values(m) == m[k] + sum_values(m.remove(k)),
    decreases m.dom().len(),
{
    let c = m.dom().choose();
    if c != k {
        lemma_sum_split(m.remove(c), k);
        lemma_sum_split(m.remove(k), c);
        assert(m.remove(c).remove(k) =~= m.remove(k).remove(c));
    }
}

/// Setting one entry changes the sum by the difference at that entry.
pub proof fn lemma_sum_with_entry<K>(m: Map<K, int>, k: K, v: int)
    requires
        m.dom().finite(),
    ensures
        with_entry(m, k, v).dom().finite(),
        sum_values(with_entry(m, k, v)) == sum_values(m) - entry(m, k) + v,
{
    if m.contains_key(k) {
        lemma_sum_split(m, k);
    } else {
        assert(m.remove(k) =~= m);
    }
    if v != 0 {
        let m2 = m.insert(k, v);
        lemma_sum_split(m2, k);
        assert(m2.remove(k) =~= m.remove(k));
    }
}

/// Where no amount is negative, none exceeds the sum, and the sum is not
/// negative.
pub proof fn lemma_entry_at_most_sum<K>(m: Map<K, int>, k: K)
    requires
        all_positive(m),
    ensures
        0 <= entry(m, k) <= sum_values(m),
    decreases m.dom().len(),
{
    if m.dom().len() != 0 {
        let c = m.dom().choose();
        lemma_entry_at_most_sum(m.remove(c), k);
        if m.contains_key(k) && c != k {
            assert(m.remove(c).contains_key(k));
        }
    } else {
        if m.contains_key(k) {
            assert(m.dom().contains(k));
        }
    }
}

} // verus!
