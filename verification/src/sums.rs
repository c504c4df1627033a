use vstd::prelude::*;

verus! {

/// The sum of all values of a finite map.
pub open spec fn sum(m: Map<u64, int>) -> int
    decreases m.dom().len(),
{
    if m.dom().finite() && m.dom().len() > 0 {
        let k = m.dom().choose();
        m[k] + sum(m.remove(k))
    } else {
        0
    }
}

/// The amounts of a map as numbers.
pub open spec fn amounts(m: Map<u64, i128>) -> Map<u64, int> {
    m.map_values(|v: i128| v as int)
}

/// Any one value can be taken out of a sum.
pub proof fn lemma_sum_remove(m: Map<u64, int>, k: u64)
    requires
        m.dom().finite(),
        m.contains_key(k),
    ensures
        sum(m) == m[k] + sum(m.remove(k)),
    decreases m.dom().len(),
{
    assert(m.dom().len() > 0) by {
        if m.dom().len() == 0 {
            m.dom().lemma_len0_is_empty();
            assert(m.dom().contains(k));
        }
    }
    let c = m.dom().choose();
    assert(m.dom().contains(c));
    if c != k {
        lemma_sum_remove(m.remove(c), k);
        lemma_sum_remove(m.remove(k), c);
        assert(m.remove(c).remove(k) =~= m.remove(k).remove(c));
    }
}

/// Storing a value changes a sum by the difference from what was there.
pub proof fn lemma_sum_insert(m: Map<u64, int>, k: u64, v: int)
    requires
        m.dom().finite(),
    ensures
        sum(m.insert(k, v)) == sum(m) + v - (if m.contains_key(k) {
            m[k]
        } else {
            0
        }),
{
    lemma_sum_remove(m.insert(k, v), k);
    if m.contains_key(k) {
        lemma_sum_remove(m, k);
        assert(m.insert(k, v).remove(k) =~= m.remove(k));
    } else {
        assert(m.insert(k, v).remove(k) =~= m);
    }
}

/// A sum of values that are not negative is at least as large as any one.
pub proof fn lemma_sum_bounds(m: Map<u64, int>)
    requires
        m.dom().finite(),
        forall|k: u64| #[trigger] m.contains_key(k) ==> m[k] >= 0,
    ensures
        sum(m) >= 0,
        forall|k: u64| #[trigger] m.contains_key(k) ==> m[k] <= sum(m),
    decreases m.dom().len(),
{
    if m.dom().len() > 0 {
        let c = m.dom().choose();
        assert(m.dom().contains(c));
        lemma_sum_bounds(m.remove(c));
        assert forall|k: u64| #[trigger] m.contains_key(k) implies m[k] <= sum(m) by {
            if k != c {
                assert(m.remove(c).contains_key(k));
            }
        }
    } else {
        m.dom().lemma_len0_is_empty();
        assert forall|k: u64| #[trigger] m.contains_key(k) implies m[k] <= sum(m) by {
            assert(m.dom().contains(k));
        }
    }
}

} // verus!
