//! Strictly increasing sequences of ids: the sorted form of a finite set.

use vstd::prelude::*;

verus! {

/// Every element is smaller than every later one.
pub open spec fn strictly_increasing(s: Seq<u64>) -> bool {
    forall|i: int, j: int| 0 <= i < j < s.len() ==> s[i] < s[j]
}

/// `s` lists the elements of `ids` in increasing order, each once.
pub open spec fn is_sorted_listing(s: Seq<u64>, ids: Set<u64>) -> bool {
    strictly_increasing(s) && s.to_set() == ids
}

/// The elements of `ids` in increasing order, each once.
pub open spec fn sorted_ids(ids: Set<u64>) -> Seq<u64> {
    choose|s: Seq<u64>| is_sorted_listing(s, ids)
}

/// A set has at most one strictly increasing listing.
pub proof fn lemma_sorted_listing_unique(a: Seq<u64>, b: Seq<u64>)
    requires
        strictly_increasing(a),
        strictly_increasing(b),
        a.to_set() == b.to_set(),
    ensures
        a == b,
    decreases a.len(),
{
    if a.len() == 0 {
        if b.len() > 0 {
            assert(b.to_set().contains(b[0]));
        }
        assert(a =~= b);
    } else {
        assert(a.to_set().contains(a[0]));
        assert(b.contains(a[0]));
        let k = choose|k: int| 0 <= k < b.len() && b[k] == a[0];
        assert(b.to_set().contains(b[0]));
        assert(a.contains(b[0]));
        let m = choose|m: int| 0 <= m < a.len() && a[m] == b[0];
        assert(a[0] <= a[m]);
        assert(b[0] <= b[k]);
        assert(a[0] == b[0]);
        let a1 = a.drop_first();
        let b1 = b.drop_first();
        assert forall|x: u64| a1.contains(x) <==> b1.contains(x) by {
            if a1.contains(x) {
                let i = choose|i: int| 0 <= i < a1.len() && a1[i] == x;
                assert(a[i + 1] == x);
                assert(a.to_set().contains(x));
                assert(b.contains(x));
                let j = choose|j: int| 0 <= j < b.len() && b[j] == x;
                assert(j != 0);
                assert(b1[j - 1] == x);
            }
            if b1.contains(x) {
                let i = choose|i: int| 0 <= i < b1.len() && b1[i] == x;
                assert(b[i + 1] == x);
                assert(b.to_set().contains(x));
                assert(a.contains(x));
                let j = choose|j: int| 0 <= j < a.len() && a[j] == x;
                assert(j != 0);
                assert(a1[j - 1] == x);
            }
        }
        assert(a1.to_set() =~= b1.to_set());
        lemma_sorted_listing_unique(a1, b1);
        assert forall|i: int| 0 <= i < a.len() implies a[i] == b[i] by {
            if i > 0 {
                assert(a1[i - 1] == b1[i - 1]);
            }
        }
        assert(a =~= b);
    }
}

/// A strictly increasing listing of a set is the set's sorted listing.
pub proof fn lemma_sorted_ids_is(s: Seq<u64>)
    requires
        strictly_increasing(s),
    ensures
        sorted_ids(s.to_set()) == s,
{
    let ids = s.to_set();
    assert(is_sorted_listing(s, ids));
    let c = sorted_ids(ids);
    lemma_sorted_listing_unique(c, s);
}

/// Adds an id to a strictly increasing vector, keeping it strictly increasing.
pub fn insert_sorted(v: &mut Vec<u64>, t: u64)
    requires
        strictly_increasing(old(v)@),
    ensures
        strictly_increasing(final(v)@),
        final(v)@.to_set() == old(v)@.to_set().insert(t),
{
    let mut j: usize = 0;
    while j < v.len() && v[j] < t
        invariant
            j <= v@.len(),
            v@ == old(v)@,
            forall|k: int| 0 <= k < j ==> v@[k] < t,
        decreases v@.len() - j,
    {
        j = j + 1;
    }
    if j < v.len() && v[j] == t {
        assert(v@.to_set().contains(t));
        assert(v@.to_set() =~= old(v)@.to_set().insert(t));
        return;
    }
    let ghost before = v@;
    assert(j < before.len() ==> before[j as int] > t);
    v.insert(j, t);
    proof {
        before.insert_ensures(j as int, t);
        assert forall|a: int, b: int| 0 <= a < b < v@.len() implies v@[a] < v@[b] by {
            if b < j {
                assert(v@[a] == before[a] && v@[b] == before[b]);
            } else if b == j {
                assert(v@[a] == before[a]);
            } else if a < j {
                assert(v@[a] == before[a] && v@[b] == before[b - 1]);
                assert(before[j as int] <= before[b - 1]);
            } else if a == j {
                assert(v@[b] == before[b - 1]);
                assert(before[j as int] <= before[b - 1]);
            } else {
                assert(v@[a] == before[a - 1] && v@[b] == before[b - 1]);
            }
        }
        assert forall|x: u64| v@.to_set().contains(x) <==> before.to_set().insert(t).contains(x) by {
            if v@.contains(x) {
                let i = choose|i: int| 0 <= i < v@.len() && v@[i] == x;
                if i < j {
                    assert(before[i] == x);
                } else if i > j {
                    assert(before[i - 1] == x);
                }
            }
            if before.contains(x) {
                let i = choose|i: int| 0 <= i < before.len() && before[i] == x;
                if i < j {
                    assert(v@[i] == x);
                } else {
                    assert(v@[i + 1] == x);
                }
            }
            if x == t {
                assert(v@[j as int] == t);
            }
        }
        assert(v@.to_set() =~= before.to_set().insert(t));
    }
}

} // verus!
