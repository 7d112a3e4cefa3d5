//! Ordering a vector by an integer rank of its items.
use vstd::prelude::*;
use vstd::multiset::Multiset;

verus! {

broadcast use vstd::seq_lib::group_to_multiset_ensures;

/// `s` is ordered by `rank`, lowest first.
pub open spec fn sorted_by_rank<T>(s: Seq<T>, rank: spec_fn(T) -> int) -> bool {
    forall|i: int, j: int| 0 <= i < j < s.len() ==> rank(s[i]) <= rank(s[j])
}

proof fn lemma_insert_to_multiset<T>(s: Seq<T>, j: int, x: T)
    requires
        0 <= j <= s.len(),
    ensures
        s.insert(j, x).to_multiset() =~= s.to_multiset().insert(x),
{
    broadcast use vstd::multiset::group_multiset_axioms;

    let t = s.insert(j, x);
    assert(t.remove(j) =~= s);
    assert(t[j] == x);
    assert(t.contains(x));
    assert(t.to_multiset().count(x) > 0);
}

/// Reorders `items` by the ranks in `ranks` (`ranks[i]` is the rank of
/// `items[i]`), lowest first, keeping every item.
pub fn sort_by_rank<T>(items: Vec<T>, ranks: Vec<i64>, Ghost(rank): Ghost<spec_fn(T) -> int>) -> (r: Vec<T>)
    requires
        items.len() == ranks.len(),
        forall|i: int| 0 <= i < items.len() ==> ranks@[i] == rank(#[trigger] items@[i]),
    ensures
        r@.to_multiset() == items@.to_multiset(),
        sorted_by_rank(r@, rank),
{
    let mut rest = items;
    let mut rest_ranks = ranks;
    let mut out: Vec<T> = Vec::new();
    let mut out_ranks: Vec<i64> = Vec::new();
    let ghost all = rest@;
    while rest.len() > 0
        invariant
            rest.len() == rest_ranks.len(),
            out.len() == out_ranks.len(),
            forall|i: int| 0 <= i < rest.len() ==> rest_ranks@[i] == rank(#[trigger] rest@[i]),
            forall|i: int| 0 <= i < out.len() ==> out_ranks@[i] == rank(#[trigger] out@[i]),
            out@.to_multiset().add(rest@.to_multiset()) == all.to_multiset(),
            sorted_by_rank(out@, rank),
        decreases rest.len(),
    {
        broadcast use vstd::multiset::group_multiset_axioms;

        let ghost old_rest = rest@;
        let ghost old_out = out@;
        assert(rest_ranks@[0] == rank(rest@[0]));
        let x = rest.remove(0);
        let k = rest_ranks.remove(0);
        assert(old_rest.remove(0) =~= rest@);
        let mut j: usize = 0;
        while j < out.len() && out_ranks[j] <= k
            invariant
                j <= out.len(),
                out.len() == out_ranks.len(),
                forall|m: int| 0 <= m < j ==> out_ranks@[m] <= k,
            decreases out.len() - j,
        {
            j = j + 1;
        }
        proof {
            assert forall|m: int| 0 <= m < j implies rank(#[trigger] old_out[m]) <= k by {
                assert(out_ranks@[m] == rank(out@[m]));
            }
            if j < out.len() {
                assert(out_ranks@[j as int] == rank(out@[j as int]));
                assert forall|m: int| j <= m < out.len() implies rank(#[trigger] old_out[m]) > k by {
                    assert(rank(old_out[j as int]) <= rank(old_out[m]));
                }
            }
            lemma_insert_to_multiset(old_out, j as int, x);
        }
        out.insert(j, x);
        out_ranks.insert(j, k);
        proof {
            let t = out@;
            assert(t =~= old_out.insert(j as int, x));
            old_out.insert_ensures(j as int, x);
            assert forall|a: int, b: int| 0 <= a < b < t.len() implies rank(t[a]) <= rank(t[b]) by {
                if b < j {
                } else if b == j {
                    assert(t[a] == old_out[a]);
                } else if a < j {
                    assert(t[b] == old_out[b - 1]);
                } else if a == j {
                    assert(t[b] == old_out[b - 1]);
                } else {
                    assert(t[a] == old_out[a - 1]);
                    assert(t[b] == old_out[b - 1]);
                }
            }
            assert forall|i: int| 0 <= i < out.len() implies out_ranks@[i] == rank(#[trigger] out@[i]) by {
                if i < j {
                } else if i > j {
                    assert(out@[i] == old_out[i - 1]);
                }
            }
            assert(old_rest.to_multiset() =~= rest@.to_multiset().insert(x));
        }
    }
    assert(rest@.to_multiset() =~= Multiset::empty());
    assert(out@.to_multiset().add(Multiset::empty()) =~= out@.to_multiset());
    out
}

} // verus!
