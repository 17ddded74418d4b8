//! The available-voices listing.
//!
//! The synthesis model hands back its speakers as (id, name) pairs in no
//! particular order; what the shell is owed is that list sorted by id
//! ascending. The sort lives here, verified: the result is ordered and
//! holds exactly the given pairs.

use vstd::prelude::*;
use vstd::seq_lib::group_to_multiset_ensures;
use vstd::multiset::group_multiset_axioms;

verus! {

/// Sorted by speaker id, ascending.
pub open spec fn sorted_by_id(s: Seq<(i32, String)>) -> bool {
    forall|i: int, j: int| 0 <= i < j < s.len() ==> s[i].0 <= s[j].0
}

/// Sort a speaker list by id ascending. The result holds exactly the
/// given pairs, ordered.
pub fn sort_speakers(speakers: Vec<(i32, String)>) -> (r: Vec<(i32, String)>)
    ensures
        sorted_by_id(r@),
        r@.to_multiset() == speakers@.to_multiset(),
        r@.len() == speakers@.len(),
{
    broadcast use group_to_multiset_ensures;
    broadcast use group_multiset_axioms;

    let mut src = speakers;
    let mut out: Vec<(i32, String)> = Vec::new();
    while src.len() > 0
        invariant
            sorted_by_id(out@),
            out@.to_multiset().add(src@.to_multiset()) == speakers@.to_multiset(),
            out@.len() + src@.len() == speakers@.len(),
            forall|t: int, u: int|
                0 <= t < out@.len() && 0 <= u < src@.len() ==> out@[t].0 <= src@[u].0,
        decreases src@.len(),
    {
        broadcast use group_to_multiset_ensures;
        broadcast use group_multiset_axioms;

        // the index of a minimal id among what is left
        let mut m: usize = 0;
        let mut k: usize = 1;
        while k < src.len()
            invariant
                0 < src@.len(),
                m < src@.len(),
                1 <= k <= src@.len(),
                forall|t: int| 0 <= t < k ==> src@[m as int].0 <= src@[t].0,
            decreases src@.len() - k,
        {
            if src[k].0 < src[m].0 {
                m = k;
            }
            k = k + 1;
        }
        let ghost src_before = src@;
        let ghost out_before = out@;
        let x = src.remove(m);
        out.push(x);
        proof {
            assert(out@.to_multiset() == out_before.to_multiset().insert(x));
            assert(src@.to_multiset() == src_before.to_multiset().remove(x));
            assert(src_before.to_multiset().count(x) > 0);
            assert(out@.to_multiset().add(src@.to_multiset()) =~= out_before.to_multiset().add(
                src_before.to_multiset(),
            ));
            // everything still waiting is an element of what waited before
            assert forall|u: int| 0 <= u < src@.len() implies x.0 <= src@[u].0 && (forall|t: int|
                0 <= t < out_before.len() ==> out_before[t].0 <= src@[u].0) by {
                if u < m {
                    assert(src@[u] == src_before[u]);
                } else {
                    assert(src@[u] == src_before[u + 1]);
                }
            }
        }
    }
    out
}

} // verus!
