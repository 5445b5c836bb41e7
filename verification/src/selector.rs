//! Candidate selection: which SSID the next join attempt should target.

use vstd::prelude::*;
use vstd::set_lib::lemma_len_subset;
use crate::ssid_set::SsidSet;

verus! {

/// The joinable pool: networks that are both visible and known.
pub open spec fn pool(visible: Set<Seq<char>>, known: Set<Seq<char>>) -> Set<Seq<char>> {
    visible.intersect(known)
}

/// Pool members not yet attempted in the current pass.
pub open spec fn fresh_pool(
    visible: Set<Seq<char>>,
    attempted: Set<Seq<char>>,
    known: Set<Seq<char>>,
) -> Set<Seq<char>> {
    pool(visible, known).difference(attempted)
}

/// Everything one selector call may do, relating the chosen candidate `r`
/// and the attempted set after the call to the inputs:
/// a fresh candidate is picked while one exists; once the pass is exhausted
/// the attempted set is reseeded from the bare pool; an empty pool yields
/// nothing. Which pool member is picked is deliberately left open.
pub open spec fn select_ok(
    visible: Set<Seq<char>>,
    attempted0: Set<Seq<char>>,
    known: Set<Seq<char>>,
    r: Option<Seq<char>>,
    attempted1: Set<Seq<char>>,
) -> bool {
    if !fresh_pool(visible, attempted0, known).is_empty() {
        &&& r is Some
        &&& fresh_pool(visible, attempted0, known).contains(r->0)
        &&& attempted1 == attempted0.insert(r->0)
    } else if !pool(visible, known).is_empty() {
        &&& r is Some
        &&& pool(visible, known).contains(r->0)
        &&& attempted1 == Set::<Seq<char>>::empty().insert(r->0)
    } else {
        &&& r is None
        &&& attempted1 == Set::<Seq<char>>::empty()
    }
}

/// Picks the SSID of the next join attempt: a visible, known network that
/// was not yet attempted in this pass; failing that, the attempted set is
/// cleared and any visible, known network is picked, so a stable pool is
/// cycled through rather than starved; with no candidate at all, `None`.
/// The pick is recorded in `ssid_attempted`.
pub fn get_next_ssid(ssid_list: &SsidSet, ssid_attempted: &mut SsidSet, ap_list: &SsidSet) -> (r:
    Option<String>)
    requires
        ssid_list.wf(),
        old(ssid_attempted).wf(),
        ap_list.wf(),
    ensures
        final(ssid_attempted).wf(),
        select_ok(
            ssid_list@,
            old(ssid_attempted)@,
            ap_list@,
            match r {
                Some(s) => Some(s@),
                None => None,
            },
            final(ssid_attempted)@,
        ),
{
    let n = ssid_list.len();
    let mut i: usize = 0;
    while i < n
        invariant
            ssid_list.wf(),
            ap_list.wf(),
            ssid_attempted.wf(),
            *ssid_attempted == *old(ssid_attempted),
            n == ssid_list.seq().len(),
            i <= n,
            forall|k: int|
                0 <= k < i ==> !fresh_pool(ssid_list@, ssid_attempted@, ap_list@).contains(
                    ssid_list.seq()[k],
                ),
        decreases n - i,
    {
        let s = ssid_list.get(i);
        if ap_list.contains(s) && !ssid_attempted.contains(s) {
            proof {
                assert(fresh_pool(ssid_list@, ssid_attempted@, ap_list@).contains(s@));
            }
            let c = s.clone();
            ssid_attempted.insert(s.clone());
            return Some(c);
        }
        i += 1;
    }
    proof {
        assert(fresh_pool(ssid_list@, ssid_attempted@, ap_list@).is_empty()) by {
            ssid_list.lemma_view();
            assert forall|x: Seq<char>|
                !fresh_pool(ssid_list@, ssid_attempted@, ap_list@).contains(x) by {
                if fresh_pool(ssid_list@, ssid_attempted@, ap_list@).contains(x) {
                    let k = choose|k: int|
                        0 <= k < ssid_list.seq().len() && ssid_list.seq()[k] == x;
                }
            }
            assert(fresh_pool(ssid_list@, ssid_attempted@, ap_list@) =~= Set::<
                Seq<char>,
            >::empty());
        }
    }
    ssid_attempted.clear();
    let mut j: usize = 0;
    while j < n
        invariant
            ssid_list.wf(),
            ap_list.wf(),
            ssid_attempted.wf(),
            ssid_attempted@ == Set::<Seq<char>>::empty(),
            fresh_pool(ssid_list@, old(ssid_attempted)@, ap_list@).is_empty(),
            n == ssid_list.seq().len(),
            j <= n,
            forall|k: int|
                0 <= k < j ==> !pool(ssid_list@, ap_list@).contains(ssid_list.seq()[k]),
        decreases n - j,
    {
        let s = ssid_list.get(j);
        if ap_list.contains(s) {
            proof {
                assert(pool(ssid_list@, ap_list@).contains(s@));
            }
            let c = s.clone();
            ssid_attempted.insert(s.clone());
            return Some(c);
        }
        j += 1;
    }
    proof {
        assert(pool(ssid_list@, ap_list@).is_empty()) by {
            ssid_list.lemma_view();
            assert forall|x: Seq<char>| !pool(ssid_list@, ap_list@).contains(x) by {
                if pool(ssid_list@, ap_list@).contains(x) {
                    let k = choose|k: int|
                        0 <= k < ssid_list.seq().len() && ssid_list.seq()[k] == x;
                }
            }
            assert(pool(ssid_list@, ap_list@) =~= Set::<Seq<char>>::empty());
        }
    }
    None
}

/// Cyclic coverage of the candidate pool. While the pool is non-empty every
/// call returns a pool member and records it; as long as fresh candidates
/// remain, each call returns one that was not attempted before and strictly
/// shrinks the fresh set, so within pool-many calls every member of a stable
/// pool has been returned; and the call that finds the pass exhausted
/// reseeds, making every pool member fresh again except the one it returns.
pub proof fn lemma_selector_coverage(
    visible: Set<Seq<char>>,
    attempted0: Set<Seq<char>>,
    known: Set<Seq<char>>,
    r: Option<Seq<char>>,
    attempted1: Set<Seq<char>>,
)
    requires
        visible.finite(),
        select_ok(visible, attempted0, known, r, attempted1),
        !pool(visible, known).is_empty(),
    ensures
        r is Some,
        pool(visible, known).contains(r->0),
        attempted1.contains(r->0),
        !fresh_pool(visible, attempted0, known).is_empty() ==> !attempted0.contains(r->0)
            && fresh_pool(visible, attempted1, known).len() < fresh_pool(
            visible,
            attempted0,
            known,
        ).len(),
        fresh_pool(visible, attempted0, known).is_empty() ==> fresh_pool(
            visible,
            attempted1,
            known,
        ) == pool(visible, known).remove(r->0),
{
    broadcast use vstd::set::group_set_axioms;

    let p = pool(visible, known);
    let f0 = fresh_pool(visible, attempted0, known);
    let f1 = fresh_pool(visible, attempted1, known);
    lemma_len_subset(p, visible);
    lemma_len_subset(f0, p);
    if !f0.is_empty() {
        let x = r->0;
        assert(f1 =~= f0.remove(x));
        assert(f0.remove(x).len() == f0.len() - 1);
    } else {
        assert(f1 =~= p.remove(r->0));
    }
}

} // verus!
