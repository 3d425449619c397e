//! Choosing one input among several: the one with the lowest uid, so that
//! the same inputs always give the same choice.

use vstd::prelude::*;

verus! {

/// Whether `uid` is the least member of `set`.
pub open spec fn is_lowest(set: Set<u64>, uid: u64) -> bool {
    set.contains(uid) && forall|other: u64| set.contains(other) ==> uid <= other
}

/// The least member of `set`, if it has a member.
pub open spec fn lowest(set: Set<u64>) -> Option<u64> {
    if exists|uid: u64| is_lowest(set, uid) {
        Some(choose|uid: u64| is_lowest(set, uid))
    } else {
        None
    }
}

/// A set has at most one least member.
pub proof fn lemma_lowest_is_unique(set: Set<u64>, uid: u64)
    requires
        is_lowest(set, uid),
    ensures
        lowest(set) == Some(uid),
{
    let chosen = choose|u: u64| is_lowest(set, u);
    assert(is_lowest(set, chosen));
    assert(chosen <= uid && uid <= chosen);
}

/// What `lowest` picks is a member, and no member is below it; it picks
/// nothing only from a set without a least member.
pub proof fn lemma_lowest_is_member(set: Set<u64>)
    ensures
        match lowest(set) {
            Some(uid) => is_lowest(set, uid),
            None => forall|uid: u64| !is_lowest(set, uid),
        },
{
}

/// The least of `uids`.
pub fn lowest_of(uids: &Vec<u64>) -> (least: Option<u64>)
    ensures
        least == lowest(uids@.to_set()),
        least.is_none() <==> uids@.len() == 0,
{
    let ghost set = uids@.to_set();
    let mut best: Option<u64> = None;
    let mut i: usize = 0;
    while i < uids.len()
        invariant
            i <= uids.len(),
            set == uids@.to_set(),
            best.is_some() ==> set.contains(best.unwrap()),
            best.is_none() ==> i == 0,
            forall|k: int| 0 <= k < i ==> best.is_some() && best.unwrap() <= #[trigger] uids@[k],
        decreases uids.len() - i,
    {
        let uid = uids[i];
        proof {
            assert(uids@.to_set().contains(uid));
        }
        let better = match best {
            None => true,
            Some(least) => uid < least,
        };
        if better {
            best = Some(uid);
        }
        i += 1;
    }
    proof {
        match best {
            Some(least) => {
                assert forall|other: u64| set.contains(other) implies least <= other by {
                    let k = choose|k: int| 0 <= k < uids@.len() && uids@[k] == other;
                    assert(least <= uids@[k]);
                }
                lemma_lowest_is_unique(set, least);
            },
            None => {
                assert forall|u: u64| !is_lowest(set, u) by {
                    if set.contains(u) {
                        let k = choose|k: int| 0 <= k < uids@.len() && uids@[k] == u;
                    }
                }
            },
        }
    }
    best
}

} // verus!
