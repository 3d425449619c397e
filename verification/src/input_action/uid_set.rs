//! The few operations on `FxHashSet<u64>` that the input actions need.
//!
//! Verus knows a hash set of std by its view, a `Set`, but knows what the
//! set's methods do only for std's own hasher. The functions here state what
//! those methods do for sets of `u64` built with the Fx hasher; their
//! contracts are taken on trust and their bodies are not verified.

use rustc_hash::FxHashSet;
use vstd::prelude::*;

verus! {

/// The hasher builder of `rustc_hash`, carried through as an opaque type.
#[verifier::external_type_specification]
#[verifier::external_body]
pub struct ExFxBuildHasher(rustc_hash::FxBuildHasher);

/// `FxHashSet::default`: a set that holds nothing.
#[verifier::external_body]
pub(crate) fn empty_set() -> (set: FxHashSet<u64>)
    ensures
        set@ == Set::<u64>::empty(),
{
    FxHashSet::default()
}

/// `HashSet::insert` on an Fx set: afterwards the set holds `uid` besides
/// what it held; the result says whether `uid` was new to it.
#[verifier::external_body]
pub(crate) fn insert(set: &mut FxHashSet<u64>, uid: u64) -> (fresh: bool)
    ensures
        final(set)@ == old(set)@.insert(uid),
        fresh == !old(set)@.contains(uid),
{
    set.insert(uid)
}

/// `HashSet::contains` on an Fx set: whether the set holds `uid`.
#[verifier::external_body]
pub(crate) fn contains(set: &FxHashSet<u64>, uid: u64) -> (found: bool)
    ensures
        found == set@.contains(uid),
{
    set.contains(&uid)
}

/// `HashSet::iter` on an Fx set, collected: every member once, in an order
/// that nothing is said about.
#[verifier::external_body]
pub(crate) fn members(set: &FxHashSet<u64>) -> (uids: Vec<u64>)
    ensures
        uids@.no_duplicates(),
        uids@.to_set() == set@,
{
    set.iter().copied().collect()
}

} // verus!
