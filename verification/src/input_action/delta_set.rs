use super::uid_set;
use rustc_hash::FxHashSet;
use vstd::prelude::*;

verus! {

/// The three sets of a [`DeltaSet`], as mathematical sets of uids.
pub struct Delta {
    pub added: Set<u64>,
    pub current: Set<u64>,
    pub removed: Set<u64>,
}

impl Delta {
    /// The delta of a tracker that has seen nothing yet.
    pub open spec fn empty() -> Delta {
        Delta { added: Set::empty(), current: Set::empty(), removed: Set::empty() }
    }

    /// The delta after the snapshot `new` replaces the current set.
    pub open spec fn push(self, new: Set<u64>) -> Delta {
        Delta {
            added: new.difference(self.current),
            current: new,
            removed: self.current.difference(new),
        }
    }

    /// What holds of every delta that a tracker can be in: what was added is
    /// current, and what was removed is not.
    pub open spec fn consistent(self) -> bool {
        &&& self.added.subset_of(self.current)
        &&& self.removed.disjoint(self.current)
    }
}

/// The delta after the snapshots of `snapshots` were pushed, oldest first.
pub open spec fn after_snapshots(start: Delta, snapshots: Seq<Set<u64>>) -> Delta
    decreases snapshots.len(),
{
    if snapshots.len() == 0 {
        start
    } else {
        after_snapshots(start, snapshots.drop_last()).push(snapshots.last())
    }
}

/// Whatever was there before, after a push nothing is both added and
/// removed, what was added is current, what was removed is not, and the
/// current set is the snapshot that was pushed.
pub proof fn lemma_push_parts(before: Delta, new: Set<u64>)
    ensures
        before.push(new).added.disjoint(before.push(new).removed),
        before.push(new).consistent(),
        before.push(new).current == new,
{
}

/// After any sequence of snapshots, pushed onto an empty tracker, nothing is
/// both added and removed, and the current set is the last snapshot.
pub proof fn lemma_added_and_removed_disjoint(snapshots: Seq<Set<u64>>)
    ensures
        after_snapshots(Delta::empty(), snapshots).added.disjoint(
            after_snapshots(Delta::empty(), snapshots).removed,
        ),
        after_snapshots(Delta::empty(), snapshots).consistent(),
        snapshots.len() > 0 ==> after_snapshots(Delta::empty(), snapshots).current
            == snapshots.last(),
{
    if snapshots.len() > 0 {
        lemma_push_parts(
            after_snapshots(Delta::empty(), snapshots.drop_last()),
            snapshots.last(),
        );
    }
}

/// Tracks which uids entered and left a set between two successive full
/// snapshots of it.
pub struct DeltaSet {
    added: FxHashSet<u64>,
    current: FxHashSet<u64>,
    removed: FxHashSet<u64>,
}

impl View for DeltaSet {
    type V = Delta;

    closed spec fn view(&self) -> Delta {
        Delta { added: self.added@, current: self.current@, removed: self.removed@ }
    }
}

impl Default for DeltaSet {
    fn default() -> (set: Self)
        ensures
            set@ == Delta::empty(),
    {
        DeltaSet {
            added: uid_set::empty_set(),
            current: uid_set::empty_set(),
            removed: uid_set::empty_set(),
        }
    }
}

impl DeltaSet {
    /// Replaces the current set by the snapshot `new` (a uid may occur in it
    /// more than once) and recomputes what was added and removed.
    pub fn push_new(&mut self, new: &Vec<u64>)
        ensures
            final(self)@ == old(self)@.push(new@.to_set()),
            final(self)@.consistent(),
            final(self)@.added.disjoint(final(self)@.removed),
    {
        let mut current = uid_set::empty_set();
        let mut added = uid_set::empty_set();
        let mut i: usize = 0;
        while i < new.len()
            invariant
                i <= new.len(),
                current@ == new@.take(i as int).to_set(),
                added@ == new@.take(i as int).to_set().difference(self.current@),
            decreases new.len() - i,
        {
            let uid = new[i];
            proof {
                let before = new@.take(i as int);
                assert(new@.take(i as int + 1) == before.push(uid));
                before.lemma_push_to_set_commute(uid);
            }
            uid_set::insert(&mut current, uid);
            if !uid_set::contains(&self.current, uid) {
                uid_set::insert(&mut added, uid);
            }
            proof {
                assert(added@ =~= new@.take(i as int + 1).to_set().difference(self.current@));
            }
            i += 1;
        }
        proof {
            assert(new@.take(new.len() as int) == new@);
        }
        let previous = uid_set::members(&self.current);
        let mut removed = uid_set::empty_set();
        let mut j: usize = 0;
        while j < previous.len()
            invariant
                j <= previous.len(),
                previous@.to_set() == self.current@,
                removed@ =~= Set::new(
                    |u: u64|
                        exists|k: int|
                            0 <= k < j && previous@[k] == u && !current@.contains(u),
                ),
            decreases previous.len() - j,
        {
            let uid = previous[j];
            if !uid_set::contains(&current, uid) {
                uid_set::insert(&mut removed, uid);
            }
            j += 1;
        }
        proof {
            assert(removed@ =~= self.current@.difference(current@)) by {
                assert forall|u: u64| self.current@.difference(current@).contains(
                    u,
                ) implies removed@.contains(u) by {
                    assert(previous@.to_set().contains(u));
                    let k = choose|k: int| 0 <= k < previous@.len() && previous@[k] == u;
                    assert(0 <= k < j && previous@[k] == u && !current@.contains(u));
                }
                assert forall|u: u64| removed@.contains(u) implies self.current@.difference(
                    current@,
                ).contains(u) by {
                    let k = choose|k: int|
                        0 <= k < j && previous@[k] == u && !current@.contains(u);
                    assert(previous@.to_set().contains(previous@[k]));
                }
            }
        }
        self.added = added;
        self.removed = removed;
        self.current = current;
    }

    /// What the last snapshot held that the one before it did not.
    pub fn added(&self) -> (set: &FxHashSet<u64>)
        ensures
            set@ == self@.added,
    {
        &self.added
    }

    /// What the last snapshot held.
    pub fn current(&self) -> (set: &FxHashSet<u64>)
        ensures
            set@ == self@.current,
    {
        &self.current
    }

    /// What the snapshot before the last held that the last did not.
    pub fn removed(&self) -> (set: &FxHashSet<u64>)
        ensures
            set@ == self@.removed,
    {
        &self.removed
    }
}

} // verus!
