use super::condition::{callable_on, evaluate, qualifying, qualifying_uids, verdicts_of};
use super::delta_set::{Delta, DeltaSet};
use super::input_queue::{InputDatum, InputQueue};
use rustc_hash::FxHashSet;
use vstd::prelude::*;

verus! {

/// Tracks the inputs that meet one condition, with no capturing involved.
pub struct SimpleAction(DeltaSet);

impl View for SimpleAction {
    type V = Delta;

    closed spec fn view(&self) -> Delta {
        self.0@
    }
}

impl Default for SimpleAction {
    fn default() -> (action: Self)
        ensures
            action@ == Delta::empty(),
    {
        SimpleAction(DeltaSet::default())
    }
}

impl SimpleAction {
    /// Takes the inputs that `verdicts` lets through as the new current set.
    pub fn update_with(&mut self, queue: &InputQueue, verdicts: &Vec<bool>)
        ensures
            final(self)@ == old(self)@.push(qualifying(queue.frame(), verdicts@, false)),
            final(self)@.consistent(),
    {
        let uids = qualifying_uids(queue.input(), verdicts, false);
        self.0.push_new(&uids);
    }

    /// Takes the inputs of the queue that meet `active_condition` as the new
    /// current set.
    pub fn update<F: Fn(&InputDatum) -> bool>(&mut self, queue: &InputQueue, active_condition: &F)
        requires
            callable_on(*active_condition, queue.frame()),
        ensures
            exists|verdicts: Seq<bool>|
                {
                    &&& verdicts_of(*active_condition, queue.frame(), verdicts)
                    &&& final(self)@ == old(self)@.push(
                        #[trigger] qualifying(queue.frame(), verdicts, false),
                    )
                },
            final(self)@.consistent(),
    {
        let verdicts = evaluate(queue.input(), active_condition);
        self.update_with(queue, &verdicts);
    }

    /// The inputs that met the condition at the last update and not before.
    pub fn started_acting(&self) -> (set: &FxHashSet<u64>)
        ensures
            set@ == self@.added,
    {
        self.0.added()
    }

    /// The inputs that met the condition at the last update.
    pub fn currently_acting(&self) -> (set: &FxHashSet<u64>)
        ensures
            set@ == self@.current,
    {
        self.0.current()
    }

    /// The inputs that met the condition before the last update and no longer
    /// at it.
    pub fn stopped_acting(&self) -> (set: &FxHashSet<u64>)
        ensures
            set@ == self@.removed,
    {
        self.0.removed()
    }
}

} // verus!
