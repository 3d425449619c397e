use super::condition::{
    callable_on, evaluate, passes, qualifying, qualifying_uids, triggered, verdicts_of,
};
use super::delta_set::{Delta, DeltaSet};
use super::input_queue::{InputDatum, InputQueue};
use rustc_hash::FxHashSet;
use vstd::prelude::*;

verus! {

/// Tracks the inputs that meet one condition. Where it captures on trigger,
/// it asks for the capture of every input that meets the condition and counts
/// an input only once it is seen captured.
pub struct MultiActorAction(DeltaSet);

impl View for MultiActorAction {
    type V = Delta;

    closed spec fn view(&self) -> Delta {
        self.0@
    }
}

impl Default for MultiActorAction {
    fn default() -> (action: Self)
        ensures
            action@ == Delta::empty(),
    {
        MultiActorAction(DeltaSet::default())
    }
}

/// The capture requests that one update adds to the queue.
pub open spec fn requests_on_trigger(
    capture_on_trigger: bool,
    frame: Seq<InputDatum>,
    verdicts: Seq<bool>,
) -> Seq<u64> {
    if capture_on_trigger {
        triggered(frame, verdicts)
    } else {
        Seq::empty()
    }
}

/// Asks for the capture of every input that `verdicts` lets through.
pub(crate) fn request_triggered(queue: &mut InputQueue, verdicts: &Vec<bool>)
    ensures
        final(queue).frame() == old(queue).frame(),
        final(queue).capture_requests() == old(queue).capture_requests() + triggered(
            old(queue).frame(),
            verdicts@,
        ),
{
    let ghost frame = queue.frame();
    let ghost waiting = queue.capture_requests();
    let n = queue.input().len();
    let mut i: usize = 0;
    proof {
        assert(waiting + triggered(frame.take(0), verdicts@) == waiting);
    }
    while i < n
        invariant
            i <= n,
            n == frame.len(),
            queue.frame() == frame,
            queue.capture_requests() == waiting + triggered(frame.take(i as int), verdicts@),
        decreases n - i,
    {
        let datum = queue.input()[i];
        let passed = i < verdicts.len() && verdicts[i];
        proof {
            let next = frame.take(i as int + 1);
            assert(next.drop_last() == frame.take(i as int));
            assert(next.last() == datum);
            assert(passed == passes(verdicts@, next.len() - 1));
            assert(frame[i as int].uid == datum.uid);
        }
        if passed {
            queue.request_capture(datum.uid);
            proof {
                let before = triggered(frame.take(i as int), verdicts@);
                assert((waiting + before).push(datum.uid) == waiting + before.push(datum.uid));
            }
        }
        i += 1;
    }
    proof {
        assert(frame.take(n as int) == frame);
    }
}

impl MultiActorAction {
    /// Takes the inputs that count under `verdicts` as the new current set,
    /// and, where `capture_on_trigger` is set, asks for the capture of every
    /// input that `verdicts` lets through.
    pub fn update_with(
        &mut self,
        capture_on_trigger: bool,
        queue: &mut InputQueue,
        verdicts: &Vec<bool>,
    )
        ensures
            final(self)@ == old(self)@.push(
                qualifying(old(queue).frame(), verdicts@, capture_on_trigger),
            ),
            final(self)@.consistent(),
            final(queue).frame() == old(queue).frame(),
            final(queue).capture_requests() == old(queue).capture_requests()
                + requests_on_trigger(capture_on_trigger, old(queue).frame(), verdicts@),
    {
        if capture_on_trigger {
            request_triggered(queue, verdicts);
        } else {
            assert(queue.capture_requests() + Seq::<u64>::empty() == queue.capture_requests());
        }
        let uids = qualifying_uids(queue.input(), verdicts, capture_on_trigger);
        self.0.push_new(&uids);
    }

    /// Takes the inputs of the queue that meet `active_condition` as the new
    /// current set; see [`MultiActorAction::update_with`].
    pub fn update<F: Fn(&InputDatum) -> bool>(
        &mut self,
        capture_on_trigger: bool,
        queue: &mut InputQueue,
        active_condition: F,
    )
        requires
            callable_on(active_condition, old(queue).frame()),
        ensures
            exists|verdicts: Seq<bool>|
                {
                    &&& verdicts_of(active_condition, old(queue).frame(), verdicts)
                    &&& final(self)@ == old(self)@.push(
                        #[trigger] qualifying(old(queue).frame(), verdicts, capture_on_trigger),
                    )
                    &&& final(queue).capture_requests() == old(queue).capture_requests()
                        + requests_on_trigger(capture_on_trigger, old(queue).frame(), verdicts)
                },
            final(self)@.consistent(),
            final(queue).frame() == old(queue).frame(),
    {
        let verdicts = evaluate(queue.input(), &active_condition);
        self.update_with(capture_on_trigger, queue, &verdicts);
    }

    /// The inputs that counted at the last update and not before.
    pub fn started_acting(&self) -> (set: &FxHashSet<u64>)
        ensures
            set@ == self@.added,
    {
        self.0.added()
    }

    /// The inputs that counted at the last update.
    pub fn currently_acting(&self) -> (set: &FxHashSet<u64>)
        ensures
            set@ == self@.current,
    {
        self.0.current()
    }

    /// The inputs that counted before the last update and no longer at it.
    pub fn stopped_acting(&self) -> (set: &FxHashSet<u64>)
        ensures
            set@ == self@.removed,
    {
        self.0.removed()
    }
}

} // verus!
