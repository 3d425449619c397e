use super::condition::{
    callable_on, evaluate, passes, qualifying, qualifying_uids, triggered, verdicts_of,
};
use super::delta_set::{Delta, DeltaSet};
use super::input_queue::{InputDatum, InputQueue};
use super::multi_actor_action::request_triggered;
use super::simple_action::SimpleAction;
use super::uid_set;
use vstd::prelude::*;

verus! {

/// What a [`MultiAction`] holds after an update.
pub struct Engagement {
    /// The inputs that meet the interact condition, captured or not.
    pub interact_condition: Delta,
    /// The inputs that hover.
    pub hover: Delta,
    /// The inputs that interact: they meet the interact condition and are
    /// captured.
    pub interact: Delta,
}

impl Engagement {
    /// The state before the first update.
    pub open spec fn initial() -> Engagement {
        Engagement {
            interact_condition: Delta::empty(),
            hover: Delta::empty(),
            interact: Delta::empty(),
        }
    }
}

/// Marks the data whose capture is asked for because they just began to meet
/// the interact condition while they hovered, and hovered before the last
/// update already.
pub open spec fn grasping(frame: Seq<InputDatum>, hover: Delta, meeting: Delta) -> Seq<bool> {
    Seq::new(
        frame.len(),
        |i: int|
            meeting.added.contains(frame[i].uid) && hover.current.contains(frame[i].uid)
                && !hover.added.contains(frame[i].uid),
    )
}

/// Marks the data that meet the interact condition and are captured.
pub open spec fn holding(frame: Seq<InputDatum>, interact: Seq<bool>) -> Seq<bool> {
    Seq::new(frame.len(), |i: int| passes(interact, i) && frame[i].captured)
}

/// Marks the data that hover: they meet the hover condition and either do
/// not meet the interact condition, or hovered before and are not captured.
pub open spec fn hovering(
    frame: Seq<InputDatum>,
    hover_verdicts: Seq<bool>,
    hover: Delta,
    meeting: Delta,
) -> Seq<bool> {
    Seq::new(
        frame.len(),
        |i: int|
            passes(hover_verdicts, i) && (!meeting.current.contains(frame[i].uid) || (
            hover.current.contains(frame[i].uid) && !frame[i].captured)),
    )
}

/// One update, from the verdicts of the two conditions on the frame.
pub open spec fn engage(
    before: Engagement,
    frame: Seq<InputDatum>,
    hover: Seq<bool>,
    interact: Seq<bool>,
) -> Engagement {
    let meeting = before.interact_condition.push(qualifying(frame, interact, false));
    Engagement {
        interact_condition: meeting,
        hover: before.hover.push(
            qualifying(frame, hovering(frame, hover, before.hover, meeting), false),
        ),
        interact: before.interact.push(qualifying(frame, interact, true)),
    }
}

/// The capture requests of one update: first for the inputs that just began
/// to meet the interact condition from a hover, then for those that meet it
/// and are captured; each group in the order of the frame.
pub open spec fn engage_requests(
    before: Engagement,
    frame: Seq<InputDatum>,
    interact: Seq<bool>,
) -> Seq<u64> {
    let meeting = before.interact_condition.push(qualifying(frame, interact, false));
    triggered(frame, grasping(frame, before.hover, meeting)) + triggered(
        frame,
        holding(frame, interact),
    )
}

/// Tracks which inputs hover over a widget and which interact with it. An
/// input interacts only once it is captured, and its capture is asked for
/// when it begins to meet the interact condition out of a hover.
pub struct MultiAction {
    interact_condition: SimpleAction,
    hover: DeltaSet,
    interact: DeltaSet,
}

impl View for MultiAction {
    type V = Engagement;

    closed spec fn view(&self) -> Engagement {
        Engagement {
            interact_condition: self.interact_condition@,
            hover: self.hover@,
            interact: self.interact@,
        }
    }
}

impl Default for MultiAction {
    fn default() -> (action: Self)
        ensures
            action@ == Engagement::initial(),
    {
        MultiAction {
            interact_condition: SimpleAction::default(),
            hover: DeltaSet::default(),
            interact: DeltaSet::default(),
        }
    }
}

impl MultiAction {
    /// One update from the verdicts of the two conditions on the queue's
    /// frame.
    pub fn update_with(&mut self, queue: &mut InputQueue, hover: &Vec<bool>, interact: &Vec<bool>)
        ensures
            final(self)@ == engage(old(self)@, old(queue).frame(), hover@, interact@),
            final(self)@.hover.consistent(),
            final(self)@.interact.consistent(),
            final(queue).frame() == old(queue).frame(),
            final(queue).capture_requests() == old(queue).capture_requests() + engage_requests(
                old(self)@,
                old(queue).frame(),
                interact@,
            ),
    {
        let ghost before = self@;
        let ghost frame = queue.frame();
        let ghost waiting = queue.capture_requests();
        self.interact_condition.update_with(queue, interact);
        let ghost meeting = self.interact_condition@;

        let n = queue.input().len();
        let mut grasp_marks: Vec<bool> = Vec::new();
        let mut hold_marks: Vec<bool> = Vec::new();
        let mut hover_marks: Vec<bool> = Vec::new();
        let mut i: usize = 0;
        while i < n
            invariant
                i <= n,
                n == frame.len(),
                queue.frame() == frame,
                self.hover@ == before.hover,
                self.interact_condition@ == meeting,
                grasp_marks@.len() == i,
                hold_marks@.len() == i,
                hover_marks@.len() == i,
                forall|k: int|
                    0 <= k < i ==> grasp_marks@[k] == grasping(frame, before.hover, meeting)[k],
                forall|k: int| 0 <= k < i ==> hold_marks@[k] == holding(frame, interact@)[k],
                forall|k: int|
                    0 <= k < i ==> hover_marks@[k] == hovering(
                        frame,
                        hover@,
                        before.hover,
                        meeting,
                    )[k],
            decreases n - i,
        {
            let datum = queue.input()[i];
            let began = uid_set::contains(self.interact_condition.started_acting(), datum.uid);
            let meets = uid_set::contains(self.interact_condition.currently_acting(), datum.uid);
            let hovered = uid_set::contains(self.hover.current(), datum.uid);
            let hovers_anew = uid_set::contains(self.hover.added(), datum.uid);
            let interacts = i < interact.len() && interact[i];
            let may_hover = i < hover.len() && hover[i];
            grasp_marks.push(began && hovered && !hovers_anew);
            hold_marks.push(interacts && datum.captured);
            hover_marks.push(may_hover && (!meets || (hovered && !datum.captured)));
            i += 1;
        }
        proof {
            assert(grasp_marks@ =~= grasping(frame, before.hover, meeting));
            assert(hold_marks@ =~= holding(frame, interact@));
            assert(hover_marks@ =~= hovering(frame, hover@, before.hover, meeting));
        }
        request_triggered(queue, &grasp_marks);
        request_triggered(queue, &hold_marks);
        proof {
            let first = triggered(frame, grasp_marks@);
            let second = triggered(frame, hold_marks@);
            assert((waiting + first) + second == waiting + (first + second));
        }
        let interacting = qualifying_uids(queue.input(), interact, true);
        self.interact.push_new(&interacting);
        let hovering_now = qualifying_uids(queue.input(), &hover_marks, false);
        self.hover.push_new(&hovering_now);
    }

    /// One update against the queue's frame: evaluates the two conditions on
    /// it; see [`MultiAction::update_with`].
    pub fn update<H: Fn(&InputDatum) -> bool, I: Fn(&InputDatum) -> bool>(
        &mut self,
        queue: &mut InputQueue,
        hover_condition: H,
        interact_condition: I,
    )
        requires
            callable_on(hover_condition, old(queue).frame()),
            callable_on(interact_condition, old(queue).frame()),
        ensures
            exists|hover: Seq<bool>, interact: Seq<bool>|
                {
                    &&& verdicts_of(hover_condition, old(queue).frame(), hover)
                    &&& verdicts_of(interact_condition, old(queue).frame(), interact)
                    &&& final(self)@ == #[trigger] engage(
                        old(self)@,
                        old(queue).frame(),
                        hover,
                        interact,
                    )
                    &&& final(queue).capture_requests() == old(queue).capture_requests()
                        + engage_requests(old(self)@, old(queue).frame(), interact)
                },
            final(self)@.hover.consistent(),
            final(self)@.interact.consistent(),
            final(queue).frame() == old(queue).frame(),
    {
        let hover = evaluate(queue.input(), &hover_condition);
        let interact = evaluate(queue.input(), &interact_condition);
        self.update_with(queue, &hover, &interact);
    }

    /// The inputs that hover.
    pub fn hover(&self) -> (tracker: &DeltaSet)
        ensures
            tracker@ == self@.hover,
    {
        &self.hover
    }

    /// The inputs that interact.
    pub fn interact(&self) -> (tracker: &DeltaSet)
        ensures
            tracker@ == self@.interact,
    {
        &self.interact
    }
}

} // verus!
