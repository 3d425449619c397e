use super::condition::{callable_on, evaluate, verdicts_of};
use super::delta_set::DeltaSet;
use super::input_queue::{datum_of, lemma_datum_of, InputDatum, InputQueue};
use super::multi_action::{engage, engage_requests, Engagement, MultiAction};
use super::pick::{lemma_lowest_is_member, lowest, lowest_of};
use super::uid_set;
use vstd::prelude::*;

verus! {

/// What a [`SingleAction`] holds after an update.
pub struct Acting {
    /// The inputs that hover and interact.
    pub multi: Engagement,
    /// The one input that acts, if any.
    pub actor: Option<InputDatum>,
    pub actor_started: bool,
    pub actor_changed: bool,
    pub actor_acting: bool,
    pub actor_stopped: bool,
}

impl Acting {
    /// The state before the first update.
    pub open spec fn initial() -> Acting {
        Acting {
            multi: Engagement::initial(),
            actor: None,
            actor_started: false,
            actor_changed: false,
            actor_acting: false,
            actor_stopped: false,
        }
    }
}

/// The input that newly interacts and is looked at as the next actor: of
/// those that began to interact at this update, the one with the lowest uid.
pub open spec fn newcomer(frame: Seq<InputDatum>, multi: Engagement) -> Option<InputDatum> {
    match lowest(multi.interact.added) {
        Some(uid) => datum_of(frame, uid),
        None => None,
    }
}

/// The actor once the newcomer is looked at: the newcomer where there is no
/// actor yet or the actor may change, else the actor as it was.
pub open spec fn after_newcomer(
    actor: Option<InputDatum>,
    change_actor: bool,
    arrived: Option<InputDatum>,
) -> Option<InputDatum> {
    if arrived.is_some() && (actor.is_none() || change_actor) {
        arrived
    } else {
        actor
    }
}

/// The actor at the end of the update: none where it stopped interacting,
/// else as the frame has it now, or as it was where the frame lacks it.
pub open spec fn settled(
    actor: Option<InputDatum>,
    frame: Seq<InputDatum>,
    multi: Engagement,
) -> Option<InputDatum> {
    match actor {
        None => None,
        Some(datum) => if multi.interact.removed.contains(datum.uid) {
            None
        } else {
            match datum_of(frame, datum.uid) {
                Some(fresh) => Some(fresh),
                None => Some(datum),
            }
        },
    }
}

/// One update, from the verdicts of the two conditions on the frame.
pub open spec fn act(
    before: Acting,
    change_actor: bool,
    frame: Seq<InputDatum>,
    hover: Seq<bool>,
    interact: Seq<bool>,
) -> Acting {
    let multi = engage(before.multi, frame, hover, interact);
    let arrived = newcomer(frame, multi);
    let taken = after_newcomer(before.actor, change_actor, arrived);
    let actor = settled(taken, frame, multi);
    Acting {
        multi,
        actor,
        actor_started: arrived.is_some() && before.actor.is_none(),
        actor_changed: arrived.is_some() && before.actor.is_some() && change_actor,
        actor_acting: actor.is_some(),
        actor_stopped: taken.is_some() && actor.is_none(),
    }
}

/// An actor that starts at an update is there at its end: starting and
/// stopping never fall into one update. It starts only from no actor and
/// stops only from one, and it acts exactly while there is one.
pub proof fn lemma_act_edges(
    before: Acting,
    change_actor: bool,
    frame: Seq<InputDatum>,
    hover: Seq<bool>,
    interact: Seq<bool>,
)
    ensures
        ({
            let after = act(before, change_actor, frame, hover, interact);
            &&& !(after.actor_started && after.actor_stopped)
            &&& after.actor_started ==> before.actor.is_none() && after.actor.is_some()
            &&& after.actor_changed ==> before.actor.is_some() && after.actor.is_some()
            &&& after.actor_stopped ==> before.actor.is_some() && after.actor.is_none()
            &&& after.actor_acting <==> after.actor.is_some()
        }),
{
    let after = act(before, change_actor, frame, hover, interact);
    let arrived = newcomer(frame, after.multi);
    if arrived.is_some() {
        let uid = lowest(after.multi.interact.added).unwrap();
        lemma_lowest_is_member(after.multi.interact.added);
        lemma_datum_of(frame, uid);
        assert(arrived.unwrap().uid == uid);
        assert(after.multi.interact.added.contains(uid));
        assert(!after.multi.interact.removed.contains(uid));
    }
}

/// Lets at most one input act at a time among those that interact with a
/// widget, on top of a [`MultiAction`].
pub struct SingleAction {
    multi: MultiAction,
    actor_started: bool,
    actor_changed: bool,
    actor_acting: bool,
    actor_stopped: bool,
    actor: Option<InputDatum>,
}

impl View for SingleAction {
    type V = Acting;

    closed spec fn view(&self) -> Acting {
        Acting {
            multi: self.multi@,
            actor: self.actor,
            actor_started: self.actor_started,
            actor_changed: self.actor_changed,
            actor_acting: self.actor_acting,
            actor_stopped: self.actor_stopped,
        }
    }
}

impl Default for SingleAction {
    fn default() -> (action: Self)
        ensures
            action@ == Acting::initial(),
    {
        SingleAction {
            multi: MultiAction::default(),
            actor_started: false,
            actor_changed: false,
            actor_acting: false,
            actor_stopped: false,
            actor: None,
        }
    }
}

impl SingleAction {
    /// One update from the verdicts of the two conditions on the queue's
    /// frame.
    pub fn update_with(
        &mut self,
        change_actor: bool,
        queue: &mut InputQueue,
        hover: &Vec<bool>,
        interact: &Vec<bool>,
    )
        ensures
            final(self)@ == act(old(self)@, change_actor, old(queue).frame(), hover@, interact@),
            final(queue).frame() == old(queue).frame(),
            final(queue).capture_requests() == old(queue).capture_requests() + engage_requests(
                old(self)@.multi,
                old(queue).frame(),
                interact@,
            ),
    {
        self.multi.update_with(queue, hover, interact);

        let began = uid_set::members(self.multi.interact().added());
        let arrived = match lowest_of(&began) {
            Some(uid) => queue.find(uid),
            None => None,
        };
        self.actor_started = false;
        self.actor_changed = false;
        self.actor_stopped = false;
        if let Some(datum) = arrived {
            if self.actor.is_none() {
                self.actor_started = true;
                self.actor = Some(datum);
            } else if change_actor {
                self.actor_changed = true;
                self.actor = Some(datum);
            }
        }
        if let Some(datum) = self.actor {
            if uid_set::contains(self.multi.interact().removed(), datum.uid) {
                self.actor_stopped = true;
                self.actor = None;
            } else if let Some(fresh) = queue.find(datum.uid) {
                self.actor = Some(fresh);
            }
        }
        self.actor_acting = self.actor.is_some();
    }

    /// One update against the queue's frame: evaluates the two conditions on
    /// it; see [`SingleAction::update_with`].
    pub fn update<H: Fn(&InputDatum) -> bool, I: Fn(&InputDatum) -> bool>(
        &mut self,
        change_actor: bool,
        queue: &mut InputQueue,
        hover_condition: H,
        interact_condition: I,
    )
        requires
            callable_on(hover_condition, old(queue).frame()),
            callable_on(interact_condition, old(queue).frame()),
        ensures
            exists|hover: Seq<bool>, interact: Seq<bool>|
                {
                    &&& verdicts_of(hover_condition, old(queue).frame(), hover)
                    &&& verdicts_of(interact_condition, old(queue).frame(), interact)
                    &&& final(self)@ == #[trigger] act(
                        old(self)@,
                        change_actor,
                        old(queue).frame(),
                        hover,
                        interact,
                    )
                    &&& final(queue).capture_requests() == old(queue).capture_requests()
                        + engage_requests(old(self)@.multi, old(queue).frame(), interact)
                },
            final(queue).frame() == old(queue).frame(),
    {
        let hover = evaluate(queue.input(), &hover_condition);
        let interact = evaluate(queue.input(), &interact_condition);
        self.update_with(change_actor, queue, &hover, &interact);
    }

    /// The inputs that hover.
    pub fn hovering(&self) -> (tracker: &DeltaSet)
        ensures
            tracker@ == self@.multi.hover,
    {
        self.multi.hover()
    }

    /// Whether the last update found a newcomer while there was no actor.
    pub fn actor_started(&self) -> (flag: bool)
        ensures
            flag == self@.actor_started,
    {
        self.actor_started
    }

    /// Whether the last update replaced the actor by a newcomer.
    pub fn actor_changed(&self) -> (flag: bool)
        ensures
            flag == self@.actor_changed,
    {
        self.actor_changed
    }

    /// Whether there is an actor.
    pub fn actor_acting(&self) -> (flag: bool)
        ensures
            flag == self@.actor_acting,
    {
        self.actor_acting
    }

    /// Whether the actor stopped interacting at the last update.
    pub fn actor_stopped(&self) -> (flag: bool)
        ensures
            flag == self@.actor_stopped,
    {
        self.actor_stopped
    }

    /// The actor, as of the last update.
    pub fn actor(&self) -> (actor: Option<&InputDatum>)
        ensures
            match actor {
                Some(datum) => self@.actor == Some(*datum),
                None => self@.actor.is_none(),
            },
    {
        self.actor.as_ref()
    }
}

} // verus!
