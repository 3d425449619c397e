use super::condition::{
    callable_on, evaluate, lemma_qualifying_in_frame, qualifying, verdicts_of,
};
use super::delta_set::Delta;
use super::input_queue::{datum_of, has_uid, lemma_datum_of, InputDatum, InputQueue};
use super::multi_actor_action::MultiActorAction;
use super::pick::{is_lowest, lemma_lowest_is_unique, lowest};
use super::uid_set;
use vstd::prelude::*;

verus! {

/// What a [`SingleActorAction`] holds after an update.
pub struct Arbitration {
    /// The inputs that meet the gating condition.
    pub condition: Delta,
    /// The inputs that meet the interact condition.
    pub interact: Delta,
    /// The one input that acts, if any.
    pub actor: Option<InputDatum>,
    pub actor_started: bool,
    pub actor_changed: bool,
    pub actor_acting: bool,
    pub actor_stopped: bool,
}

impl Arbitration {
    /// The state before the first update.
    pub open spec fn initial() -> Arbitration {
        Arbitration {
            condition: Delta::empty(),
            interact: Delta::empty(),
            actor: None,
            actor_started: false,
            actor_changed: false,
            actor_acting: false,
            actor_stopped: false,
        }
    }

    /// Whether the input `uid` is the actor.
    pub open spec fn acts(self, uid: u64) -> bool {
        self.actor.is_some() && self.actor.unwrap().uid == uid
    }

    /// What holds of the flags in every state: an actor acts exactly while
    /// there is one, starting and changing come with an actor, stopping
    /// without one.
    pub open spec fn consistent(self) -> bool {
        &&& self.actor_acting == self.actor.is_some()
        &&& self.actor_started ==> self.actor.is_some()
        &&& self.actor_changed ==> self.actor.is_some()
        &&& self.actor_stopped ==> self.actor.is_none()
        &&& !(self.actor_started && self.actor_changed)
    }
}

/// The inputs that may become the actor at this update: those that started
/// to interact at it and, where a gating condition is given, met that
/// condition before this update already.
pub open spec fn candidates(gated: bool, condition: Delta, interact: Delta) -> Set<u64> {
    Set::new(
        |uid: u64|
            interact.added.contains(uid) && (gated ==> condition.current.contains(uid)
                && !condition.added.contains(uid)),
    )
}

/// The uid that is held as actor once the candidates are looked at: with no
/// actor the lowest candidate; with one, the lowest candidate only where the
/// actor may change, else the actor itself.
pub open spec fn held(actor: Option<InputDatum>, change_actor: bool, pick: Option<u64>) -> Option<
    u64,
> {
    match actor {
        None => pick,
        Some(datum) => if change_actor && pick.is_some() {
            pick
        } else {
            Some(datum.uid)
        },
    }
}

/// The actor after an update: the held uid as the frame has it while it
/// interacts; the actor unchanged while it only meets the gating condition;
/// none otherwise.
pub open spec fn next_actor(
    actor: Option<InputDatum>,
    change_actor: bool,
    frame: Seq<InputDatum>,
    gated: bool,
    condition: Delta,
    interact: Delta,
) -> Option<InputDatum> {
    match held(actor, change_actor, lowest(candidates(gated, condition, interact))) {
        None => None,
        Some(uid) => if interact.current.contains(uid) {
            datum_of(frame, uid)
        } else if condition.current.contains(uid) {
            actor
        } else {
            None
        },
    }
}

/// The verdicts of the gating condition; where none is given, nothing meets
/// it.
pub open spec fn gate_verdicts(condition: Option<Seq<bool>>) -> Seq<bool> {
    match condition {
        Some(verdicts) => verdicts,
        None => Seq::empty(),
    }
}

/// One update of the arbitration, from the verdicts of the two conditions on
/// the frame.
pub open spec fn arbitrate(
    before: Arbitration,
    change_actor: bool,
    frame: Seq<InputDatum>,
    condition: Option<Seq<bool>>,
    interact: Seq<bool>,
) -> Arbitration {
    let condition_now = before.condition.push(qualifying(frame, gate_verdicts(condition), false));
    let interact_now = before.interact.push(qualifying(frame, interact, false));
    let actor = next_actor(
        before.actor,
        change_actor,
        frame,
        condition.is_some(),
        condition_now,
        interact_now,
    );
    Arbitration {
        condition: condition_now,
        interact: interact_now,
        actor,
        actor_started: before.actor.is_none() && actor.is_some(),
        actor_changed: before.actor.is_some() && actor.is_some() && before.actor.unwrap().uid
            != actor.unwrap().uid,
        actor_acting: actor.is_some(),
        actor_stopped: before.actor.is_some() && actor.is_none(),
    }
}

/// The capture request that comes with an actor.
pub open spec fn actor_request(actor: Option<InputDatum>) -> Seq<u64> {
    match actor {
        Some(datum) => seq![datum.uid],
        None => Seq::empty(),
    }
}

/// At most one input is the actor, in every state.
pub proof fn lemma_at_most_one_actor(state: Arbitration, first: u64, second: u64)
    requires
        state.acts(first),
        state.acts(second),
    ensures
        first == second,
{
}

/// The flags of an update tell how the actor changed: it started exactly
/// where there was none before and is one now, it stopped exactly where there
/// was one before and is none now, and it never does both in one update.
pub proof fn lemma_edges(
    before: Arbitration,
    change_actor: bool,
    frame: Seq<InputDatum>,
    condition: Option<Seq<bool>>,
    interact: Seq<bool>,
)
    ensures
        ({
            let after = arbitrate(before, change_actor, frame, condition, interact);
            &&& after.actor_started <==> before.actor.is_none() && after.actor.is_some()
            &&& after.actor_stopped <==> before.actor.is_some() && after.actor.is_none()
            &&& !(after.actor_started && after.actor_stopped)
            &&& after.actor_acting <==> after.actor.is_some()
            &&& after.consistent()
        }),
{
}

/// An actor is always an input of the frame that interacts or meets the
/// gating condition at this update, under its own uid.
pub proof fn lemma_actor_in_frame(
    before: Arbitration,
    change_actor: bool,
    frame: Seq<InputDatum>,
    condition: Option<Seq<bool>>,
    interact: Seq<bool>,
)
    ensures
        ({
            let after = arbitrate(before, change_actor, frame, condition, interact);
            after.actor.is_some() ==> {
                &&& has_uid(frame, after.actor.unwrap().uid)
                &&& after.interact.current.contains(after.actor.unwrap().uid)
                    || after.condition.current.contains(after.actor.unwrap().uid)
            }
        }),
{
    let after = arbitrate(before, change_actor, frame, condition, interact);
    if after.actor.is_some() {
        let uid = held(
            before.actor,
            change_actor,
            lowest(candidates(condition.is_some(), after.condition, after.interact)),
        ).unwrap();
        if after.interact.current.contains(uid) {
            lemma_qualifying_in_frame(frame, interact, false, uid);
            lemma_datum_of(frame, uid);
        } else {
            lemma_qualifying_in_frame(frame, gate_verdicts(condition), false, uid);
            let picked = lowest(candidates(condition.is_some(), after.condition, after.interact));
            if picked == Some(uid) {
                assert(is_lowest(
                    candidates(condition.is_some(), after.condition, after.interact),
                    uid,
                ));
            }
        }
    }
}

/// Where a gating condition is given, no input becomes the actor at the
/// update at which it first meets that condition.
pub proof fn lemma_condition_before_trigger(
    before: Arbitration,
    change_actor: bool,
    frame: Seq<InputDatum>,
    condition: Seq<bool>,
    interact: Seq<bool>,
)
    ensures
        ({
            let after = arbitrate(before, change_actor, frame, Some(condition), interact);
            after.actor.is_some() && (before.actor.is_none() || before.actor.unwrap().uid
                != after.actor.unwrap().uid) ==> !after.condition.added.contains(
                after.actor.unwrap().uid,
            )
        }),
{
    let after = arbitrate(before, change_actor, frame, Some(condition), interact);
    if after.actor.is_some() && (before.actor.is_none() || before.actor.unwrap().uid
        != after.actor.unwrap().uid) {
        let cands = candidates(true, after.condition, after.interact);
        let picked = lowest(cands);
        let uid = held(before.actor, change_actor, picked).unwrap();
        if after.interact.current.contains(uid) {
            lemma_datum_of(frame, uid);
            assert(after.actor.unwrap().uid == uid);
            assert(picked == Some(uid));
            assert(is_lowest(cands, uid));
        } else {
            assert(after.actor == before.actor);
        }
    }
}

/// Lets at most one input act at a time, among those that meet an interact
/// condition and, where one is given, have met a gating condition before.
pub struct SingleActorAction {
    condition: MultiActorAction,
    interact: MultiActorAction,
    actor_started: bool,
    actor_changed: bool,
    actor_acting: bool,
    actor_stopped: bool,
    actor: Option<InputDatum>,
}

impl View for SingleActorAction {
    type V = Arbitration;

    closed spec fn view(&self) -> Arbitration {
        Arbitration {
            condition: self.condition@,
            interact: self.interact@,
            actor: self.actor,
            actor_started: self.actor_started,
            actor_changed: self.actor_changed,
            actor_acting: self.actor_acting,
            actor_stopped: self.actor_stopped,
        }
    }
}

impl Default for SingleActorAction {
    fn default() -> (action: Self)
        ensures
            action@ == Arbitration::initial(),
            action@.consistent(),
    {
        SingleActorAction {
            condition: MultiActorAction::default(),
            interact: MultiActorAction::default(),
            actor_started: false,
            actor_changed: false,
            actor_acting: false,
            actor_stopped: false,
            actor: None,
        }
    }
}

/// The verdicts behind an optional reference, as a value for contracts.
pub open spec fn verdicts_view(condition: Option<&Vec<bool>>) -> Option<Seq<bool>> {
    match condition {
        Some(verdicts) => Some(verdicts@),
        None => None,
    }
}

/// Whether `verdicts` holds an outcome of the optional condition on `frame`:
/// none where no condition is given.
pub open spec fn gate_verdicts_of<C: Fn(&InputDatum) -> bool>(
    condition: Option<C>,
    frame: Seq<InputDatum>,
    verdicts: Option<Seq<bool>>,
) -> bool {
    match (condition, verdicts) {
        (Some(c), Some(v)) => verdicts_of(c, frame, v),
        (None, None) => true,
        _ => false,
    }
}

impl SingleActorAction {
    /// Finds the lowest candidate for the actor.
    fn pick(&self, gated: bool) -> (picked: Option<u64>)
        ensures
            picked == lowest(candidates(gated, self.condition@, self.interact@)),
    {
        let ghost cands = candidates(gated, self.condition@, self.interact@);
        let started = uid_set::members(self.interact.started_acting());
        let mut best: Option<u64> = None;
        let mut i: usize = 0;
        while i < started.len()
            invariant
                i <= started.len(),
                started@.to_set() == self.interact@.added,
                cands == candidates(gated, self.condition@, self.interact@),
                best.is_some() ==> cands.contains(best.unwrap()),
                forall|k: int|
                    0 <= k < i && cands.contains(#[trigger] started@[k]) ==> best.is_some()
                        && best.unwrap() <= started@[k],
            decreases started.len() - i,
        {
            let uid = started[i];
            proof {
                assert(started@.to_set().contains(uid));
            }
            let eligible = !gated || (uid_set::contains(self.condition.currently_acting(), uid)
                && !uid_set::contains(self.condition.started_acting(), uid));
            if eligible {
                let better = match best {
                    None => true,
                    Some(least) => uid < least,
                };
                if better {
                    best = Some(uid);
                }
            }
            i += 1;
        }
        proof {
            assert forall|other: u64| cands.contains(other) implies best.is_some()
                && best.unwrap() <= other by {
                assert(started@.to_set().contains(other));
                let k = choose|k: int| 0 <= k < started@.len() && started@[k] == other;
                assert(cands.contains(started@[k]));
            }
            match best {
                Some(least) => {
                    assert(is_lowest(cands, least));
                    lemma_lowest_is_unique(cands, least);
                },
                None => {
                    assert forall|u: u64| !is_lowest(cands, u) by {}
                },
            }
        }
        best
    }

    /// One update from the verdicts of the two conditions on the queue's
    /// frame; `condition` is `None` where there is no gating condition. Asks
    /// for the capture of the actor at every update that ends with one.
    pub fn update_with(
        &mut self,
        change_actor: bool,
        queue: &mut InputQueue,
        condition: Option<&Vec<bool>>,
        interact: &Vec<bool>,
    )
        ensures
            final(self)@ == arbitrate(
                old(self)@,
                change_actor,
                old(queue).frame(),
                verdicts_view(condition),
                interact@,
            ),
            final(self)@.consistent(),
            final(queue).frame() == old(queue).frame(),
            final(queue).capture_requests() == old(queue).capture_requests() + actor_request(
                final(self)@.actor,
            ),
    {
        let ghost before = self@;
        let ghost frame = queue.frame();
        let ghost waiting = queue.capture_requests();
        let old_actor = self.actor;
        proof {
            assert(waiting + Seq::<u64>::empty() == waiting);
        }
        match condition {
            Some(verdicts) => {
                self.condition.update_with(false, queue, verdicts);
            },
            None => {
                let nothing: Vec<bool> = Vec::new();
                self.condition.update_with(false, queue, &nothing);
            },
        }
        self.interact.update_with(false, queue, interact);

        let picked = self.pick(condition.is_some());
        let held_uid = match old_actor {
            None => picked,
            Some(datum) => if change_actor && picked.is_some() {
                picked
            } else {
                Some(datum.uid)
            },
        };
        let actor = match held_uid {
            None => None,
            Some(uid) => if uid_set::contains(self.interact.currently_acting(), uid) {
                queue.find(uid)
            } else if uid_set::contains(self.condition.currently_acting(), uid) {
                old_actor
            } else {
                None
            },
        };
        proof {
            lemma_actor_in_frame(
                before,
                change_actor,
                frame,
                verdicts_view(condition),
                interact@,
            );
            assert(actor == arbitrate(
                before,
                change_actor,
                frame,
                verdicts_view(condition),
                interact@,
            ).actor);
        }
        if let Some(datum) = actor {
            queue.request_capture(datum.uid);
            proof {
                assert(waiting.push(datum.uid) == waiting + seq![datum.uid]);
            }
        }
        self.actor_started = old_actor.is_none() && actor.is_some();
        self.actor_changed = match (old_actor, actor) {
            (Some(was), Some(is)) => was.uid != is.uid,
            _ => false,
        };
        self.actor_acting = actor.is_some();
        self.actor_stopped = old_actor.is_some() && actor.is_none();
        self.actor = actor;
    }

    /// One update against the queue's frame: evaluates the two conditions on
    /// it and arbitrates; see [`SingleActorAction::update_with`].
    pub fn update<C: Fn(&InputDatum) -> bool, I: Fn(&InputDatum) -> bool>(
        &mut self,
        change_actor: bool,
        queue: &mut InputQueue,
        condition: Option<C>,
        interact: I,
    )
        requires
            match condition {
                Some(c) => callable_on(c, old(queue).frame()),
                None => true,
            },
            callable_on(interact, old(queue).frame()),
        ensures
            exists|gate: Option<Seq<bool>>, verdicts: Seq<bool>|
                {
                    &&& gate_verdicts_of(condition, old(queue).frame(), gate)
                    &&& verdicts_of(interact, old(queue).frame(), verdicts)
                    &&& final(self)@ == #[trigger] arbitrate(
                        old(self)@,
                        change_actor,
                        old(queue).frame(),
                        gate,
                        verdicts,
                    )
                },
            final(self)@.consistent(),
            final(queue).frame() == old(queue).frame(),
            final(queue).capture_requests() == old(queue).capture_requests() + actor_request(
                final(self)@.actor,
            ),
    {
        let verdicts = evaluate(queue.input(), &interact);
        match &condition {
            Some(c) => {
                let gate = evaluate(queue.input(), c);
                self.update_with(change_actor, queue, Some(&gate), &verdicts);
                proof {
                    assert(gate_verdicts_of(condition, old(queue).frame(), Some(gate@)));
                }
            },
            None => {
                self.update_with(change_actor, queue, None, &verdicts);
                proof {
                    assert(gate_verdicts_of(condition, old(queue).frame(), None));
                }
            },
        }
    }

    /// The tracker of the gating condition.
    pub fn condition(&self) -> (tracker: &MultiActorAction)
        ensures
            tracker@ == self@.condition,
    {
        &self.condition
    }

    /// Whether the last update began with no actor and ended with one.
    pub fn actor_started(&self) -> (flag: bool)
        ensures
            flag == self@.actor_started,
    {
        self.actor_started
    }

    /// Whether the last update ended with another actor than it began with.
    pub fn actor_changed(&self) -> (flag: bool)
        ensures
            flag == self@.actor_changed,
    {
        self.actor_changed
    }

    /// Whether there is an actor.
    pub fn actor_acting(&self) -> (flag: bool)
        ensures
            flag == self@.actor_acting,
    {
        self.actor_acting
    }

    /// Whether the last update began with an actor and ended with none.
    pub fn actor_stopped(&self) -> (flag: bool)
        ensures
            flag == self@.actor_stopped,
    {
        self.actor_stopped
    }

    /// The actor, as of the last update.
    pub fn actor(&self) -> (actor: Option<&InputDatum>)
        ensures
            match actor {
                Some(datum) => self@.actor == Some(*datum),
                None => self@.actor.is_none(),
            },
    {
        self.actor.as_ref()
    }
}

} // verus!
