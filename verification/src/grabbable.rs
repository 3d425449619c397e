//! The decisions of a grabbable object: what to do at a tick, given what the
//! grab action reports, and when the object carries momentum.
//!
//! Poses, velocities and the calls that move the object are the caller's:
//! this module says which of them are due.

use crate::input_action::single_actor_action::SingleActorAction;
use crate::input_action::InputKind;
use vstd::prelude::*;

verus! {

/// How should the grabbable interact with pointers?
#[derive(Debug, Clone, Copy, PartialEq, Eq, Structural)]
pub enum PointerMode {
    /// The grabbable acts as a child of the pointer: its rotation stays
    /// constant relative to the pointer.
    Parent,
    /// The grabbable aligns its forward direction with the pointer ray.
    Align,
    /// The grabbable never rotates, only moves.
    Move,
}

/// The part of a grabbable's settings that its decisions depend on.
#[derive(Debug, Clone, Copy, PartialEq, Eq, Structural)]
pub struct GrabPolicy {
    /// Should the grabbable be magnetized to the grab point?
    pub magnet: bool,
    /// How should pointers be handled?
    pub pointer_mode: PointerMode,
    /// Should the object be movable by zones while nobody holds it?
    pub zoneable: bool,
}

/// How the pose of the grabbed object follows the actor.
#[derive(Debug, Clone, Copy, PartialEq, Eq, Structural)]
pub enum PoseRule {
    /// Follow the actor's pose, position and rotation.
    Follow,
    /// Follow the position, with the rotation turned to the pointer's ray
    /// and no roll.
    AlignToRay,
    /// Follow the position and keep the rotation as it is.
    KeepRotation,
}

/// The query for the point of the field closest to the grab point, and what
/// became of it.
#[derive(Debug, Clone, Copy, PartialEq, Eq, Structural)]
pub enum Magnet {
    /// No query is under way and no offset applies.
    Idle,
    /// A query was sent and its answer is awaited.
    Pending,
    /// The answer arrived during this grab; its offset applies.
    Armed,
}

/// What is due at one tick of a grabbable.
#[derive(Debug, Clone, Copy, PartialEq, Eq, Structural)]
pub struct GrabPlan {
    /// Remember where the object is relative to the actor.
    pub anchor: bool,
    /// Let the actor's scroll axis move the object along the ray.
    pub scroll: bool,
    /// Resolve the object's pose by this rule and write it out.
    pub pose: Option<PoseRule>,
    /// Tell the server whether zones may move the object.
    pub zoneable: Option<bool>,
    /// Send the query for the closest point.
    pub query_magnet: bool,
    /// Take the answer to the query, if one is there.
    pub poll_magnet: bool,
    /// The state of the magnet after this tick.
    pub magnet: Magnet,
}

/// The rule by which the pose follows an actor of the kind `kind`.
pub open spec fn pose_rule(kind: InputKind, pointer_mode: PointerMode) -> PoseRule {
    match (kind, pointer_mode) {
        (InputKind::Pointer, PointerMode::Align) => PoseRule::AlignToRay,
        (InputKind::Pointer, PointerMode::Move) => PoseRule::KeepRotation,
        _ => PoseRule::Follow,
    }
}

/// The state of the magnet after a tick: sent off when a grab starts with an
/// actor that is no pointer, armed by the first answer while the grab lasts,
/// and idle again when the grab stops.
pub open spec fn next_magnet(
    policy: GrabPolicy,
    magnet: Magnet,
    started: bool,
    stopped: bool,
    actor: Option<InputKind>,
    answer_ready: bool,
) -> Magnet {
    if stopped || actor.is_none() {
        Magnet::Idle
    } else if started {
        if policy.magnet && actor.unwrap() != InputKind::Pointer {
            Magnet::Pending
        } else {
            Magnet::Idle
        }
    } else if magnet == Magnet::Pending && answer_ready {
        Magnet::Armed
    } else {
        magnet
    }
}

/// What is due at a tick at which the grab action reports `started`,
/// `stopped` and an actor of the kind `actor`.
pub open spec fn grab_plan(
    policy: GrabPolicy,
    magnet: Magnet,
    started: bool,
    stopped: bool,
    actor: Option<InputKind>,
    answer_ready: bool,
) -> GrabPlan {
    let after = next_magnet(policy, magnet, started, stopped, actor, answer_ready);
    GrabPlan {
        anchor: started && actor.is_some(),
        scroll: actor == Some(InputKind::Pointer),
        pose: match actor {
            Some(kind) => Some(pose_rule(kind, policy.pointer_mode)),
            None => None,
        },
        zoneable: if stopped {
            Some(policy.zoneable)
        } else if started && actor.is_some() {
            Some(false)
        } else {
            None
        },
        query_magnet: after == Magnet::Pending && magnet != Magnet::Pending,
        poll_magnet: magnet == Magnet::Pending && (stopped || after == Magnet::Armed),
        magnet: after,
    }
}

/// The answer to a query is taken at most once: a magnet is armed only from
/// a pending one, a query is sent only when a grab starts, and after a stop
/// nothing is pending.
pub proof fn lemma_magnet_once(
    policy: GrabPolicy,
    magnet: Magnet,
    started: bool,
    stopped: bool,
    actor: Option<InputKind>,
    answer_ready: bool,
)
    ensures
        ({
            let plan = grab_plan(policy, magnet, started, stopped, actor, answer_ready);
            &&& plan.magnet == Magnet::Armed && magnet != Magnet::Armed ==> magnet
                == Magnet::Pending && answer_ready
            &&& plan.query_magnet ==> started && policy.magnet && actor.is_some()
                && actor.unwrap() != InputKind::Pointer
            &&& plan.poll_magnet ==> magnet == Magnet::Pending && plan.magnet != Magnet::Pending
            &&& stopped ==> plan.magnet == Magnet::Idle
            &&& plan.pose.is_some() <==> actor.is_some()
        }),
{
}

/// Decides what is due at this tick, from what the grab action holds after
/// its update. `answer_ready` says whether an answer to the magnet query is
/// waiting.
pub fn plan_grab(
    policy: &GrabPolicy,
    magnet: Magnet,
    grab_action: &SingleActorAction,
    answer_ready: bool,
) -> (plan: GrabPlan)
    ensures
        plan == grab_plan(
            *policy,
            magnet,
            grab_action@.actor_started,
            grab_action@.actor_stopped,
            actor_kind(grab_action@.actor),
            answer_ready,
        ),
{
    let started = grab_action.actor_started();
    let stopped = grab_action.actor_stopped();
    let kind = match grab_action.actor() {
        Some(datum) => Some(datum.kind),
        None => None,
    };
    plan_for(policy, magnet, started, stopped, kind, answer_ready)
}

/// The kind of the actor, if there is one.
pub open spec fn actor_kind(actor: Option<crate::input_action::InputDatum>) -> Option<InputKind> {
    match actor {
        Some(datum) => Some(datum.kind),
        None => None,
    }
}

/// Decides what is due at a tick at which the grab action reports `started`,
/// `stopped` and an actor of the kind `actor`.
pub fn plan_for(
    policy: &GrabPolicy,
    magnet: Magnet,
    started: bool,
    stopped: bool,
    actor: Option<InputKind>,
    answer_ready: bool,
) -> (plan: GrabPlan)
    ensures
        plan == grab_plan(*policy, magnet, started, stopped, actor, answer_ready),
{
    let was_pending = magnet == Magnet::Pending;
    let mut plan = GrabPlan {
        anchor: false,
        scroll: false,
        pose: None,
        zoneable: None,
        query_magnet: false,
        poll_magnet: false,
        magnet: Magnet::Idle,
    };
    if stopped {
        plan.zoneable = Some(policy.zoneable);
    }
    match actor {
        None => {},
        Some(kind) => {
            let is_pointer = kind == InputKind::Pointer;
            plan.scroll = is_pointer;
            plan.pose = Some(
                if is_pointer && policy.pointer_mode == PointerMode::Align {
                    PoseRule::AlignToRay
                } else if is_pointer && policy.pointer_mode == PointerMode::Move {
                    PoseRule::KeepRotation
                } else {
                    PoseRule::Follow
                },
            );
            if started {
                plan.anchor = true;
            }
            if !stopped {
                if started {
                    plan.zoneable = Some(false);
                    if policy.magnet && !is_pointer {
                        plan.magnet = Magnet::Pending;
                        plan.query_magnet = !was_pending;
                    }
                } else if was_pending && answer_ready {
                    plan.magnet = Magnet::Armed;
                } else {
                    plan.magnet = magnet;
                }
            }
        },
    }
    plan.poll_magnet = was_pending && (stopped || plan.magnet == Magnet::Armed);
    plan
}

/// Whether a channel of momentum, linear or angular, carries a velocity.
#[derive(Debug, Clone, Copy, PartialEq, Eq, Structural)]
pub enum Motion {
    /// No velocity: the object rests, or nothing was measured.
    Rest,
    /// A velocity is there: measured during a grab, or decaying after it.
    Moving,
}

/// What to do with the velocity of one channel at a frame.
#[derive(Debug, Clone, Copy, PartialEq, Eq, Structural)]
pub enum MomentumStep {
    /// Leave the velocity as it is.
    Keep,
    /// Take the velocity measured between the last two poses of the grab.
    Record,
    /// Drop the velocity.
    Clear,
    /// Scale the velocity down by the drag and move the object by it.
    Decay,
}

/// What the caller measured for one channel at a frame.
#[derive(Debug, Clone, Copy, PartialEq, Eq, Structural)]
pub struct MomentumReading {
    /// Whether the time since the last frame is above zero.
    pub time_passed: bool,
    /// Whether the channel is switched on in the settings.
    pub enabled: bool,
    /// Whether an actor holds the object.
    pub acting: bool,
    /// Whether the movement between the last two poses is above the
    /// threshold of the settings.
    pub above_threshold: bool,
    /// Whether the velocity is below the speed at which momentum ends.
    pub below_stop: bool,
}

/// The step that is due for a channel in the motion `motion`.
pub open spec fn momentum_step(motion: Motion, reading: MomentumReading) -> MomentumStep {
    if !reading.time_passed || !reading.enabled {
        MomentumStep::Keep
    } else if reading.acting {
        if reading.above_threshold {
            MomentumStep::Record
        } else {
            MomentumStep::Clear
        }
    } else if motion == Motion::Rest {
        MomentumStep::Keep
    } else if reading.below_stop {
        MomentumStep::Clear
    } else {
        MomentumStep::Decay
    }
}

/// The motion of a channel after a step.
pub open spec fn motion_after(motion: Motion, step: MomentumStep) -> Motion {
    match step {
        MomentumStep::Keep => motion,
        MomentumStep::Record => Motion::Moving,
        MomentumStep::Clear => Motion::Rest,
        MomentumStep::Decay => Motion::Moving,
    }
}

/// The motion of a channel after the frames of `readings`, oldest first.
pub open spec fn motion_after_frames(motion: Motion, readings: Seq<MomentumReading>) -> Motion
    decreases readings.len(),
{
    if readings.len() == 0 {
        motion
    } else {
        let before = motion_after_frames(motion, readings.drop_last());
        motion_after(before, momentum_step(before, readings.last()))
    }
}

/// A channel that came to rest stays at rest until the object is grabbed
/// again.
pub proof fn lemma_rest_lasts(readings: Seq<MomentumReading>)
    requires
        forall|i: int| 0 <= i < readings.len() ==> !(#[trigger] readings[i]).acting,
    ensures
        motion_after_frames(Motion::Rest, readings) == Motion::Rest,
    decreases readings.len(),
{
    if readings.len() > 0 {
        lemma_rest_lasts(readings.drop_last());
    }
}

/// A velocity decays only while nobody holds the object, and a frame over
/// which no time passed changes nothing.
pub proof fn lemma_decay_only_after_release(motion: Motion, reading: MomentumReading)
    ensures
        momentum_step(motion, reading) == MomentumStep::Decay ==> !reading.acting && motion
            == Motion::Moving && !reading.below_stop,
        !reading.time_passed ==> motion_after(motion, momentum_step(motion, reading)) == motion,
{
}

/// Decides the step that is due for a channel at this frame and the motion
/// that the channel is in after it.
pub fn step_momentum(motion: Motion, reading: &MomentumReading) -> (due: (MomentumStep, Motion))
    ensures
        due.0 == momentum_step(motion, *reading),
        due.1 == motion_after(motion, due.0),
{
    if !reading.time_passed || !reading.enabled {
        (MomentumStep::Keep, motion)
    } else if reading.acting {
        if reading.above_threshold {
            (MomentumStep::Record, Motion::Moving)
        } else {
            (MomentumStep::Clear, Motion::Rest)
        }
    } else if motion == Motion::Rest {
        (MomentumStep::Keep, motion)
    } else if reading.below_stop {
        (MomentumStep::Clear, Motion::Rest)
    } else {
        (MomentumStep::Decay, Motion::Moving)
    }
}

} // verus!
