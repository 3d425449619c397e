use stardust_xr_molecules::input_action::{
    InputDatum, InputKind, InputQueue, MultiActorAction, SimpleAction, SingleActorAction,
};

fn hand(uid: u64) -> InputDatum {
    InputDatum { uid, kind: InputKind::Hand, captured: false }
}

fn captured_hand(uid: u64) -> InputDatum {
    InputDatum { uid, kind: InputKind::Hand, captured: true }
}

fn uids(set: &rustc_hash::FxHashSet<u64>) -> Vec<u64> {
    let mut uids: Vec<u64> = set.iter().copied().collect();
    uids.sort();
    uids
}

fn queue_with(frame: Vec<InputDatum>) -> InputQueue {
    let mut queue = InputQueue::new();
    queue.handle_events(&vec![frame]);
    queue
}

fn all(_datum: &InputDatum) -> bool {
    true
}

fn none(_datum: &InputDatum) -> bool {
    false
}

const H1: u64 = 1;
const H2: u64 = 2;

#[test]
fn simple_action_tracks_what_meets_the_condition() {
    let mut action = SimpleAction::default();
    let queue = queue_with(vec![hand(1), hand(2), hand(3)]);
    action.update(&queue, &|d: &InputDatum| d.uid >= 2);
    assert_eq!(uids(action.started_acting()), vec![2, 3]);
    assert_eq!(uids(action.currently_acting()), vec![2, 3]);
    assert!(action.stopped_acting().is_empty());

    let queue = queue_with(vec![hand(1), hand(3)]);
    action.update(&queue, &|d: &InputDatum| d.uid != 3);
    assert_eq!(uids(action.started_acting()), vec![1]);
    assert_eq!(uids(action.currently_acting()), vec![1]);
    assert_eq!(uids(action.stopped_acting()), vec![2, 3]);
}

#[test]
fn evaluator_excludes_what_does_not_qualify() {
    let mut action = MultiActorAction::default();
    let mut queue = queue_with(vec![hand(1), hand(2)]);
    action.update(false, &mut queue, |d: &InputDatum| d.uid == 2);
    assert_eq!(uids(action.started_acting()), vec![2]);
    assert_eq!(uids(action.currently_acting()), vec![2]);
    assert!(action.stopped_acting().is_empty());
    assert!(queue.take_capture_requests().is_empty());
}

#[test]
fn evaluator_reports_a_vanished_input_as_stopped() {
    let mut action = MultiActorAction::default();
    let mut queue = queue_with(vec![hand(1), hand(2)]);
    action.update(false, &mut queue, all);
    // 1 vanishes, 2 stops meeting the condition: both are reported alike
    let mut queue = queue_with(vec![hand(2)]);
    action.update(false, &mut queue, none);
    assert_eq!(uids(action.stopped_acting()), vec![1, 2]);
    assert!(action.currently_acting().is_empty());
}

#[test]
fn evaluator_with_capture_counts_only_captured_inputs() {
    let mut action = MultiActorAction::default();
    let mut queue = queue_with(vec![hand(3), captured_hand(4), hand(5)]);
    action.update(true, &mut queue, |d: &InputDatum| d.uid != 5);
    assert_eq!(uids(action.currently_acting()), vec![4]);
    // capture is asked for everything that meets the condition
    assert_eq!(queue.take_capture_requests(), vec![3, 4]);

    // once 3 is seen captured it counts
    let mut queue = queue_with(vec![captured_hand(3), captured_hand(4)]);
    action.update(true, &mut queue, all);
    assert_eq!(uids(action.started_acting()), vec![3]);
    assert_eq!(uids(action.currently_acting()), vec![3, 4]);
    assert_eq!(queue.take_capture_requests(), vec![3, 4]);
}

#[test]
fn evaluator_update_with_takes_verdicts() {
    let mut action = MultiActorAction::default();
    let mut queue = queue_with(vec![hand(1), hand(2), hand(3)]);
    action.update_with(false, &mut queue, &vec![false, true, true]);
    assert_eq!(uids(action.currently_acting()), vec![2, 3]);
    action.update_with(true, &mut queue, &vec![true, false, false]);
    assert!(action.currently_acting().is_empty());
    assert_eq!(uids(action.stopped_acting()), vec![2, 3]);
    assert_eq!(queue.take_capture_requests(), vec![1]);
}

#[test]
fn arbiter_starts_without_actor() {
    let action = SingleActorAction::default();
    assert!(action.actor().is_none());
    assert!(!action.actor_started());
    assert!(!action.actor_changed());
    assert!(!action.actor_acting());
    assert!(!action.actor_stopped());
}

#[test]
fn condition_then_interact_starts_the_actor() {
    let mut action = SingleActorAction::default();
    // tick 1: h1 meets the condition only
    let mut queue = queue_with(vec![hand(H1)]);
    action.update(false, &mut queue, Some(all), none);
    assert!(!action.actor_started());
    assert!(action.actor().is_none());
    assert!(queue.take_capture_requests().is_empty());
    // tick 2: h1 interacts
    let mut queue = queue_with(vec![hand(H1)]);
    action.update(false, &mut queue, Some(all), all);
    assert!(action.actor_started());
    assert!(action.actor_acting());
    assert!(!action.actor_stopped());
    assert!(!action.actor_changed());
    assert_eq!(action.actor().map(|d| d.uid), Some(H1));
    assert_eq!(queue.take_capture_requests(), vec![H1]);
}

#[test]
fn actor_is_retained_while_the_condition_holds() {
    let mut action = SingleActorAction::default();
    for tick in 1..=6 {
        let mut queue = queue_with(vec![captured_hand(H1)]);
        match tick {
            1 => action.update(false, &mut queue, Some(all), none),
            2 | 3 | 4 => action.update(false, &mut queue, Some(all), all),
            5 => action.update(false, &mut queue, Some(all), none),
            _ => action.update(false, &mut queue, Some(none), none),
        }
        match tick {
            1 => assert!(!action.actor_acting()),
            2 => assert!(action.actor_started() && action.actor_acting()),
            3 | 4 => {
                assert!(!action.actor_started() && action.actor_acting());
                assert_eq!(queue.take_capture_requests(), vec![H1]);
            }
            5 => {
                // interact is false, the condition still holds: no release
                assert!(action.actor_acting());
                assert!(!action.actor_stopped());
                assert_eq!(action.actor().map(|d| d.uid), Some(H1));
                assert_eq!(queue.take_capture_requests(), vec![H1]);
            }
            _ => {
                // both are false: the actor is released
                assert!(action.actor_stopped());
                assert!(!action.actor_acting());
                assert!(action.actor().is_none());
                assert!(queue.take_capture_requests().is_empty());
            }
        }
    }
}

#[test]
fn one_of_two_candidates_becomes_actor_every_time_the_same() {
    for _run in 0..20 {
        let mut action = SingleActorAction::default();
        let mut queue = queue_with(vec![hand(H2), hand(H1)]);
        action.update(false, &mut queue, Some(all), none);
        let mut queue = queue_with(vec![hand(H2), hand(H1)]);
        action.update(false, &mut queue, Some(all), all);
        assert!(action.actor_started());
        assert_eq!(action.actor().map(|d| d.uid), Some(H1));
        assert_eq!(queue.take_capture_requests(), vec![H1]);
    }
}

#[test]
fn arbiter_without_gate_takes_the_lowest_new_input_at_once() {
    let mut action = SingleActorAction::default();
    let mut queue = queue_with(vec![hand(8), hand(4), hand(6)]);
    action.update(false, &mut queue, None::<fn(&InputDatum) -> bool>, |d: &InputDatum| d.uid > 4);
    assert!(action.actor_started());
    assert_eq!(action.actor().map(|d| d.uid), Some(6));
    // without a gate there is no grace: the actor stops with its interaction
    let mut queue = queue_with(vec![hand(8), hand(4), hand(6)]);
    action.update(false, &mut queue, None::<fn(&InputDatum) -> bool>, |d: &InputDatum| d.uid == 8);
    assert!(action.actor_stopped());
    assert!(action.actor().is_none());
}

#[test]
fn arbiter_does_not_latch_an_input_that_arrives_interacting() {
    let mut action = SingleActorAction::default();
    // the input meets the condition and interacts at its first tick
    let mut queue = queue_with(vec![hand(H1)]);
    action.update(false, &mut queue, Some(all), all);
    assert!(action.actor().is_none());
    assert!(!action.actor_started());
    // it keeps interacting: it did not start to, so it is still no candidate
    let mut queue = queue_with(vec![hand(H1)]);
    action.update(false, &mut queue, Some(all), all);
    assert!(action.actor().is_none());
    // after a release and a new trigger it becomes the actor
    let mut queue = queue_with(vec![hand(H1)]);
    action.update(false, &mut queue, Some(all), none);
    let mut queue = queue_with(vec![hand(H1)]);
    action.update(false, &mut queue, Some(all), all);
    assert_eq!(action.actor().map(|d| d.uid), Some(H1));
}

#[test]
fn arbiter_changes_actor_only_where_allowed() {
    for change_actor in [false, true] {
        let mut action = SingleActorAction::default();
        let mut queue = queue_with(vec![hand(H1), hand(H2)]);
        action.update(change_actor, &mut queue, Some(all), none);
        let mut queue = queue_with(vec![hand(H1), hand(H2)]);
        action.update(change_actor, &mut queue, Some(all), |d: &InputDatum| d.uid == H2);
        assert_eq!(action.actor().map(|d| d.uid), Some(H2));
        let mut queue = queue_with(vec![hand(H1), hand(H2)]);
        action.update(change_actor, &mut queue, Some(all), all);
        assert!(!action.actor_started());
        assert!(!action.actor_stopped());
        assert_eq!(action.actor_changed(), change_actor);
        let expected = if change_actor { H1 } else { H2 };
        assert_eq!(action.actor().map(|d| d.uid), Some(expected));
        assert_eq!(queue.take_capture_requests(), vec![expected]);
    }
}

#[test]
fn arbiter_refreshes_the_actor_from_the_frame() {
    let mut action = SingleActorAction::default();
    let mut queue = queue_with(vec![hand(H1)]);
    action.update(false, &mut queue, Some(all), none);
    let mut queue = queue_with(vec![hand(H1)]);
    action.update(false, &mut queue, Some(all), all);
    assert_eq!(action.actor(), Some(&hand(H1)));
    let mut queue = queue_with(vec![captured_hand(H1)]);
    action.update(false, &mut queue, Some(all), all);
    assert_eq!(action.actor(), Some(&captured_hand(H1)));
    assert!(!action.actor_changed());
}

#[test]
fn arbiter_flags_follow_the_actor() {
    let mut action = SingleActorAction::default();
    let mut had_actor = false;
    for tick in 0..40u64 {
        let mut queue = queue_with(vec![hand(1), hand(2), hand(3)]);
        action.update(
            tick % 3 == 0,
            &mut queue,
            Some(|d: &InputDatum| (tick / 2 + d.uid) % 5 != 0),
            |d: &InputDatum| (tick + d.uid) % 4 < 2,
        );
        let has_actor = action.actor().is_some();
        assert_eq!(action.actor_started(), !had_actor && has_actor);
        assert_eq!(action.actor_stopped(), had_actor && !has_actor);
        assert_eq!(action.actor_acting(), has_actor);
        assert!(!(action.actor_started() && action.actor_stopped()));
        if action.actor_started() || action.actor_changed() {
            let uid = action.actor().map(|d| d.uid).unwrap_or(0);
            assert!(!action.condition().started_acting().contains(&uid));
        }
        had_actor = has_actor;
    }
}

#[test]
fn arbiter_update_with_takes_verdicts() {
    let mut action = SingleActorAction::default();
    let mut queue = queue_with(vec![hand(1), hand(2)]);
    action.update_with(false, &mut queue, Some(&vec![true, true]), &vec![false, false]);
    action.update_with(false, &mut queue, Some(&vec![true, true]), &vec![false, true]);
    assert_eq!(action.actor().map(|d| d.uid), Some(2));
    assert_eq!(uids(action.condition().currently_acting()), vec![1, 2]);
    action.update_with(false, &mut queue, None, &vec![false, false]);
    assert!(action.actor_stopped());
    assert!(action.condition().currently_acting().is_empty());
}
