use stardust_xr_molecules::input_action::{
    InputDatum, InputKind, InputQueue, MultiAction, SingleAction,
};

fn tip(uid: u64, captured: bool) -> InputDatum {
    InputDatum { uid, kind: InputKind::Tip, captured }
}

fn uids(set: &rustc_hash::FxHashSet<u64>) -> Vec<u64> {
    let mut uids: Vec<u64> = set.iter().copied().collect();
    uids.sort();
    uids
}

fn queue_with(frame: Vec<InputDatum>) -> InputQueue {
    let mut queue = InputQueue::new();
    queue.handle_events(&vec![frame]);
    queue
}

fn all(_datum: &InputDatum) -> bool {
    true
}

fn none(_datum: &InputDatum) -> bool {
    false
}

#[test]
fn multi_action_hover_then_capture_then_interact() {
    let mut action = MultiAction::default();
    // tick 1: the input hovers
    let mut queue = queue_with(vec![tip(1, false)]);
    action.update(&mut queue, all, none);
    assert_eq!(uids(action.hover().added()), vec![1]);
    assert!(action.interact().current().is_empty());
    assert!(queue.take_capture_requests().is_empty());
    // tick 2: still hovering, nothing new
    let mut queue = queue_with(vec![tip(1, false)]);
    action.update(&mut queue, all, none);
    assert!(action.hover().added().is_empty());
    assert_eq!(uids(action.hover().current()), vec![1]);
    // tick 3: it begins to meet the interact condition: capture is asked
    // for, it keeps hovering until it is captured
    let mut queue = queue_with(vec![tip(1, false)]);
    action.update(&mut queue, all, all);
    assert_eq!(queue.take_capture_requests(), vec![1]);
    assert_eq!(uids(action.hover().current()), vec![1]);
    assert!(action.interact().current().is_empty());
    // tick 4: captured: it interacts and hovers no more
    let mut queue = queue_with(vec![tip(1, true)]);
    action.update(&mut queue, all, all);
    assert_eq!(uids(action.interact().added()), vec![1]);
    assert_eq!(uids(action.hover().removed()), vec![1]);
    assert!(action.hover().current().is_empty());
    assert_eq!(queue.take_capture_requests(), vec![1]);
    // tick 5: released
    let mut queue = queue_with(vec![tip(1, false)]);
    action.update(&mut queue, all, none);
    assert_eq!(uids(action.interact().removed()), vec![1]);
    assert_eq!(uids(action.hover().added()), vec![1]);
}

#[test]
fn multi_action_does_not_capture_an_input_that_arrives_interacting() {
    let mut action = MultiAction::default();
    let mut queue = queue_with(vec![tip(1, false)]);
    action.update(&mut queue, all, all);
    assert!(queue.take_capture_requests().is_empty());
    assert!(action.hover().current().is_empty());
    assert!(action.interact().current().is_empty());
}

#[test]
fn multi_action_update_with_takes_verdicts() {
    let mut action = MultiAction::default();
    let mut queue = queue_with(vec![tip(1, true), tip(2, false)]);
    action.update_with(&mut queue, &vec![true, true], &vec![true, false]);
    assert_eq!(uids(action.interact().current()), vec![1]);
    assert_eq!(uids(action.hover().current()), vec![2]);
    assert_eq!(queue.take_capture_requests(), vec![1]);
}

#[test]
fn single_action_starts_and_stops_with_the_interaction() {
    let mut action = SingleAction::default();
    assert!(action.actor().is_none());
    let mut queue = queue_with(vec![tip(1, false)]);
    action.update(true, &mut queue, all, none);
    assert!(!action.actor_acting());
    assert_eq!(uids(action.hovering().current()), vec![1]);
    let mut queue = queue_with(vec![tip(1, false)]);
    action.update(true, &mut queue, all, all);
    assert!(!action.actor_acting());
    let mut queue = queue_with(vec![tip(1, true)]);
    action.update(true, &mut queue, all, all);
    assert!(action.actor_started());
    assert!(action.actor_acting());
    assert!(!action.actor_stopped());
    assert_eq!(action.actor(), Some(&tip(1, true)));
    let mut queue = queue_with(vec![tip(1, true)]);
    action.update(true, &mut queue, all, all);
    assert!(!action.actor_started());
    assert!(action.actor_acting());
    let mut queue = queue_with(vec![tip(1, false)]);
    action.update(true, &mut queue, all, none);
    assert!(action.actor_stopped());
    assert!(!action.actor_acting());
    assert!(action.actor().is_none());
}

#[test]
fn single_action_takes_the_lowest_newcomer_and_changes_where_allowed() {
    for change_actor in [false, true] {
        let mut action = SingleAction::default();
        let mut queue = queue_with(vec![tip(5, true), tip(3, true), tip(1, true)]);
        action.update(change_actor, &mut queue, all, |d: &InputDatum| d.uid >= 3);
        assert!(action.actor_started());
        assert_eq!(action.actor().map(|d| d.uid), Some(3));
        let mut queue = queue_with(vec![tip(5, true), tip(3, true), tip(1, true)]);
        action.update(change_actor, &mut queue, all, all);
        assert_eq!(action.actor_changed(), change_actor);
        assert!(!action.actor_started());
        let expected = if change_actor { 1 } else { 3 };
        assert_eq!(action.actor().map(|d| d.uid), Some(expected));
    }
}

#[test]
fn single_action_never_starts_and_stops_at_once() {
    let mut action = SingleAction::default();
    for tick in 0..40u64 {
        let mut queue = queue_with(vec![tip(1, tick % 2 == 0), tip(2, tick % 3 != 0)]);
        action.update(tick % 5 == 0, &mut queue, all, |d: &InputDatum| (tick + d.uid) % 4 < 2);
        assert!(!(action.actor_started() && action.actor_stopped()));
        assert_eq!(action.actor_acting(), action.actor().is_some());
    }
}
