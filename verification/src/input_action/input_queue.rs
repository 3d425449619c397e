use super::uid_set;
use vstd::prelude::*;

verus! {

/// The kind of device that a sample comes from.
#[derive(Clone, Copy, Debug, PartialEq, Eq, Structural)]
pub enum InputKind {
    Pointer,
    Hand,
    Tip,
}

/// One sample of one input source for one tick: what the input actions read
/// of it.
#[derive(Clone, Copy, Debug, PartialEq, Eq, Structural)]
pub struct InputDatum {
    /// Identifies the source; stable from tick to tick.
    pub uid: u64,
    pub kind: InputKind,
    /// Whether the handler has captured the source as of this sample.
    pub captured: bool,
}

/// Whether some datum of `frame` has the uid `uid`.
pub open spec fn has_uid(frame: Seq<InputDatum>, uid: u64) -> bool {
    exists|i: int| 0 <= i < frame.len() && #[trigger] frame[i].uid == uid
}

/// Whether no two data of `frame` share a uid.
pub open spec fn distinct_uids(frame: Seq<InputDatum>) -> bool {
    forall|i: int, j: int|
        0 <= i < j < frame.len() ==> #[trigger] frame[i].uid != #[trigger] frame[j].uid
}

/// The first datum of `frame` with the uid `uid`, if there is one.
pub open spec fn datum_of(frame: Seq<InputDatum>, uid: u64) -> Option<InputDatum>
    decreases frame.len(),
{
    if frame.len() == 0 {
        None
    } else if frame[0].uid == uid {
        Some(frame[0])
    } else {
        datum_of(frame.drop_first(), uid)
    }
}

/// `snapshot` without the data whose uid an earlier datum already has.
pub open spec fn first_of_each_uid(snapshot: Seq<InputDatum>) -> Seq<InputDatum>
    decreases snapshot.len(),
{
    if snapshot.len() == 0 {
        Seq::empty()
    } else {
        let before = first_of_each_uid(snapshot.drop_last());
        if has_uid(before, snapshot.last().uid) {
            before
        } else {
            before.push(snapshot.last())
        }
    }
}

/// `datum_of` finds a datum exactly when the frame has the uid, and the
/// datum it finds is in the frame and has that uid.
pub proof fn lemma_datum_of(frame: Seq<InputDatum>, uid: u64)
    ensures
        datum_of(frame, uid).is_some() <==> has_uid(frame, uid),
        datum_of(frame, uid).is_some() ==> datum_of(frame, uid).unwrap().uid == uid
            && frame.contains(datum_of(frame, uid).unwrap()),
    decreases frame.len(),
{
    if frame.len() == 0 {
    } else if frame[0].uid == uid {
        assert(frame[0].uid == uid);
    } else {
        let rest = frame.drop_first();
        lemma_datum_of(rest, uid);
        if has_uid(rest, uid) {
            let i = choose|i: int| 0 <= i < rest.len() && #[trigger] rest[i].uid == uid;
            assert(frame[i + 1].uid == uid);
        }
        if has_uid(frame, uid) {
            let i = choose|i: int| 0 <= i < frame.len() && #[trigger] frame[i].uid == uid;
            assert(rest[i - 1].uid == uid);
        }
        if datum_of(frame, uid).is_some() {
            let d = datum_of(rest, uid).unwrap();
            let k = choose|k: int| 0 <= k < rest.len() && rest[k] == d;
            assert(frame[k + 1] == d);
        }
    }
}

/// A snapshot of input in which no two data share a uid.
struct Frame {
    data: Vec<InputDatum>,
}

impl Frame {
    #[verifier::type_invariant]
    spec fn holds_each_uid_once(self) -> bool {
        distinct_uids(self.data@)
    }
}

/// The latest snapshot of input that the handler delivered, and the capture
/// requests that are waiting to be sent to it.
pub struct InputQueue {
    input: Frame,
    captures: Vec<u64>,
}

impl InputQueue {
    /// The latest snapshot.
    pub closed spec fn frame(&self) -> Seq<InputDatum> {
        self.input.data@
    }

    /// The uids whose capture was requested and not yet taken, oldest first.
    pub closed spec fn capture_requests(&self) -> Seq<u64> {
        self.captures@
    }

    /// A queue that has seen no input and holds no request.
    pub fn new() -> (queue: Self)
        ensures
            queue.frame() == Seq::<InputDatum>::empty(),
            queue.capture_requests() == Seq::<u64>::empty(),
    {
        InputQueue { input: Frame { data: Vec::new() }, captures: Vec::new() }
    }

    /// The latest snapshot; no two of its data share a uid.
    pub fn input(&self) -> (frame: &Vec<InputDatum>)
        ensures
            frame@ == self.frame(),
            distinct_uids(frame@),
    {
        proof {
            use_type_invariant(&self.input);
        }
        &self.input.data
    }

    /// The datum of the latest snapshot with the uid `uid`.
    pub fn find(&self, uid: u64) -> (found: Option<InputDatum>)
        ensures
            found == datum_of(self.frame(), uid),
    {
        let mut i: usize = 0;
        proof {
            assert(self.input.data@.skip(0) == self.input.data@);
        }
        while i < self.input.data.len()
            invariant
                i <= self.input.data.len(),
                datum_of(self.input.data@, uid) == datum_of(self.input.data@.skip(i as int), uid),
            decreases self.input.data.len() - i,
        {
            let datum = self.input.data[i];
            proof {
                let rest = self.input.data@.skip(i as int);
                assert(rest[0] == datum);
                assert(rest.drop_first() == self.input.data@.skip(i as int + 1));
            }
            if datum.uid == uid {
                return Some(datum);
            }
            i += 1;
        }
        None
    }

    /// Asks for the capture of the source `uid`, if the latest snapshot has
    /// it; a request for a source that is not there is dropped.
    pub fn request_capture(&mut self, uid: u64)
        ensures
            final(self).frame() == old(self).frame(),
            final(self).capture_requests() == if has_uid(old(self).frame(), uid) {
                old(self).capture_requests().push(uid)
            } else {
                old(self).capture_requests()
            },
    {
        proof {
            lemma_datum_of(self.frame(), uid);
        }
        if self.find(uid).is_some() {
            self.captures.push(uid);
        }
    }

    /// Hands out the waiting capture requests, oldest first, and forgets them.
    pub fn take_capture_requests(&mut self) -> (requests: Vec<u64>)
        ensures
            requests@ == old(self).capture_requests(),
            final(self).capture_requests() == Seq::<u64>::empty(),
            final(self).frame() == old(self).frame(),
    {
        let mut requests: Vec<u64> = Vec::new();
        std::mem::swap(&mut requests, &mut self.captures);
        requests
    }

    /// Takes in the snapshots that arrived since the last call, oldest first.
    /// Each one replaces what was there, so the last one stays; of two data
    /// in it with one uid the first one stays. Returns whether any arrived.
    pub fn handle_events(&mut self, events: &Vec<Vec<InputDatum>>) -> (updated: bool)
        ensures
            updated == (events@.len() > 0),
            final(self).frame() == if events@.len() > 0 {
                first_of_each_uid(events@.last()@)
            } else {
                old(self).frame()
            },
            distinct_uids(final(self).frame()),
            final(self).capture_requests() == old(self).capture_requests(),
    {
        if events.len() == 0 {
            proof {
                use_type_invariant(&self.input);
            }
            return false;
        }
        let snapshot = &events[events.len() - 1];
        let mut seen = uid_set::empty_set();
        let mut input: Vec<InputDatum> = Vec::new();
        let mut i: usize = 0;
        while i < snapshot.len()
            invariant
                i <= snapshot.len(),
                input@ == first_of_each_uid(snapshot@.take(i as int)),
                forall|u: u64| seen@.contains(u) <==> has_uid(input@, u),
                distinct_uids(input@),
            decreases snapshot.len() - i,
        {
            let datum = snapshot[i];
            proof {
                let next = snapshot@.take(i as int + 1);
                assert(next.drop_last() == snapshot@.take(i as int));
                assert(next.last() == datum);
            }
            if uid_set::insert(&mut seen, datum.uid) {
                let ghost before = input@;
                input.push(datum);
                proof {
                    assert forall|u: u64| seen@.contains(u) implies has_uid(input@, u) by {
                        if u == datum.uid {
                            assert(input@[before.len() as int].uid == u);
                        } else {
                            let k = choose|k: int|
                                0 <= k < before.len() && #[trigger] before[k].uid == u;
                            assert(input@[k].uid == u);
                        }
                    }
                    assert forall|u: u64| has_uid(input@, u) implies seen@.contains(u) by {
                        let k = choose|k: int|
                            0 <= k < input@.len() && #[trigger] input@[k].uid == u;
                        if k < before.len() {
                            assert(before[k].uid == u);
                        }
                    }
                    assert forall|a: int, b: int| 0 <= a < b < input@.len() implies input@[a].uid
                        != input@[b].uid by {
                        if b == before.len() {
                            assert(before[a].uid == input@[a].uid);
                        } else {
                            assert(before[a].uid != before[b].uid);
                        }
                    }
                }
            }
            i += 1;
        }
        proof {
            assert(snapshot@.take(snapshot.len() as int) == snapshot@);
        }
        self.input = Frame { data: input };
        true
    }
}

} // verus!
