//! Conditions on input data, and the set of uids that a condition lets
//! through.
//!
//! A condition is any `Fn(&InputDatum) -> bool`. Its verdicts on a frame are
//! taken once, by [`evaluate`]; everything after that works on the verdicts.

use super::input_queue::InputDatum;
use vstd::prelude::*;

verus! {

/// Whether `verdicts` holds, datum by datum, an outcome of `condition` on
/// `frame`.
pub open spec fn verdicts_of<F: Fn(&InputDatum) -> bool>(
    condition: F,
    frame: Seq<InputDatum>,
    verdicts: Seq<bool>,
) -> bool {
    &&& verdicts.len() == frame.len()
    &&& forall|i: int|
        0 <= i < frame.len() ==> call_ensures(condition, (&frame[i],), #[trigger] verdicts[i])
}

/// Whether `condition` may be called on every datum of `frame`.
pub open spec fn callable_on<F: Fn(&InputDatum) -> bool>(
    condition: F,
    frame: Seq<InputDatum>,
) -> bool {
    forall|i: int| 0 <= i < frame.len() ==> call_requires(condition, (&#[trigger] frame[i],))
}

/// Calls `condition` on each datum of `frame`, in order.
pub fn evaluate<F: Fn(&InputDatum) -> bool>(frame: &Vec<InputDatum>, condition: &F) -> (verdicts:
    Vec<bool>)
    requires
        callable_on(*condition, frame@),
    ensures
        verdicts_of(*condition, frame@, verdicts@),
{
    let mut verdicts: Vec<bool> = Vec::new();
    let mut i: usize = 0;
    while i < frame.len()
        invariant
            i <= frame.len(),
            callable_on(*condition, frame@),
            verdicts@.len() == i,
            forall|k: int|
                0 <= k < i ==> call_ensures(*condition, (&frame@[k],), #[trigger] verdicts@[k]),
        decreases frame.len() - i,
    {
        let verdict = condition(&frame[i]);
        verdicts.push(verdict);
        i += 1;
    }
    verdicts
}

/// Whether the datum at `i` was let through. A datum without a verdict was
/// not.
pub open spec fn passes(verdicts: Seq<bool>, i: int) -> bool {
    0 <= i < verdicts.len() && verdicts[i]
}

/// Whether the datum at `i` counts: it was let through and, where only
/// captured data count, it is captured.
pub open spec fn qualifies(
    frame: Seq<InputDatum>,
    verdicts: Seq<bool>,
    captured_only: bool,
    i: int,
) -> bool {
    &&& 0 <= i < frame.len()
    &&& passes(verdicts, i)
    &&& (captured_only ==> frame[i].captured)
}

/// The uids of the data that count.
pub open spec fn qualifying(
    frame: Seq<InputDatum>,
    verdicts: Seq<bool>,
    captured_only: bool,
) -> Set<u64> {
    Set::new(
        |uid: u64|
            exists|i: int|
                #[trigger] qualifies(frame, verdicts, captured_only, i) && frame[i].uid == uid,
    )
}

/// The uids of the data that were let through, in the order of the frame.
pub open spec fn triggered(frame: Seq<InputDatum>, verdicts: Seq<bool>) -> Seq<u64>
    decreases frame.len(),
{
    if frame.len() == 0 {
        Seq::empty()
    } else {
        let before = triggered(frame.drop_last(), verdicts);
        if passes(verdicts, frame.len() - 1) {
            before.push(frame.last().uid)
        } else {
            before
        }
    }
}

/// Only uids of the frame qualify.
pub proof fn lemma_qualifying_in_frame(
    frame: Seq<InputDatum>,
    verdicts: Seq<bool>,
    captured_only: bool,
    uid: u64,
)
    requires
        qualifying(frame, verdicts, captured_only).contains(uid),
    ensures
        super::input_queue::has_uid(frame, uid),
{
    let i = choose|i: int|
        #[trigger] qualifies(frame, verdicts, captured_only, i) && frame[i].uid == uid;
    assert(frame[i].uid == uid);
}

proof fn lemma_qualifying_step(
    frame: Seq<InputDatum>,
    verdicts: Seq<bool>,
    captured_only: bool,
    i: int,
)
    requires
        0 <= i < frame.len(),
    ensures
        qualifying(frame.take(i + 1), verdicts, captured_only) == if qualifies(
            frame,
            verdicts,
            captured_only,
            i,
        ) {
            qualifying(frame.take(i), verdicts, captured_only).insert(frame[i].uid)
        } else {
            qualifying(frame.take(i), verdicts, captured_only)
        },
{
    let shorter = frame.take(i);
    let longer = frame.take(i + 1);
    let lhs = qualifying(longer, verdicts, captured_only);
    let rhs = if qualifies(frame, verdicts, captured_only, i) {
        qualifying(shorter, verdicts, captured_only).insert(frame[i].uid)
    } else {
        qualifying(shorter, verdicts, captured_only)
    };
    assert forall|u: u64| lhs.contains(u) implies rhs.contains(u) by {
        let k = choose|k: int|
            #[trigger] qualifies(longer, verdicts, captured_only, k) && longer[k].uid == u;
        if k < i {
            assert(qualifies(shorter, verdicts, captured_only, k) && shorter[k].uid == u);
        } else {
            assert(qualifies(frame, verdicts, captured_only, i));
        }
    }
    assert forall|u: u64| rhs.contains(u) implies lhs.contains(u) by {
        if qualifying(shorter, verdicts, captured_only).contains(u) {
            let k = choose|k: int|
                #[trigger] qualifies(shorter, verdicts, captured_only, k) && shorter[k].uid == u;
            assert(qualifies(longer, verdicts, captured_only, k) && longer[k].uid == u);
        } else {
            assert(qualifies(longer, verdicts, captured_only, i) && longer[i].uid == u);
        }
    }
    assert(lhs =~= rhs);
}

/// Collects the uids of the data that count, in the order of the frame.
pub fn qualifying_uids(frame: &Vec<InputDatum>, verdicts: &Vec<bool>, captured_only: bool) -> (uids:
    Vec<u64>)
    ensures
        uids@.to_set() == qualifying(frame@, verdicts@, captured_only),
{
    let mut uids: Vec<u64> = Vec::new();
    let mut i: usize = 0;
    proof {
        assert(uids@.to_set() =~= qualifying(frame@.take(0), verdicts@, captured_only)) by {
            assert forall|u: u64|
                qualifying(frame@.take(0), verdicts@, captured_only).contains(u) implies false by {
                let k = choose|k: int|
                    #[trigger] qualifies(frame@.take(0), verdicts@, captured_only, k)
                        && frame@.take(0)[k].uid == u;
            }
        }
    }
    while i < frame.len()
        invariant
            i <= frame.len(),
            uids@.to_set() == qualifying(frame@.take(i as int), verdicts@, captured_only),
        decreases frame.len() - i,
    {
        let datum = frame[i];
        let passed = i < verdicts.len() && verdicts[i];
        proof {
            lemma_qualifying_step(frame@, verdicts@, captured_only, i as int);
            uids@.lemma_push_to_set_commute(datum.uid);
        }
        if passed && (!captured_only || datum.captured) {
            uids.push(datum.uid);
        }
        i += 1;
    }
    proof {
        assert(frame@.take(frame.len() as int) == frame@);
    }
    uids
}

} // verus!
