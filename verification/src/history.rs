//! The history of one room: what callers and storage see over a run of
//! appends and evictions.
//!
//! The placement collaborator keeps at most one instance of a room alive and
//! may evict it when it is idle; the next request then meets a cold instance.
//! This module composes the instance's transitions the way a request runs
//! them, and states what holds of every such run.

use crate::durable::{
    answer, appended, can_grow, cold, effect, exhausted, greeting, hydrated, next_value, selected,
    state_after, ActorState, Effect,
};
use crate::error::Failure;
use crate::response::{Answer, STATUS_OK};
use vstd::prelude::*;

verus! {

/// The slot of one room: its persisted record and its instance in memory.
#[verifier::ext_equal]
pub struct Placement {
    pub record: Option<Seq<i32>>,
    pub instance: ActorState,
}

/// One thing that happens to a room.
pub enum Step {
    /// An append is requested. `read` says whether a storage read succeeds,
    /// should the instance make one; `write` says whether the write is
    /// acknowledged.
    Add { read: bool, write: bool },
    /// The instance is evicted; its memory is gone, the record stays.
    Evict,
}

/// A room that was never used: no record, and a cold instance.
pub open spec fn fresh() -> Placement {
    Placement { record: None, instance: cold() }
}

/// The path that selects an append.
pub open spec fn add_path() -> Seq<char> {
    "/add"@
}

/// What a storage read leaves in memory.
pub open spec fn read_back(record: Option<Seq<i32>>, read: bool) -> Seq<i32> {
    match record {
        Some(sequence) if read => sequence,
        _ => Seq::empty(),
    }
}

/// The instance as it serves an append: as it is where it is ready, and
/// otherwise after it asked for the record and took in the read.
pub open spec fn awake(place: Placement, read: bool) -> ActorState {
    if place.instance.phase is Ready {
        place.instance
    } else {
        hydrated(state_after(place.instance, add_path()), read_back(place.record, read))
    }
}

/// Whether an append at `place` is served, that is, the sequence has room.
pub open spec fn served(place: Placement, read: bool) -> bool {
    !exhausted(awake(place, read), add_path())
}

/// What the instance asks of its caller when it serves an append.
pub open spec fn add_effect(place: Placement, read: bool) -> Effect {
    effect(awake(place, read), add_path())
}

/// What the caller of an append receives.
pub open spec fn add_answer(place: Placement, read: bool, write: bool) -> Result<Answer, Failure> {
    answer(write, add_effect(place, read)->reply)
}

/// The room after an append was requested.
pub open spec fn after_add(place: Placement, read: bool, write: bool) -> Placement {
    Placement {
        record: if served(place, read) && write {
            Some(add_effect(place, read)->record)
        } else {
            place.record
        },
        instance: state_after(awake(place, read), add_path()),
    }
}

/// The room after one step.
pub open spec fn after_step(place: Placement, step: Step) -> Placement {
    match step {
        Step::Add { read, write } => after_add(place, read, write),
        Step::Evict => Placement { record: place.record, instance: cold() },
    }
}

/// The room after all of `steps`, first to last.
pub open spec fn after_steps(place: Placement, steps: Seq<Step>) -> Placement
    decreases steps.len(),
{
    if steps.len() == 0 {
        place
    } else {
        after_step(after_steps(place, steps.drop_last()), steps.last())
    }
}

/// How many appends `steps` request.
pub open spec fn adds(steps: Seq<Step>) -> nat
    decreases steps.len(),
{
    if steps.len() == 0 {
        0
    } else {
        adds(steps.drop_last()) + if steps.last() is Add {
            1nat
        } else {
            0nat
        }
    }
}

/// Whether storage never fails in `steps`.
pub open spec fn faultless(steps: Seq<Step>) -> bool {
    forall|i: int|
        0 <= i < steps.len() ==> (#[trigger] steps[i] matches Step::Add { read, write } ==> read
            && write)
}

/// The numbers from 1 to `count`, in order.
pub open spec fn counting(count: nat) -> Seq<i32> {
    Seq::new(count, |i: int| (i + 1) as i32)
}

/// Whether `place` is what `count` acknowledged appends leave behind.
pub open spec fn settled(place: Placement, count: nat) -> bool {
    &&& place.record == if count == 0 {
        None
    } else {
        Some(counting(count))
    }
    &&& place.instance.phase is Ready ==> place.instance.sequence == counting(count)
}

/// An append to the numbers from 1 to `count` gives the numbers from 1 to
/// `count + 1`.
pub proof fn lemma_counting_grows(count: nat)
    requires
        count < i32::MAX,
    ensures
        can_grow(counting(count)),
        next_value(counting(count)) == count + 1,
        appended(counting(count)) == counting(count + 1),
{
    assert(appended(counting(count)) =~= counting(count + 1));
}

/// A faultless append at a settled room gives the next number and leaves
/// the room settled.
proof fn lemma_settled_add(place: Placement, count: nat)
    requires
        settled(place, count),
        count < i32::MAX,
    ensures
        served(place, true),
        awake(place, true).sequence == counting(count),
        add_effect(place, true) == (Effect::Persist {
            record: counting(count + 1),
            reply: greeting(counting(count + 1)),
        }),
        settled(after_add(place, true, true), count + 1),
{
    lemma_counting_grows(count);
    assert(selected(add_path()) is Append);
    assert(awake(place, true).sequence =~= counting(count));
}

/// A faultless run from a fresh room leaves a settled one.
proof fn lemma_faultless_run(steps: Seq<Step>)
    requires
        faultless(steps),
        adds(steps) <= i32::MAX,
    ensures
        settled(after_steps(fresh(), steps), adds(steps)),
    decreases steps.len(),
{
    if steps.len() > 0 {
        let before = steps.drop_last();
        assert forall|i: int| 0 <= i < before.len() implies (#[trigger] before[i] matches Step::Add {
            read,
            write,
        } ==> read && write) by {
            assert(before[i] == steps[i]);
        }
        lemma_faultless_run(before);
        let place = after_steps(fresh(), before);
        match steps.last() {
            Step::Add { read, write } => {
                assert(steps[steps.len() - 1] is Add);
                lemma_settled_add(place, adds(before));
            },
            Step::Evict => {},
        }
    }
}

/// Appends to one room are serialised: after any run in which storage never
/// failed and that held `count` appends, evictions or not, the next append
/// is answered with the numbers from 1 to `count + 1`, the last of them
/// being `count + 1`, and that is the record then in storage.
pub proof fn lemma_appends_are_serialised(steps: Seq<Step>)
    requires
        faultless(steps),
        adds(steps) < i32::MAX,
    ensures
        ({
            let place = after_steps(fresh(), steps);
            let sequence = counting(adds(steps) + 1);
            &&& served(place, true)
            &&& add_effect(place, true) == (Effect::Persist {
                record: sequence,
                reply: greeting(sequence),
            })
            &&& add_answer(place, true, true) == Ok::<Answer, Failure>(
                Answer { status: STATUS_OK as int, body: greeting(sequence) },
            )
            &&& after_add(place, true, true).record == Some(sequence)
            &&& sequence.last() == adds(steps) + 1
            &&& forall|i: int| 0 <= i < sequence.len() ==> sequence[i] == i + 1
        }),
{
    lemma_faultless_run(steps);
    lemma_settled_add(after_steps(fresh(), steps), adds(steps));
}

/// An append is answered only after its write: the instance itself answers
/// nothing and asks for the write instead; the caller sees success exactly
/// when the write was acknowledged, and then storage holds the very sequence
/// that the answer reports. A write that failed is reported as a failure and
/// leaves the record as it was, while memory keeps the appended number.
pub proof fn lemma_write_before_respond(place: Placement, read: bool, write: bool)
    requires
        served(place, read),
    ensures
        ({
            let sequence = appended(awake(place, read).sequence);
            let after = after_add(place, read, write);
            &&& add_effect(place, read) == (Effect::Persist {
                record: sequence,
                reply: greeting(sequence),
            })
            &&& add_answer(place, read, write) is Ok <==> write
            &&& write ==> after.record == Some(sequence) && add_answer(place, read, write) == Ok::<
                Answer,
                Failure,
            >(Answer { status: STATUS_OK as int, body: greeting(sequence) })
            &&& !write ==> after.record == place.record && add_answer(place, read, write) == Err::<
                Answer,
                Failure,
            >(Failure::StorageUnavailable)
            &&& after.instance.sequence == sequence
        }),
{
    assert(selected(add_path()) is Append);
}

/// An instance reads its record once. Where that read fails, the instance
/// starts from the empty sequence; it is ready from then on, and a later
/// request in its lifetime is served from memory, whatever storage would
/// now return.
pub proof fn lemma_outage_resets_once(place: Placement, write: bool, later_read: bool)
    requires
        !(place.instance.phase is Ready),
    ensures
        ({
            let after = after_add(place, false, write);
            &&& awake(place, false).sequence == Seq::<i32>::empty()
            &&& after.instance.sequence == seq![1i32]
            &&& after.instance.phase is Ready
            &&& awake(after, later_read) == after.instance
        }),
{
    assert(selected(add_path()) is Append);
    assert(awake(place, false).sequence =~= Seq::<i32>::empty());
    assert(after_add(place, false, write).instance.sequence =~= seq![1i32]);
}

} // verus!
