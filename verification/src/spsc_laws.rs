//! What holds of rings over more than one operation, and between threads.
use std::task::Waker;

use vstd::prelude::*;

use crate::poll::Poll;
use crate::ring_queue;
use crate::spsc::{PopNext, PopStep, PushStep, RingView};
use crate::stream_laws;

verus! {

/// A ring between two operations of one half, while the other half may be in the
/// middle of one: the producer first changes the ring and then calls the
/// waiting consumer.
#[verifier::ext_equal]
pub struct SharedRing<T> {
    /// The ring.
    pub ring: RingView<T>,
    /// Whether the producer has changed the ring and not yet called the waiting
    /// consumer.
    pub call_owed: bool,
}

/// What the producer does in one step.
pub enum ProducerStep<T> {
    /// It puts an item into the queue, if there is room.
    Push(T),
    /// It puts an item into the queue in place of the oldest one, if it must.
    Overwrite(T),
    /// It sets the flag that it has gone.
    End,
    /// It takes the waker that was left behind and wakes it.
    Call,
}

/// Whether the producer may make `after` of `before` by this step. It changes
/// the ring only while it has not gone, and only after it has made the call for
/// the change before; whether a call follows is what [`PushStep`] says.
pub open spec fn producer_step<T>(
    before: SharedRing<T>,
    step: ProducerStep<T>,
    after: SharedRing<T>,
) -> bool {
    let free = !before.ring.closed && !before.call_owed;
    let parked = before.ring.parked;
    match step {
        ProducerStep::Push(item) => {
            &&& free
            &&& after.ring == before.ring.pushed(item).with_parked(parked)
            &&& after.call_owed == (PushStep::Push.following(!before.ring.full()) is Some)
        },
        ProducerStep::Overwrite(item) => {
            &&& free
            &&& after.ring == before.ring.overwritten(item).with_parked(parked)
            &&& after.call_owed == (PushStep::Overwrite.following(true) is Some)
        },
        ProducerStep::End => {
            &&& free
            &&& after.ring == before.ring.ended().with_parked(parked)
            &&& after.call_owed == (PushStep::End.following(true) is Some)
        },
        ProducerStep::Call => {
            &&& before.call_owed
            &&& after.ring == before.ring.with_parked(None)
            &&& after.call_owed == (PushStep::Call.following(true) is Some)
        },
    }
}

/// Whether the producer may make `after` of `before` by some step.
pub open spec fn producer_moves<T>(before: SharedRing<T>, after: SharedRing<T>) -> bool {
    exists|step: ProducerStep<T>| #[trigger] producer_step(before, step, after)
}

/// Whether `states` is a run of the producer: each state makes the next one by
/// a step.
pub open spec fn producer_run<T>(states: Seq<SharedRing<T>>) -> bool {
    forall|i: int|
        0 <= i < states.len() - 1 ==> producer_moves(#[trigger] states[i], states[i + 1])
}

/// Whether the producer can make `after` of `before` in any number of steps.
pub open spec fn producer_reaches<T>(before: SharedRing<T>, after: SharedRing<T>) -> bool {
    exists|states: Seq<SharedRing<T>>|
        #![trigger producer_run(states)]
        producer_run(states) && states.len() > 0 && states.first() == before && states.last()
            == after
}

/// What stays, however many steps the producer makes: once it has gone the items
/// stay as they are, and a waker that is still there with no call owed means
/// that nothing was done at all.
pub open spec fn undisturbed<T>(before: SharedRing<T>, after: SharedRing<T>) -> bool {
    &&& before.ring.closed ==> after.ring.closed && after.ring.items == before.ring.items
    &&& after.ring.parked is Some && !after.call_owed ==> after == before
}

/// Runs of the producer leave undisturbed what must stay.
proof fn lemma_runs_leave_undisturbed<T>(states: Seq<SharedRing<T>>)
    requires
        producer_run(states),
        states.len() > 0,
    ensures
        undisturbed(states.first(), states.last()),
    decreases states.len(),
{
    if states.len() > 1 {
        let shorter = states.drop_last();
        let at = states.len() - 2;
        assert forall|i: int| 0 <= i < shorter.len() - 1 implies producer_moves(
            #[trigger] shorter[i],
            shorter[i + 1],
        ) by {
            assert(shorter[i] == states[i]);
        }
        lemma_runs_leave_undisturbed(shorter);
        assert(producer_moves(states[at], states[at + 1]));
    }
}

/// Whatever the producer can reach leaves undisturbed what must stay.
proof fn lemma_producer_leaves_undisturbed<T>(before: SharedRing<T>, after: SharedRing<T>)
    requires
        producer_reaches(before, after),
    ensures
        undisturbed(before, after),
{
    let states = choose|states: Seq<SharedRing<T>>|
        #![trigger producer_run(states)]
        producer_run(states) && states.len() > 0 && states.first() == before && states.last()
            == after;
    lemma_runs_leave_undisturbed(states);
}

/// What one step of a poll makes of a ring, and what comes after it. `parked` is
/// the waker that is left behind where the step leaves one.
pub open spec fn consumer_step<T>(state: SharedRing<T>, step: PopStep, parked: Waker) -> (
    SharedRing<T>,
    PopNext<T>,
) {
    if step.pops() {
        (
            SharedRing { ring: state.ring.popped(), ..state },
            step.popped(state.ring.front()),
        )
    } else if step.checks() {
        (state, step.checked(state.ring.closed))
    } else {
        (
            SharedRing { ring: state.ring.with_parked(Some(parked)), ..state },
            PopNext::Continue(PopStep::SecondPop),
        )
    }
}

/// A poll from `step` on: the state at its end and its outcome. `seen` gives the
/// state in which each step finds the ring.
pub open spec fn poll_course<T>(
    step: PopStep,
    seen: spec_fn(PopStep) -> SharedRing<T>,
    parked: Waker,
) -> (SharedRing<T>, Poll<Option<T>>)
    decreases step.steps_left(),
{
    let (after, next) = consumer_step(seen(step), step, parked);
    match next {
        PopNext::Continue(following) => if following.steps_left() < step.steps_left() {
            poll_course(following, seen, parked)
        } else {
            (after, Poll::Pending)
        },
        PopNext::Finished(outcome) => (after, outcome),
    }
}

/// Whether each step of a poll from `step` on finds the ring as the producer may
/// have left it since the step before, which left it as `left`.
pub open spec fn interleaved<T>(
    left: SharedRing<T>,
    step: PopStep,
    seen: spec_fn(PopStep) -> SharedRing<T>,
    parked: Waker,
) -> bool
    decreases step.steps_left(),
{
    let (after, next) = consumer_step(seen(step), step, parked);
    &&& producer_reaches(left, seen(step))
    &&& match next {
        PopNext::Continue(following) => following.steps_left() < step.steps_left() && interleaved(
            after,
            following,
            seen,
            parked,
        ),
        PopNext::Finished(_) => true,
    }
}

/// No item is lost at the end: whatever the producer does between the steps of a
/// poll, the poll ends with the end of the ring only where the producer has gone
/// and no item is left.
pub proof fn law_end_of_ring_means_drained<T>(
    left: SharedRing<T>,
    seen: spec_fn(PopStep) -> SharedRing<T>,
    parked: Waker,
)
    requires
        interleaved(left, PopStep::FirstPop, seen, parked),
    ensures
        ({
            let (end, outcome) = poll_course(PopStep::FirstPop, seen, parked);
            outcome == Poll::Ready(None::<T>) ==> end.ring.closed && end.ring.items.len() == 0
        }),
{
    reveal_with_fuel(interleaved, 7);
    reveal_with_fuel(poll_course, 7);
    if producer_reaches(seen(PopStep::FirstCheck), seen(PopStep::DrainPop)) {
        lemma_producer_leaves_undisturbed(seen(PopStep::FirstCheck), seen(PopStep::DrainPop));
    }
    if producer_reaches(seen(PopStep::SecondCheck), seen(PopStep::DrainPop)) {
        lemma_producer_leaves_undisturbed(seen(PopStep::SecondCheck), seen(PopStep::DrainPop));
    }
}

/// No call is lost: after a poll that ended without an item, whatever the
/// producer did between its steps and does afterwards, the consumer's waker is
/// still in place with no call owed only where there is nothing to be taken and
/// the producer has not gone. In every other case the producer has taken the
/// waker to wake it, or is about to.
pub proof fn law_waiting_consumer_is_called<T>(
    left: SharedRing<T>,
    seen: spec_fn(PopStep) -> SharedRing<T>,
    parked: Waker,
    now: SharedRing<T>,
)
    requires
        interleaved(left, PopStep::FirstPop, seen, parked),
        poll_course(PopStep::FirstPop, seen, parked).1 is Pending,
        producer_reaches(poll_course(PopStep::FirstPop, seen, parked).0, now),
    ensures
        now.ring.parked is Some && !now.call_owed ==> {
            &&& now.ring.items.len() == 0
            &&& !now.ring.closed
            &&& now.ring.parked == Some(parked)
        },
{
    reveal_with_fuel(interleaved, 7);
    reveal_with_fuel(poll_course, 7);
    let registered = consumer_step(seen(PopStep::Register), PopStep::Register, parked).0;
    let popped = consumer_step(seen(PopStep::SecondPop), PopStep::SecondPop, parked).0;
    lemma_producer_leaves_undisturbed(registered, seen(PopStep::SecondPop));
    lemma_producer_leaves_undisturbed(popped, seen(PopStep::SecondCheck));
    lemma_producer_leaves_undisturbed(seen(PopStep::SecondCheck), now);
}

/// A poll takes the oldest item of the ring as one of its steps found it, and
/// none where it gives none.
pub proof fn law_poll_takes_the_oldest_item<T>(
    seen: spec_fn(PopStep) -> SharedRing<T>,
    parked: Waker,
)
    ensures
        ({
            let (end, outcome) = poll_course(PopStep::FirstPop, seen, parked);
            outcome matches Poll::Ready(Some(item)) ==> exists|step: PopStep| #[trigger]
                step.pops() && seen(step).ring.front() == Some(item) && end.ring == seen(
                    step,
                ).ring.popped()
        }),
{
    reveal_with_fuel(poll_course, 7);
    assert(PopStep::FirstPop.pops() && PopStep::SecondPop.pops() && PopStep::DrainPop.pops());
}

/// On a ring that the consumer has to itself, going through the steps gives what
/// one poll gives.
pub proof fn law_undisturbed_poll<T>(ring: RingView<T>, waker: Waker, parked: Waker)
    requires
        ring_queue::parks(ring.parked, waker, Some(parked)),
    ensures
        ({
            let still = SharedRing { ring, call_owed: false };
            let waiting = SharedRing { ring: ring.with_parked(Some(parked)), call_owed: false };
            let seen = |step: PopStep|
                if step is SecondPop || step is SecondCheck {
                    waiting
                } else {
                    still
                };
            let (end, outcome) = poll_course(PopStep::FirstPop, seen, parked);
            ring.polled(waker, end.ring, outcome)
        }),
{
    reveal_with_fuel(poll_course, 7);
}

/// What the two halves do with the items of a ring.
pub enum RingStep<T> {
    /// `SpscProducer::push`.
    Push(T),
    /// `SpscProducer::push_overwrite`.
    Overwrite(T),
    /// `SpscConsumer::pop`.
    Pop,
}

/// What a run of steps comes to.
pub struct RingRun<T> {
    /// The ring afterwards.
    pub ring: RingView<T>,
    /// The items that were put into the ring, in this order.
    pub put: Seq<T>,
    /// The items that the consumer took, in this order.
    pub taken: Seq<T>,
    /// The items that left the ring, taken or displaced, in this order.
    pub left: Seq<T>,
}

/// A run of steps, one after the other.
pub open spec fn ring_run<T>(ring: RingView<T>, steps: Seq<RingStep<T>>) -> RingRun<T>
    decreases steps.len(),
{
    if steps.len() == 0 {
        RingRun { ring, put: Seq::empty(), taken: Seq::empty(), left: Seq::empty() }
    } else {
        let before = ring_run(ring, steps.drop_last());
        let now = before.ring;
        match steps.last() {
            RingStep::Push(item) => RingRun {
                ring: now.pushed(item),
                put: if now.full() {
                    before.put
                } else {
                    before.put.push(item)
                },
                ..before
            },
            RingStep::Overwrite(item) => RingRun {
                ring: now.overwritten(item),
                put: before.put.push(item),
                left: if now.full() {
                    before.left.push(now.items[0])
                } else {
                    before.left
                },
                ..before
            },
            RingStep::Pop => {
                let item = stream_laws::at_most_one(now.front());
                RingRun {
                    ring: now.popped(),
                    taken: before.taken + item,
                    left: before.left + item,
                    ..before
                }
            },
        }
    }
}

/// Items leave a ring in the order in which they were put into it, each of them
/// once, and the others are still there.
pub proof fn law_ring_keeps_order<T>(ring: RingView<T>, steps: Seq<RingStep<T>>)
    requires
        ring.wf(),
    ensures
        ring_run(ring, steps).ring.wf(),
        ring_run(ring, steps).ring.capacity == ring.capacity,
        ring.items + ring_run(ring, steps).put == ring_run(ring, steps).left + ring_run(
            ring,
            steps,
        ).ring.items,
    decreases steps.len(),
{
    if steps.len() == 0 {
        assert(ring.items + Seq::<T>::empty() =~= Seq::<T>::empty() + ring.items);
    } else {
        law_ring_keeps_order(ring, steps.drop_last());
        let before = ring_run(ring, steps.drop_last());
        let after = ring_run(ring, steps);
        let now = before.ring;
        match steps.last() {
            RingStep::Push(item) => {
                if !now.full() {
                    assert(ring.items + after.put =~= (ring.items + before.put).push(item));
                    assert(after.left + after.ring.items =~= (before.left + now.items).push(item));
                }
            },
            RingStep::Overwrite(item) => {
                assert(ring.items + after.put =~= (ring.items + before.put).push(item));
                assert(after.left + after.ring.items =~= (before.left + now.items).push(item));
            },
            RingStep::Pop => {
                assert(after.left + after.ring.items =~= before.left + now.items);
            },
        }
    }
}

/// Without pushes over the oldest item nothing is lost: every item that was put
/// into a ring is taken or still there, once, in the order in which it was put
/// in.
pub proof fn law_plain_pushes_lose_nothing<T>(ring: RingView<T>, steps: Seq<RingStep<T>>)
    requires
        ring.wf(),
        forall|i: int| 0 <= i < steps.len() ==> !(#[trigger] steps[i] is Overwrite),
    ensures
        ring.items + ring_run(ring, steps).put == ring_run(ring, steps).taken + ring_run(
            ring,
            steps,
        ).ring.items,
{
    law_ring_keeps_order(ring, steps);
    lemma_plain_runs_take_what_leaves(ring, steps);
}

/// In a run without pushes over the oldest item, what leaves a ring is taken.
proof fn lemma_plain_runs_take_what_leaves<T>(ring: RingView<T>, steps: Seq<RingStep<T>>)
    requires
        forall|i: int| 0 <= i < steps.len() ==> !(#[trigger] steps[i] is Overwrite),
    ensures
        ring_run(ring, steps).left == ring_run(ring, steps).taken,
    decreases steps.len(),
{
    if steps.len() > 0 {
        let shorter = steps.drop_last();
        assert forall|i: int| 0 <= i < shorter.len() implies !(#[trigger] shorter[i] is Overwrite) by {
            assert(shorter[i] == steps[i]);
        }
        lemma_plain_runs_take_what_leaves(ring, shorter);
    }
}

/// A ring after this many items have been taken.
pub open spec fn pop_many<T>(ring: RingView<T>, count: nat) -> RingView<T>
    decreases count,
{
    if count == 0 {
        ring
    } else {
        pop_many(ring, (count - 1) as nat).popped()
    }
}

/// A ring whose producer has gone gives each item that is left and then its end:
/// polled once more often than it has items, it has given all of them.
pub proof fn law_closed_rings_drain_then_end<T>(
    ring: RingView<T>,
    count: nat,
    waker: Waker,
    after: RingView<T>,
    outcome: Poll<Option<T>>,
)
    requires
        ring.closed,
        count <= ring.items.len(),
        pop_many(ring, count).polled(waker, after, outcome),
    ensures
        outcome == Poll::Ready(
            if count < ring.items.len() {
                Some(ring.items[count as int])
            } else {
                None
            },
        ),
        after == pop_many(ring, count + 1),
{
    lemma_pop_many(ring, count);
}

/// Taking items leaves the ones behind them.
proof fn lemma_pop_many<T>(ring: RingView<T>, count: nat)
    requires
        count <= ring.items.len(),
    ensures
        pop_many(ring, count) == (RingView { items: ring.items.skip(count as int), ..ring }),
    decreases count,
{
    if count > 0 {
        lemma_pop_many(ring, (count - 1) as nat);
    }
    assert(pop_many(ring, count).items =~= ring.items.skip(count as int));
}

/// A ring after these items have been pushed over the oldest ones.
pub open spec fn overwrite_all<T>(ring: RingView<T>, items: Seq<T>) -> RingView<T>
    decreases items.len(),
{
    if items.len() == 0 {
        ring
    } else {
        overwrite_all(ring, items.drop_last()).overwritten(items.last())
    }
}

/// Pushes over the oldest items leave the latest ones, as many as fit, in the
/// order in which they were pushed.
pub proof fn law_overwriting_keeps_the_latest<T>(ring: RingView<T>, items: Seq<T>)
    requires
        ring.wf(),
    ensures
        overwrite_all(ring, items).wf(),
        overwrite_all(ring, items).capacity == ring.capacity,
        overwrite_all(ring, items).items == stream_laws::latest(ring.items + items, ring.capacity),
    decreases items.len(),
{
    if items.len() == 0 {
        assert(ring.items + items =~= ring.items);
    } else {
        law_overwriting_keeps_the_latest(ring, items.drop_last());
        assert(overwrite_all(ring, items).items =~= stream_laws::latest(
            ring.items + items,
            ring.capacity,
        ));
    }
}

} // verus!
