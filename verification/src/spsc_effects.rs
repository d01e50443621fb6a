//! What each operation on a ring does to it and gives back, in terms of the
//! items, the waker and the flag that it finds.
use std::task::Waker;

use vstd::prelude::*;

use crate::poll::Poll;
use crate::ring_queue;
use crate::spsc::{PopNext, PopStep, PushStep, RingView};

verus! {

/// A ring has some room and holds no more than fits. Nothing more is asked of a
/// ring.
pub proof fn law_what_rings_keep<T>(ring: RingView<T>)
    ensures
        ring.wf() <==> ring.capacity >= 1 && ring.items.len() <= ring.capacity,
{
}

/// Taking an item gives the oldest one and leaves the others in their order; of
/// an empty ring it gives nothing. Everything else stays.
pub proof fn law_popping_gives_the_oldest<T>(ring: RingView<T>)
    ensures
        ring.popped() == (RingView { items: ring.popped().items, ..ring }),
        match ring.front() {
            Some(item) => seq![item] + ring.popped().items == ring.items,
            None => ring.items.len() == 0 && ring.popped().items.len() == 0,
        },
{
    if ring.items.len() > 0 {
        assert(seq![ring.items[0]] + ring.items.drop_first() =~= ring.items);
    }
}

/// A push is refused exactly where not one slot is left, and then changes
/// nothing. Else its item goes behind the others, the waiting consumer is called,
/// and everything else stays.
pub proof fn law_pushing_needs_a_slot<T>(ring: RingView<T>, item: T)
    requires
        ring.wf(),
    ensures
        ring.full() <==> ring.capacity - ring.items.len() == 0,
        ring.items.len() == ring.capacity ==> ring.pushed(item) == ring,
        ring.items.len() < ring.capacity ==> ring.pushed(item) == (RingView {
            items: ring.items + seq![item],
            parked: None,
            ..ring
        }),
{
    if ring.items.len() < ring.capacity {
        assert(ring.pushed(item).items =~= ring.items + seq![item]);
    }
}

/// A push over the oldest item always puts its item behind the others. It
/// displaces an item exactly where not one slot is left, and then the oldest one.
/// The waiting consumer is called, and everything else stays.
pub proof fn law_overwriting_displaces_only_for_room<T>(ring: RingView<T>, item: T)
    requires
        ring.wf(),
    ensures
        ring.overwritten(item) == (RingView {
            items: ring.overwritten(item).items,
            parked: None,
            ..ring
        }),
        if ring.items.len() < ring.capacity {
            ring.overwritten(item).items == ring.items + seq![item]
        } else {
            ring.front() matches Some(displaced) && seq![displaced] + ring.overwritten(item).items
                == ring.items + seq![item]
        },
{
    if ring.items.len() < ring.capacity {
        assert(ring.overwritten(item).items =~= ring.items + seq![item]);
    } else {
        assert(seq![ring.items[0]] + ring.overwritten(item).items =~= ring.items + seq![item]);
    }
}

/// The end of the producer is seen, whatever the ring held: the flag is set, the
/// waiting consumer is called, and every item stays.
pub proof fn law_end_of_the_producer_is_seen<T>(ring: RingView<T>)
    ensures
        ring.ended().closed,
        ring.ended().parked is None,
        ring.ended() == (RingView { closed: true, parked: None, ..ring }),
{
}

/// What a poll of a ring that nobody else uses may end with: the oldest item,
/// which it takes; the end, on an empty ring whose producer has gone; and only on
/// an empty ring whose producer is there nothing yet, and then a clone of the
/// given waker is left behind, or the one from before where that wakes the same
/// task.
pub proof fn law_ring_polls<T>(
    ring: RingView<T>,
    waker: Waker,
    after: RingView<T>,
    outcome: Poll<Option<T>>,
)
    requires
        ring.polled(waker, after, outcome),
    ensures
        match outcome {
            Poll::Ready(Some(item)) => {
                &&& ring.items == seq![item] + after.items
                &&& after == (RingView { items: after.items, ..ring })
            },
            Poll::Ready(None) => ring.items.len() == 0 && ring.closed && after == ring,
            Poll::Pending => {
                &&& ring.items.len() == 0 && !ring.closed
                &&& after == (RingView { parked: after.parked, ..ring })
                &&& after.parked matches Some(left) && (cloned(waker, left) || (ring.parked == Some(
                    left,
                ) && call_ensures(Waker::will_wake, (&left, &waker), true)))
            },
        },
{
    if ring.items.len() > 0 {
        assert(ring.items =~= seq![ring.items[0]] + ring.items.drop_first());
    }
}

/// After the end of the producer each item that is left comes out, and then the
/// end: of one poll more than there are items, the first ones give the items in
/// their order and the last one gives the end. A ring that was empty gives the
/// end at once.
pub proof fn law_ended_rings_drain_then_end<T>(
    ring: RingView<T>,
    count: int,
    waker: Waker,
    after: RingView<T>,
    outcome: Poll<Option<T>>,
)
    requires
        0 <= count <= ring.items.len(),
        (RingView { items: ring.items.skip(count), ..ring.ended() }).polled(waker, after, outcome),
    ensures
        count < ring.items.len() ==> outcome == Poll::Ready(Some(ring.items[count])) && after == (
        RingView { items: ring.items.skip(count + 1), ..ring.ended() }),
        count == ring.items.len() ==> outcome == Poll::Ready(None::<T>) && after == (RingView {
            items: ring.items.skip(count),
            ..ring.ended()
        }),
{
    assert(ring.items.skip(0) =~= ring.items);
    if count < ring.items.len() {
        assert(ring.items.skip(count).drop_first() =~= ring.items.skip(count + 1));
    }
}

/// The steps of a poll: it takes an item where there is one; it looks for the
/// producer only after it found none; it waits only after it has left its waker
/// behind and then found neither an item nor that the producer has gone; and it
/// tells the end only after it has found no item once it knew that the producer
/// has gone.
pub proof fn law_steps_of_a_poll<T>(item: T, step: PopStep)
    requires
        step is FirstPop || step is SecondPop || step is DrainPop,
    ensures
        step.popped(Some(item)) == PopNext::Finished(Poll::Ready(Some(item))),
        PopStep::FirstPop.popped(None::<T>) == PopNext::<T>::Continue(PopStep::FirstCheck),
        PopStep::FirstCheck.checked::<T>(true) == PopNext::<T>::Continue(PopStep::DrainPop),
        PopStep::FirstCheck.checked::<T>(false) == PopNext::<T>::Continue(PopStep::Register),
        PopStep::SecondPop.popped(None::<T>) == PopNext::<T>::Continue(PopStep::SecondCheck),
        PopStep::SecondCheck.checked::<T>(true) == PopNext::<T>::Continue(PopStep::DrainPop),
        PopStep::SecondCheck.checked::<T>(false) == PopNext::<T>::Finished(Poll::Pending),
        PopStep::DrainPop.popped(None::<T>) == PopNext::Finished(Poll::Ready(None::<T>)),
        step.pops() && !step.checks(),
        PopStep::FirstCheck.checks() && PopStep::SecondCheck.checks(),
        !PopStep::FirstCheck.pops() && !PopStep::SecondCheck.pops(),
        !PopStep::Register.pops() && !PopStep::Register.checks(),
{
}

/// The producer calls after every change that it has made to the ring, and only
/// then: a push that was refused made none.
pub proof fn law_producers_call_after_changes(accepted: bool)
    ensures
        PushStep::Push.following(accepted) is Some <==> accepted,
        PushStep::Push.following(true) == Some(PushStep::Call),
        PushStep::Overwrite.following(accepted) == Some(PushStep::Call),
        PushStep::End.following(accepted) == Some(PushStep::Call),
        PushStep::Call.following(accepted) is None,
{
}

/// A slot of a ring's buffer has room for an item and an eight-byte stamp, is
/// aligned for both, and is no larger than that takes; and a buffer can be had
/// exactly where all its slots together take no more than `isize::MAX` bytes.
pub proof fn law_slots_hold_an_item_and_a_stamp<T>(capacity: int)
    ensures
        ({
            let size = vstd::layout::size_of::<T>();
            let align = vstd::layout::align_of::<T>();
            let slot = ring_queue::slot_size::<T>();
            &&& size + 8 <= slot
            &&& align <= 8 ==> slot <= size + 15 && slot % 8 == 0
            &&& align > 8 && (size == 0 || size > 8) ==> slot == size + align
            &&& ring_queue::allocatable::<T>(capacity) <==> capacity * slot <= isize::MAX
        }),
{
}

} // verus!
