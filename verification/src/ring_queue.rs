//! The bounded queue of `crossbeam_queue` and the waker cell of `futures_util`,
//! as far as the library calls them.
//!
//! Both may be shared between threads. Here they are used by one caller at a
//! time, through an exclusive reference, which is where what they hold can be
//! said.
use std::task::Waker;

use crossbeam_queue::ArrayQueue;
use futures_util::task::AtomicWaker;
use vstd::prelude::*;

verus! {

/// `crossbeam_queue::ArrayQueue`, a bounded queue whose buffer is allocated when
/// it is made.
#[verifier::external_type_specification]
#[verifier::external_body]
#[verifier::reject_recursive_types(T)]
pub struct ExArrayQueue<T>(ArrayQueue<T>);

/// The bytes that a queue's buffer takes up for each item: a slot holds a 64-bit
/// stamp beside the item and is aligned for both. An item of one to eight bytes
/// cannot be aligned more strictly than the stamp.
pub open spec fn slot_size<T>() -> nat {
    let size = vstd::layout::size_of::<T>();
    let align = vstd::layout::align_of::<T>();
    if 0 < size <= 8 {
        16
    } else if align > 8 {
        size + align
    } else {
        (size + 7) / 8 * 8 + 8
    }
}

/// Whether there can be a buffer for this many items: no allocation is larger
/// than `isize::MAX` bytes.
pub open spec fn allocatable<T>(capacity: int) -> bool {
    capacity * slot_size::<T>() <= isize::MAX
}

/// Tells whether there can be a buffer for this many items.
pub fn can_allocate<T>(capacity: usize) -> (fits: bool)
    ensures
        fits == allocatable::<T>(capacity as int),
{
    let size: u128 = std::mem::size_of::<T>() as u128;
    let align: u128 = std::mem::align_of::<T>() as u128;
    let slot: u128 = if 0 < size && size <= 8 {
        16
    } else if align > 8 {
        size + align
    } else {
        (size + 7) / 8 * 8 + 8
    };
    assert(slot == slot_size::<T>());
    match (capacity as u128).checked_mul(slot) {
        Some(bytes) => bytes <= isize::MAX as u128,
        None => false,
    }
}

/// A queue of `crossbeam_queue`, with what it holds and the capacity that it was
/// made with as ghost values. Only the functions below, each of which calls the
/// queue, make and change one.
#[verifier::reject_recursive_types(T)]
pub struct RingQueue<T> {
    queue: ArrayQueue<T>,
    items: Ghost<Seq<T>>,
    capacity: Ghost<nat>,
}

impl<T> RingQueue<T> {
    /// The items in the queue, the oldest first.
    pub closed spec fn items(self) -> Seq<T> {
        self.items@
    }

    /// The most items that the queue may hold.
    pub closed spec fn capacity(self) -> nat {
        self.capacity@
    }

    /// Calls `ArrayQueue::new`, which makes an empty queue of this capacity. It
    /// panics on a capacity of zero and on one for which there can be no buffer.
    #[verifier::external_body]
    pub(crate) fn queue_new(capacity: usize) -> (queue: Self)
        requires
            capacity > 0,
            allocatable::<T>(capacity as int),
        ensures
            queue.items() == Seq::<T>::empty(),
            queue.capacity() == capacity,
    {
        RingQueue {
            queue: ArrayQueue::new(capacity),
            items: Ghost(Seq::empty()),
            capacity: Ghost(capacity as nat),
        }
    }

    /// Calls `ArrayQueue::push`, which puts an item behind the others, or gives
    /// it back where the queue is full.
    #[verifier::external_body]
    pub(crate) fn queue_push(&mut self, item: T) -> (pushed: Result<(), T>)
        ensures
            final(self).capacity() == old(self).capacity(),
            if old(self).items().len() < old(self).capacity() {
                pushed == Ok::<(), T>(()) && final(self).items() == old(self).items().push(item)
            } else {
                pushed == Err::<(), T>(item) && final(self).items() == old(self).items()
            },
    {
        self.queue.push(item)
    }

    /// Calls `ArrayQueue::force_push`, which puts an item behind the others.
    /// Where the queue is full, the oldest item makes room and comes out.
    #[verifier::external_body]
    pub(crate) fn queue_force_push(&mut self, item: T) -> (displaced: Option<T>)
        ensures
            final(self).capacity() == old(self).capacity(),
            old(self).items().len() < old(self).capacity() ==> displaced is None
                && final(self).items() == old(self).items().push(item),
            0 < old(self).capacity() <= old(self).items().len() ==> displaced == Some(
                old(self).items()[0],
            ) && final(self).items() == old(self).items().drop_first().push(item),
    {
        self.queue.force_push(item)
    }

    /// Calls `ArrayQueue::pop`, which takes the oldest item out, if there is one.
    #[verifier::external_body]
    pub(crate) fn queue_pop(&mut self) -> (item: Option<T>)
        ensures
            final(self).capacity() == old(self).capacity(),
            if old(self).items().len() == 0 {
                item is None && final(self).items() == old(self).items()
            } else {
                item == Some(old(self).items()[0])
                    && final(self).items() == old(self).items().drop_first()
            },
    {
        self.queue.pop()
    }

    /// Calls `ArrayQueue::len`, which counts the items.
    #[verifier::external_body]
    pub(crate) fn queue_len(&self) -> (count: usize)
        ensures
            count == self.items().len(),
    {
        self.queue.len()
    }

    /// Calls `ArrayQueue::capacity`, which gives the capacity that the queue was
    /// made with.
    #[verifier::external_body]
    pub(crate) fn queue_capacity(&self) -> (capacity: usize)
        ensures
            capacity == self.capacity(),
    {
        self.queue.capacity()
    }
}

/// `futures_util::task::AtomicWaker`, a cell for at most one waker.
#[verifier::external_type_specification]
#[verifier::external_body]
pub struct ExAtomicWaker(AtomicWaker);

/// The waker in a cell.
pub uninterp spec fn parked(cell: AtomicWaker) -> Option<Waker>;

/// Whether a cell that holds `before` may hold `after` once `waker` has been
/// registered with it: a clone of `waker`, or what it held, where
/// `Waker::will_wake` says that this wakes the same task.
pub open spec fn parks(before: Option<Waker>, waker: Waker, after: Option<Waker>) -> bool {
    after matches Some(copy) && (cloned(waker, copy) || (after == before && call_ensures(
        Waker::will_wake,
        (&copy, &waker),
        true,
    )))
}

/// Calls `AtomicWaker::new`, which makes an empty cell.
#[verifier::external_body]
pub(crate) fn cell_new() -> (cell: AtomicWaker)
    ensures
        parked(cell) is None,
{
    AtomicWaker::new()
}

/// Calls `AtomicWaker::register`, which puts a clone of a waker into the cell,
/// or keeps the waker that is there where that wakes the same task.
#[verifier::external_body]
pub(crate) fn cell_register(cell: &mut AtomicWaker, waker: &Waker)
    ensures
        parks(parked(*old(cell)), *waker, parked(*final(cell))),
{
    cell.register(waker)
}

/// Calls `AtomicWaker::take`, which empties the cell.
#[verifier::external_body]
pub(crate) fn cell_take(cell: &mut AtomicWaker) -> (waker: Option<Waker>)
    ensures
        waker == parked(*old(cell)),
        parked(*final(cell)) is None,
{
    cell.take()
}

} // verus!
