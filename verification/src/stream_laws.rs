//! What holds of streams over more than one operation.
use std::task::Waker;

use vstd::prelude::*;

use crate::poll::Poll;
use crate::stream;
use crate::stream_effects;
use crate::stream::{CapacitySignal, StreamView};

verus! {

/// Any operation on a stream, with what it is given.
pub enum StreamOp<T> {
    /// `AsyncStreamSender::push`.
    Push(T),
    /// `AsyncStreamSender::push_or_block`.
    PushOrBlock(T),
    /// `BoundedAsyncStream::try_next`.
    TryNext,
    /// `BoundedAsyncStream::clear_buffer`.
    ClearBuffer,
    /// `BoundedAsyncStream::poll_next_item_with`, by a waiter with this
    /// number.
    Poll(Option<u64>, bool, Waker),
    /// `NextItem::cancel`, of a request with this waiter number.
    Cancel(Option<u64>),
    /// `AsyncStreamSender::clone`.
    AddSender,
    /// `AsyncStreamSender::close`.
    RemoveSender,
    /// `BoundedAsyncStream::close_consumer`.
    CloseConsumer,
}

impl<T> StreamOp<T> {
    /// Whether the operation may be called on this stream.
    pub open spec fn enabled(self, stream: StreamView<T>) -> bool {
        match self {
            StreamOp::AddSender => 0 < stream.sender_count < usize::MAX,
            StreamOp::RemoveSender => stream.sender_count > 0,
            _ => true,
        }
    }

    /// The stream after the operation.
    pub open spec fn after(self, stream: StreamView<T>) -> StreamView<T> {
        match self {
            StreamOp::Push(item) => stream.pushed(item),
            StreamOp::PushOrBlock(item) => if stream.must_wait() || stream.consumer_gone {
                stream
            } else {
                stream.appended(item)
            },
            StreamOp::TryNext => stream.popped(),
            StreamOp::ClearBuffer => stream.cleared(),
            StreamOp::Poll(waiter, same, waker) => stream.poll(waiter, same, waker).0,
            StreamOp::Cancel(waiter) => stream.waiter_removed(waiter),
            StreamOp::AddSender => stream.sender_added(),
            StreamOp::RemoveSender => stream.sender_removed(),
            StreamOp::CloseConsumer => stream.consumer_removed(),
        }
    }

    /// What the producers that wait for room are told.
    pub open spec fn signal(self, stream: StreamView<T>) -> CapacitySignal {
        match self {
            StreamOp::TryNext => if stream.front() is Some {
                CapacitySignal::NotifyOne
            } else {
                CapacitySignal::Silent
            },
            StreamOp::Poll(waiter, same, waker) => stream.poll(waiter, same, waker).2.signal,
            StreamOp::ClearBuffer | StreamOp::CloseConsumer => CapacitySignal::NotifyAll,
            _ => CapacitySignal::Silent,
        }
    }

    /// The wakers that are handed out to be woken.
    pub open spec fn woken(self, stream: StreamView<T>) -> Seq<(u64, Waker)> {
        match self {
            StreamOp::Push(_) => stream.waiters,
            StreamOp::PushOrBlock(_) => if stream.must_wait() || stream.consumer_gone {
                Seq::empty()
            } else {
                stream.waiters
            },
            StreamOp::RemoveSender => if stream.sender_count == 1 {
                stream.waiters
            } else {
                Seq::empty()
            },
            _ => Seq::empty(),
        }
    }

    /// The item that goes into the buffer.
    pub open spec fn put(self, stream: StreamView<T>) -> Option<T> {
        match self {
            StreamOp::Push(item) => Some(item),
            StreamOp::PushOrBlock(item) => if stream.must_wait() || stream.consumer_gone {
                None
            } else {
                Some(item)
            },
            _ => None,
        }
    }

    /// The item that the consumer gets.
    pub open spec fn given(self, stream: StreamView<T>) -> Option<T> {
        match self {
            StreamOp::TryNext => stream.front(),
            StreamOp::Poll(waiter, same, waker) => match stream.poll(waiter, same, waker).2.result {
                Poll::Ready(item) => item,
                Poll::Pending => None,
            },
            _ => None,
        }
    }

    /// The items that are dropped, the oldest first.
    pub open spec fn dropped(self, stream: StreamView<T>) -> Seq<T> {
        match self {
            StreamOp::Push(_) => at_most_one(stream.overwritten()),
            StreamOp::ClearBuffer => stream.buffer,
            _ => Seq::empty(),
        }
    }

    /// Whether the operation is one by which the waiter with this number itself
    /// goes on or gives up.
    pub open spec fn is_by(self, id: u64) -> bool {
        match self {
            StreamOp::Poll(waiter, _, _) | StreamOp::Cancel(waiter) => waiter == Some(id),
            StreamOp::CloseConsumer => true,
            _ => false,
        }
    }
}

/// The item, if there is one, as a sequence.
pub open spec fn at_most_one<T>(item: Option<T>) -> Seq<T> {
    match item {
        Some(item) => seq![item],
        None => Seq::empty(),
    }
}

/// Every operation keeps the buffer within the capacity, the stream closed
/// exactly while it has no sender, the waiter numbers different, and consumers
/// waiting only while there is nothing for them.
pub proof fn law_operations_keep_streams_well_formed<T>(stream: StreamView<T>, op: StreamOp<T>)
    requires
        stream.wf(),
        op.enabled(stream),
    ensures
        op.after(stream).wf(),
        op.after(stream).capacity == stream.capacity,
        op.after(stream).id == stream.id,
{
    match op {
        StreamOp::Poll(waiter, same, waker) => {
            stream::lemma_removed(stream.waiters, waiter);
            stream::lemma_entered(stream.waiters, stream.number_of(waiter), same, waker);
        },
        StreamOp::Cancel(waiter) => {
            stream::lemma_removed(stream.waiters, waiter);
        },
        _ => {},
    }
}

/// A stream that is closed stays closed, and a consumer that has gone stays
/// gone.
pub proof fn law_closing_is_final<T>(stream: StreamView<T>, op: StreamOp<T>)
    requires
        stream.wf(),
        op.enabled(stream),
    ensures
        stream.closed ==> op.after(stream).closed,
        stream.consumer_gone ==> op.after(stream).consumer_gone,
{
}

/// No waiting consumer is forgotten: as long as it does not itself go on or
/// give up, each operation either leaves its waker in place or hands the waker
/// out to be woken.
pub proof fn law_waiting_consumers_are_kept_or_woken<T>(
    stream: StreamView<T>,
    op: StreamOp<T>,
    id: u64,
)
    requires
        stream.wf(),
        op.enabled(stream),
        stream::registered(stream.waiters, id),
        !op.is_by(id),
        op matches StreamOp::Poll(None, _, _) ==> stream.next_waiter != id,
    ensures
        ({
            let kept = stream::registered(op.after(stream).waiters, id) && stream::waker_of(
                op.after(stream).waiters,
                Some(id),
            ) == stream::waker_of(stream.waiters, Some(id));
            let woken = stream::registered(op.woken(stream), id) && stream::waker_of(op.woken(stream), Some(id))
                == stream::waker_of(stream.waiters, Some(id));
            kept || woken
        }),
{
    match op {
        StreamOp::Poll(waiter, same, waker) => {
            lemma_others_keep_their_wakers(stream.waiters, waiter, id);
            stream::lemma_entered(stream.waiters, stream.number_of(waiter), same, waker);
            let after = stream::entered(stream.waiters, stream.number_of(waiter), same, waker);
            let at = stream::position(stream.waiters, id);
            assert(after[at] == stream.waiters[at]);
            assert(stream::position(after, id) == at);
        },
        StreamOp::Cancel(waiter) => {
            lemma_others_keep_their_wakers(stream.waiters, waiter, id);
        },
        _ => {},
    }
}

/// Whoever takes an entry out leaves the wakers of the others alone.
proof fn lemma_others_keep_their_wakers(
    waiters: Seq<(u64, Waker)>,
    waiter: Option<u64>,
    id: u64,
)
    requires
        stream::distinct(waiters),
        stream::registered(waiters, id),
        waiter != Some(id),
    ensures
        stream::registered(stream::removed(waiters, waiter), id),
        stream::waker_of(stream::removed(waiters, waiter), Some(id)) == stream::waker_of(waiters, Some(id)),
{
    stream::lemma_removed(waiters, waiter);
    let rest = stream::removed(waiters, waiter);
    let at = stream::position(waiters, id);
    if let Some(gone) = waiter {
        if stream::registered(waiters, gone) {
            let hole = stream::position(waiters, gone);
            if at == waiters.len() - 1 {
                assert(rest[hole] == waiters[at]);
                assert(stream::position(rest, id) == hole);
            } else {
                assert(rest[at] == waiters[at]);
                assert(stream::position(rest, id) == at);
            }
        }
    }
}

/// Every push, and the end of the last sender, hands out every waker that was
/// left behind, and leaves none.
pub proof fn law_news_wakes_every_waiting_consumer<T>(stream: StreamView<T>, item: T)
    requires
        stream.wf(),
    ensures
        StreamOp::Push(item).woken(stream) == stream.waiters,
        StreamOp::Push(item).after(stream).waiters.len() == 0,
        !stream.must_wait() && !stream.consumer_gone ==> {
            &&& StreamOp::PushOrBlock(item).woken(stream) == stream.waiters
            &&& StreamOp::PushOrBlock(item).after(stream).waiters.len() == 0
        },
        stream.sender_count == 1 ==> {
            &&& StreamOp::<T>::RemoveSender.woken(stream) == stream.waiters
            &&& StreamOp::<T>::RemoveSender.after(stream).waiters.len() == 0
            &&& StreamOp::<T>::RemoveSender.after(stream).closed
        },
{
}

/// No producer waits for room that is there: an operation after which producers
/// need not wait any more tells them so. Every slot that comes free is told to a
/// producer, and the end of the consumer to all of them.
pub proof fn law_room_is_signalled<T>(stream: StreamView<T>, op: StreamOp<T>)
    requires
        stream.wf(),
        op.enabled(stream),
    ensures
        stream.must_wait() && !op.after(stream).must_wait() ==> op.signal(stream)
            != CapacitySignal::Silent,
        op.after(stream).buffer.len() < stream.buffer.len() ==> op.signal(stream)
            != CapacitySignal::Silent,
        op.after(stream).buffer.len() + 1 < stream.buffer.len() ==> op.signal(stream)
            == CapacitySignal::NotifyAll,
        !stream.consumer_gone && op.after(stream).consumer_gone ==> op.signal(stream)
            == CapacitySignal::NotifyAll,
{
}

/// A poll gives the oldest item while there is one, else the end of the stream
/// if it is closed, and is pending only on an empty, open stream. There the waker
/// that is left behind is the one that was given, unless the one from before
/// wakes the same task.
pub proof fn law_poll_outcome<T>(
    stream: StreamView<T>,
    waiter: Option<u64>,
    same: bool,
    waker: Waker,
)
    requires
        stream.wf(),
    ensures
        ({
            let (after, number, polled) = stream.poll(waiter, same, waker);
            match polled.result {
                Poll::Ready(Some(item)) => stream.buffer.len() > 0 && item == stream.buffer[0],
                Poll::Ready(None) => stream.buffer.len() == 0 && stream.closed,
                Poll::Pending => {
                    &&& stream.buffer.len() == 0 && !stream.closed
                    &&& number == Some(stream.number_of(waiter))
                    &&& stream::waker_of(after.waiters, number) == if same && stream::registered(
                        stream.waiters,
                        stream.number_of(waiter),
                    ) {
                        stream::waker_of(stream.waiters, number)
                    } else {
                        Some(waker)
                    }
                },
            }
        }),
{
    let id = stream.number_of(waiter);
    let entries = stream::entered(stream.waiters, id, same, waker);
    stream::lemma_entered(stream.waiters, id, same, waker);
    if !stream::registered(stream.waiters, id) {
        assert(entries[stream.waiters.len() as int].0 == id);
    } else {
        assert(entries[stream::position(stream.waiters, id)].0 == id);
    }
}

/// A consumer that is told to wait is woken itself: the waker that a pending poll
/// leaves behind is a clone of the polling task's own, or one that wakes the same
/// task, provided that what was given to be left behind is such a clone.
pub proof fn law_waiting_consumer_leaves_its_own_waker<T>(
    stream: StreamView<T>,
    waiter: Option<u64>,
    current: Waker,
    same: bool,
    next_waker: Waker,
)
    requires
        stream.wf(),
        stream.answered(waiter, current, same),
        cloned(current, next_waker),
        stream.poll(waiter, same, next_waker).2.result is Pending,
    ensures
        ({
            let (after, number, _) = stream.poll(waiter, same, next_waker);
            &&& number == Some(stream.number_of(waiter))
            &&& stream::waker_of(after.waiters, number) matches Some(left) && (cloned(current, left)
                || call_ensures(Waker::will_wake, (&left, &current), true))
        }),
{
    law_poll_outcome(stream, waiter, same, next_waker);
}

/// A request that is over, or dropped, has no waker left behind.
pub proof fn law_finished_requests_leave_no_waker<T>(
    stream: StreamView<T>,
    id: u64,
    same: bool,
    waker: Waker,
)
    requires
        stream.wf(),
    ensures
        !stream::registered(stream.waiter_removed(Some(id)).waiters, id),
        stream.poll(Some(id), same, waker).2.result is Ready ==> !stream::registered(
            stream.poll(Some(id), same, waker).0.waiters,
            id,
        ),
{
    stream::lemma_removed(stream.waiters, Some(id));
}

/// Polling again with the same number leaves one waker behind, not two: the
/// number of entries does not grow.
pub proof fn law_polling_again_keeps_one_registration<T>(
    stream: StreamView<T>,
    id: u64,
    same: bool,
    waker: Waker,
)
    requires
        stream.wf(),
        stream::registered(stream.waiters, id),
    ensures
        stream.poll(Some(id), same, waker).0.waiters.len() <= stream.waiters.len(),
{
}

/// The last items of a sequence, at most `n` of them.
pub open spec fn latest<T>(items: Seq<T>, n: nat) -> Seq<T> {
    if items.len() <= n {
        items
    } else {
        items.skip(items.len() - n)
    }
}

/// The stream after these items have been pushed, one after the other.
pub open spec fn push_all<T>(stream: StreamView<T>, items: Seq<T>) -> StreamView<T>
    decreases items.len(),
{
    if items.len() == 0 {
        stream
    } else {
        push_all(stream, items.drop_last()).pushed(items.last())
    }
}

/// However far the consumer lags behind, it finds the latest items, in the
/// order in which they were pushed: the buffer holds the last items of all that
/// were there and were pushed, as many as fit.
pub proof fn law_lossy_pushes_keep_the_latest<T>(stream: StreamView<T>, items: Seq<T>)
    requires
        stream.wf(),
    ensures
        push_all(stream, items).wf(),
        push_all(stream, items).capacity == stream.capacity,
        push_all(stream, items).buffer == latest(stream.buffer + items, stream.capacity),
    decreases items.len(),
{
    if items.len() == 0 {
        assert(stream.buffer + items =~= stream.buffer);
    } else {
        let before = items.drop_last();
        law_lossy_pushes_keep_the_latest(stream, before);
        law_operations_keep_streams_well_formed(
            push_all(stream, before),
            StreamOp::Push(items.last()),
        );
        assert(push_all(stream, items).buffer =~= latest(stream.buffer + items, stream.capacity));
    }
}

/// The stream after this many items have been taken.
pub open spec fn take_many<T>(stream: StreamView<T>, count: nat) -> StreamView<T>
    decreases count,
{
    if count == 0 {
        stream
    } else {
        take_many(stream, (count - 1) as nat).popped()
    }
}

/// Items are taken in the order in which they are in the buffer.
pub proof fn law_items_are_taken_in_order<T>(stream: StreamView<T>, count: nat)
    requires
        count <= stream.buffer.len(),
    ensures
        take_many(stream, count).buffer == stream.buffer.skip(count as int),
        count < stream.buffer.len() ==> take_many(stream, count).front() == Some(
            stream.buffer[count as int],
        ),
    decreases count,
{
    if count == 0 {
        assert(stream.buffer.skip(0) =~= stream.buffer);
    } else {
        law_items_are_taken_in_order(stream, (count - 1) as nat);
        assert(take_many(stream, count).buffer =~= stream.buffer.skip(count as int));
    }
}

/// What a run of operations comes to.
pub struct StreamRun<T> {
    /// The stream afterwards.
    pub stream: StreamView<T>,
    /// The items that were put into the buffer, in this order.
    pub put: Seq<T>,
    /// The items that the consumer got, in this order.
    pub given: Seq<T>,
    /// The items that left the buffer, given or dropped, in this order.
    pub left: Seq<T>,
}

/// A run of operations, one after the other.
pub open spec fn run<T>(stream: StreamView<T>, ops: Seq<StreamOp<T>>) -> StreamRun<T>
    decreases ops.len(),
{
    if ops.len() == 0 {
        StreamRun { stream, put: Seq::empty(), given: Seq::empty(), left: Seq::empty() }
    } else {
        let before = run(stream, ops.drop_last());
        let op = ops.last();
        let given = at_most_one(op.given(before.stream));
        StreamRun {
            stream: op.after(before.stream),
            put: before.put + at_most_one(op.put(before.stream)),
            given: before.given + given,
            left: before.left + given + op.dropped(before.stream),
        }
    }
}

/// Whether each operation of a run may be called where it stands.
pub open spec fn runnable<T>(stream: StreamView<T>, ops: Seq<StreamOp<T>>) -> bool
    decreases ops.len(),
{
    ops.len() == 0 || (runnable(stream, ops.drop_last()) && ops.last().enabled(
        run(stream, ops.drop_last()).stream,
    ))
}

/// How many senders a run of operations adds.
pub open spec fn added<T>(ops: Seq<StreamOp<T>>) -> nat
    decreases ops.len(),
{
    if ops.len() == 0 {
        0
    } else {
        added(ops.drop_last()) + if ops.last() is AddSender {
            1nat
        } else {
            0
        }
    }
}

/// How many senders a run of operations gives back.
pub open spec fn given_back<T>(ops: Seq<StreamOp<T>>) -> nat
    decreases ops.len(),
{
    if ops.len() == 0 {
        0
    } else {
        given_back(ops.drop_last()) + if ops.last() is RemoveSender {
            1nat
        } else {
            0
        }
    }
}

/// Whatever is done, a stream is closed exactly when as many senders have been
/// given back as there were and were added. It stays the same stream, of the same
/// capacity.
pub proof fn law_last_sender_closes_the_stream<T>(stream: StreamView<T>, ops: Seq<StreamOp<T>>)
    requires
        stream.wf(),
        runnable(stream, ops),
    ensures
        run(stream, ops).stream.wf(),
        run(stream, ops).stream.sender_count + given_back(ops) == stream.sender_count + added(ops),
        run(stream, ops).stream.closed == (given_back(ops) == stream.sender_count + added(ops)),
        run(stream, ops).stream.capacity == stream.capacity,
        run(stream, ops).stream.id == stream.id,
    decreases ops.len(),
{
    if ops.len() > 0 {
        law_last_sender_closes_the_stream(stream, ops.drop_last());
        law_operations_keep_streams_well_formed(run(stream, ops.drop_last()).stream, ops.last());
    }
}

/// One operation puts its item behind the others and takes what leaves from the
/// front.
proof fn lemma_items_of_one_operation<T>(stream: StreamView<T>, op: StreamOp<T>)
    requires
        stream.wf(),
    ensures
        stream.buffer + at_most_one(op.put(stream)) == at_most_one(op.given(stream)) + op.dropped(
            stream,
        ) + op.after(stream).buffer,
{
    let put = at_most_one(op.put(stream));
    let gone = at_most_one(op.given(stream)) + op.dropped(stream);
    assert(stream.buffer + put =~= gone + op.after(stream).buffer);
}

/// Whatever is done, items leave the buffer in the order in which they came into
/// it, each of them once, and the others are still there.
pub proof fn law_items_leave_in_order<T>(stream: StreamView<T>, ops: Seq<StreamOp<T>>)
    requires
        stream.wf(),
        runnable(stream, ops),
    ensures
        run(stream, ops).stream.wf(),
        stream.buffer + run(stream, ops).put == run(stream, ops).left + run(
            stream,
            ops,
        ).stream.buffer,
    decreases ops.len(),
{
    if ops.len() == 0 {
        assert(stream.buffer + Seq::<T>::empty() =~= Seq::<T>::empty() + stream.buffer);
    } else {
        law_items_leave_in_order(stream, ops.drop_last());
        let before = run(stream, ops.drop_last());
        let after = run(stream, ops);
        let op = ops.last();
        let put = at_most_one(op.put(before.stream));
        let gone = at_most_one(op.given(before.stream)) + op.dropped(before.stream);
        law_operations_keep_streams_well_formed(before.stream, op);
        lemma_items_of_one_operation(before.stream, op);
        assert(after.left =~= before.left + gone);
        assert(stream.buffer + after.put =~= (stream.buffer + before.put) + put);
        assert((before.left + before.stream.buffer) + put =~= before.left + (before.stream.buffer
            + put));
        assert(before.left + (gone + after.stream.buffer) =~= after.left + after.stream.buffer);
    }
}

/// Without pushes over the oldest item, and as long as the buffer is not
/// emptied, nothing is lost: every item that was put into the buffer is given to
/// the consumer or still there, once, in the order in which it was put in.
pub proof fn law_blocking_pushes_lose_nothing<T>(stream: StreamView<T>, ops: Seq<StreamOp<T>>)
    requires
        stream.wf(),
        runnable(stream, ops),
        forall|i: int|
            0 <= i < ops.len() ==> !(#[trigger] ops[i] is Push) && !(ops[i] is ClearBuffer),
    ensures
        run(stream, ops).stream.wf(),
        stream.buffer + run(stream, ops).put == run(stream, ops).given + run(
            stream,
            ops,
        ).stream.buffer,
{
    law_items_leave_in_order(stream, ops);
    lemma_lossless_runs_give_what_leaves(stream, ops);
}

/// In a run that drops nothing, what leaves the buffer is given to the consumer.
proof fn lemma_lossless_runs_give_what_leaves<T>(stream: StreamView<T>, ops: Seq<StreamOp<T>>)
    requires
        forall|i: int|
            0 <= i < ops.len() ==> !(#[trigger] ops[i] is Push) && !(ops[i] is ClearBuffer),
    ensures
        run(stream, ops).left == run(stream, ops).given,
    decreases ops.len(),
{
    if ops.len() > 0 {
        let shorter = ops.drop_last();
        assert forall|i: int| 0 <= i < shorter.len() implies !(#[trigger] shorter[i] is Push) && !(
        shorter[i] is ClearBuffer) by {
            assert(shorter[i] == ops[i]);
        }
        lemma_lossless_runs_give_what_leaves(stream, shorter);
        assert(run(stream, ops).left =~= run(stream, ops).given);
    }
}

/// A closed stream gives each item that is left and then its end, and nothing
/// else: polled once more often than it has items, it has given all of them.
pub proof fn law_closed_streams_drain_then_end<T>(
    stream: StreamView<T>,
    count: nat,
    waiter: Option<u64>,
    same: bool,
    waker: Waker,
)
    requires
        stream.wf(),
        stream.closed,
        count <= stream.buffer.len(),
    ensures
        stream.poll(waiter, same, waker).0 == stream.popped(),
        take_many(stream, count).closed,
        take_many(stream, count).poll(waiter, same, waker).2.result == Poll::Ready(
            if count < stream.buffer.len() {
                Some(stream.buffer[count as int])
            } else {
                None
            },
        ),
    decreases count,
{
    law_items_are_taken_in_order(stream, count);
    assert(stream::removed(stream.waiters, waiter) =~= stream.waiters);
    if count > 0 {
        law_closed_streams_drain_then_end(stream, (count - 1) as nat, waiter, same, waker);
    }
}

/// The numbers that requests without one get in a run of operations, in this
/// order.
pub open spec fn numbers_given<T>(stream: StreamView<T>, ops: Seq<StreamOp<T>>) -> Seq<u64>
    decreases ops.len(),
{
    if ops.len() == 0 {
        Seq::empty()
    } else {
        let before = numbers_given(stream, ops.drop_last());
        match ops.last() {
            StreamOp::Poll(None, same, waker) => match run(stream, ops.drop_last()).stream.poll(
                None,
                same,
                waker,
            ).1 {
                Some(number) => before.push(number),
                None => before,
            },
            _ => before,
        }
    }
}

/// Whether every poll of a run that comes with a number comes with one that a
/// request got earlier in the run, or with zero, as polls of the stream itself
/// do.
pub open spec fn numbers_are_own<T>(stream: StreamView<T>, ops: Seq<StreamOp<T>>) -> bool
    decreases ops.len(),
{
    ops.len() == 0 || {
        &&& numbers_are_own(stream, ops.drop_last())
        &&& ops.last() matches StreamOp::Poll(Some(id), _, _) ==> id == 0 || numbers_given(
            stream,
            ops.drop_last(),
        ).contains(id)
    }
}

/// Whether a stream is as it was made: nobody has waited yet.
pub open spec fn untouched<T>(stream: StreamView<T>) -> bool {
    stream.wf() && stream.waiters.len() == 0 && stream.next_waiter == 1
}

/// From a new stream on, the requests that have to wait get the numbers one, two,
/// three and so on, so no two of them the same; and only they, and polls of the
/// stream itself, have wakers left behind.
pub proof fn law_requests_get_different_numbers<T>(stream: StreamView<T>, ops: Seq<StreamOp<T>>)
    requires
        untouched(stream),
        runnable(stream, ops),
        numbers_are_own(stream, ops),
        numbers_given(stream, ops).len() <= u64::MAX,
    ensures
        run(stream, ops).stream.wf(),
        forall|i: int|
            0 <= i < numbers_given(stream, ops).len() ==> #[trigger] numbers_given(stream, ops)[i]
                == i + 1,
        forall|i: int, j: int|
            0 <= i < j < numbers_given(stream, ops).len() ==> #[trigger] numbers_given(
                stream,
                ops,
            )[i] != #[trigger] numbers_given(stream, ops)[j],
        forall|i: int|
            0 <= i < run(stream, ops).stream.waiters.len() ==> {
                let id = (#[trigger] run(stream, ops).stream.waiters[i]).0;
                id == 0 || numbers_given(stream, ops).contains(id)
            },
        numbers_given(stream, ops).len() < u64::MAX ==> run(stream, ops).stream.next_waiter
            == numbers_given(stream, ops).len() + 1,
    decreases ops.len(),
{
    if ops.len() > 0 {
        let shorter = ops.drop_last();
        let op = ops.last();
        law_requests_get_different_numbers(stream, shorter);
        let before = run(stream, shorter).stream;
        let after = run(stream, ops).stream;
        let old_numbers = numbers_given(stream, shorter);
        let numbers = numbers_given(stream, ops);
        law_operations_keep_streams_well_formed(before, op);
        assert forall|id: u64| old_numbers.contains(id) implies numbers.contains(id) by {
            let k = choose|k: int| 0 <= k < old_numbers.len() && old_numbers[k] == id;
            assert(numbers[k] == id);
        }
        assert forall|i: int| 0 <= i < after.waiters.len() implies ({
            let id = (#[trigger] after.waiters[i]).0;
            id == 0 || numbers.contains(id)
        }) by {
            let id = after.waiters[i].0;
            assert(stream::registered(after.waiters, id));
            match op {
                StreamOp::Poll(waiter, same, waker) => {
                    stream::lemma_removed(before.waiters, waiter);
                    stream::lemma_entered(before.waiters, before.number_of(waiter), same, waker);
                    if stream::registered(before.waiters, id) {
                        let k = stream::position(before.waiters, id);
                        assert(before.waiters[k].0 == id);
                    } else {
                        assert(id == before.number_of(waiter));
                        if waiter is None {
                            assert(numbers.last() == id);
                        }
                    }
                },
                StreamOp::Cancel(waiter) => {
                    stream::lemma_removed(before.waiters, waiter);
                    let k = stream::position(before.waiters, id);
                    assert(stream::registered(before.waiters, id));
                    assert(before.waiters[k].0 == id);
                },
                _ => {
                    assert(before.waiters[i].0 == id);
                },
            }
        }
    }
}

/// From a new stream on, a request that has to wait for the first time gets a
/// number that no request has got before, and adds one entry, with its own waker,
/// behind all those that are there.
pub proof fn law_first_wait_adds_an_entry<T>(
    stream: StreamView<T>,
    ops: Seq<StreamOp<T>>,
    same: bool,
    waker: Waker,
)
    requires
        untouched(stream),
        runnable(stream, ops),
        numbers_are_own(stream, ops),
        numbers_given(stream, ops).len() < u64::MAX,
        run(stream, ops).stream.buffer.len() == 0,
        run(stream, ops).stream.sender_count > 0,
    ensures
        ({
            let now = run(stream, ops).stream;
            let (after, number, polled) = now.poll(None, same, waker);
            &&& polled.result is Pending
            &&& polled.released is None
            &&& number matches Some(id) && id != 0 && !numbers_given(stream, ops).contains(id)
                && after.waiters == now.waiters + seq![(id, waker)]
        }),
{
    law_requests_get_different_numbers(stream, ops);
    let now = run(stream, ops).stream;
    let numbers = numbers_given(stream, ops);
    assert forall|i: int| 0 <= i < now.waiters.len() implies (#[trigger] now.waiters[i]).0
        != now.next_waiter by {
        let id = now.waiters[i].0;
        if id != 0 {
            let k = choose|k: int| 0 <= k < numbers.len() && numbers[k] == id;
            assert(numbers[k] == k + 1);
        }
    }
    stream_effects::law_first_wait(now, None, same, waker);
}

/// From a new stream on, no waiting consumer is ever forgotten: as long as it
/// does not itself poll or give up, and the consumer's end does not come, each
/// operation leaves its waker in place or hands it out to be woken.
pub proof fn law_no_waiting_consumer_is_forgotten<T>(
    stream: StreamView<T>,
    ops: Seq<StreamOp<T>>,
    op: StreamOp<T>,
    at: int,
)
    requires
        untouched(stream),
        runnable(stream, ops),
        numbers_are_own(stream, ops),
        numbers_given(stream, ops).len() < u64::MAX,
        op.enabled(run(stream, ops).stream),
        0 <= at < run(stream, ops).stream.waiters.len(),
        ({
            let own = Some(run(stream, ops).stream.waiters[at].0);
            match op {
                StreamOp::Poll(waiter, _, _) | StreamOp::Cancel(waiter) => waiter != own,
                StreamOp::CloseConsumer => false,
                _ => true,
            }
        }),
    ensures
        ({
            let now = run(stream, ops).stream;
            op.after(now).waiters.contains(now.waiters[at]) || op.woken(now).contains(
                now.waiters[at],
            )
        }),
{
    law_requests_get_different_numbers(stream, ops);
    let now = run(stream, ops).stream;
    let numbers = numbers_given(stream, ops);
    let entry = now.waiters[at];
    let id = entry.0;
    let after = op.after(now).waiters;
    if id != 0 {
        let k = choose|k: int| 0 <= k < numbers.len() && numbers[k] == id;
        assert(numbers[k] == k + 1);
    }
    assert(stream::registered(now.waiters, id));
    assert(stream::position(now.waiters, id) == at);
    law_waiting_consumers_are_kept_or_woken(now, op, id);
    if stream::registered(after, id) {
        let k = stream::position(after, id);
        if after[k] == entry {
            assert(after.contains(entry));
        }
    }
    if stream::registered(op.woken(now), id) {
        let k = stream::position(op.woken(now), id);
        if op.woken(now)[k] == entry {
            assert(op.woken(now).contains(entry));
        }
    }
}

/// After the end of the consumer, and whatever is done then, every push with
/// back-pressure gives its item back and none has to wait.
pub proof fn law_nobody_waits_for_a_consumer_that_has_gone<T>(
    stream: StreamView<T>,
    ops: Seq<StreamOp<T>>,
    item: T,
)
    requires
        stream.wf(),
        runnable(stream.consumer_removed(), ops),
    ensures
        ({
            let now = run(stream.consumer_removed(), ops).stream;
            &&& now.consumer_gone
            &&& !now.must_wait()
            &&& StreamOp::PushOrBlock(item).after(now) == now
            &&& StreamOp::PushOrBlock(item).put(now) is None
        }),
    decreases ops.len(),
{
    let gone = stream.consumer_removed();
    law_operations_keep_streams_well_formed(stream, StreamOp::<T>::CloseConsumer);
    if ops.len() > 0 {
        law_nobody_waits_for_a_consumer_that_has_gone(stream, ops.drop_last(), item);
        law_items_leave_in_order(gone, ops.drop_last());
        law_closing_is_final(run(gone, ops.drop_last()).stream, ops.last());
    }
}

/// These items as pushes with back-pressure.
pub open spec fn blocking_pushes<T>(items: Seq<T>) -> Seq<StreamOp<T>> {
    Seq::new(items.len(), |i: int| StreamOp::PushOrBlock(items[i]))
}

/// Pushes with back-pressure fill the buffer up to its capacity, in their order,
/// and not one slot less: of items pushed while nothing is taken, as many stay as
/// there are free slots.
pub proof fn law_blocking_pushes_fill_the_buffer<T>(stream: StreamView<T>, items: Seq<T>)
    requires
        stream.wf(),
        !stream.consumer_gone,
    ensures
        ({
            let room = stream.capacity - stream.buffer.len();
            let after = run(stream, blocking_pushes(items)).stream;
            &&& after.wf() && !after.consumer_gone && after.capacity == stream.capacity
            &&& after.buffer == stream.buffer + if items.len() <= room {
                items
            } else {
                items.take(room)
            }
        }),
    decreases items.len(),
{
    let room = stream.capacity - stream.buffer.len();
    if items.len() == 0 {
        assert(blocking_pushes(items).len() == 0);
        assert(stream.buffer + items =~= stream.buffer);
    } else {
        let fewer = items.drop_last();
        law_blocking_pushes_fill_the_buffer(stream, fewer);
        assert(blocking_pushes(items).drop_last() =~= blocking_pushes(fewer));
        let before = run(stream, blocking_pushes(fewer)).stream;
        law_operations_keep_streams_well_formed(before, StreamOp::PushOrBlock(items.last()));
        stream_effects::law_back_pressure_waits_only_for_room(before, items.last());
        let after = run(stream, blocking_pushes(items)).stream;
        if items.len() <= room {
            assert(after.buffer =~= stream.buffer + items);
        } else {
            assert(fewer.take(room) =~= items.take(room));
            if fewer.len() <= room {
                assert(fewer =~= items.take(room));
            }
        }
    }
}

} // verus!
