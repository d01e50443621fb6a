//! What each operation on a stream does to it and gives back, in terms of the
//! items, the wakers and the flags that it finds.
use std::task::Waker;

use vstd::prelude::*;

use crate::poll::Poll;
use crate::stream;
use crate::stream::{CapacitySignal, Polled, StreamView};

verus! {

/// A stream has some room and holds no more than fits; it is closed exactly
/// while nobody can push; no two waiting consumers share a number, none of them
/// waits beside an item or past the end, and zero is not given out. Nothing more
/// is asked of a stream.
pub proof fn law_what_streams_keep<T>(stream: StreamView<T>)
    ensures
        stream.wf() == ({
            &&& 1 <= stream.capacity <= usize::MAX
            &&& stream.buffer.len() <= stream.capacity
            &&& stream.sender_count <= usize::MAX
            &&& stream.closed <==> stream.sender_count == 0
            &&& forall|i: int, j: int|
                0 <= i < stream.waiters.len() && 0 <= j < stream.waiters.len() && i != j
                    ==> (#[trigger] stream.waiters[i]).0 != (#[trigger] stream.waiters[j]).0
            &&& stream.next_waiter > 0
            &&& stream.waiters.len() == 0 || (stream.buffer.len() == 0 && !stream.closed)
        }),
{
    if stream.wf() {
        assert forall|i: int, j: int|
            0 <= i < stream.waiters.len() && 0 <= j < stream.waiters.len() && i
                != j implies (#[trigger] stream.waiters[i]).0 != (#[trigger] stream.waiters[j]).0 by {
            if j < i {
                assert(stream.waiters[j].0 != stream.waiters[i].0);
            }
        }
    }
}

/// Taking an item gives the oldest one and leaves the others in their order; on
/// an empty buffer it gives nothing. Everything else stays.
pub proof fn law_taking_gives_the_oldest<T>(stream: StreamView<T>)
    ensures
        stream.popped() == (StreamView { buffer: stream.popped().buffer, ..stream }),
        match stream.front() {
            Some(item) => seq![item] + stream.popped().buffer == stream.buffer,
            None => stream.buffer.len() == 0 && stream.popped().buffer.len() == 0,
        },
{
    if stream.buffer.len() > 0 {
        assert(seq![stream.buffer[0]] + stream.buffer.drop_first() =~= stream.buffer);
    }
}

/// A push always puts its item behind the others. It drops an item exactly where
/// the buffer has no slot left, and then the oldest one. It calls every waiting
/// consumer, and everything else stays.
pub proof fn law_pushing_drops_only_for_room<T>(stream: StreamView<T>, item: T)
    requires
        stream.wf(),
    ensures
        stream.pushed(item) == (StreamView {
            buffer: stream.pushed(item).buffer,
            waiters: Seq::empty(),
            ..stream
        }),
        match stream.overwritten() {
            Some(dropped) => {
                &&& stream.buffer.len() == stream.capacity
                &&& seq![dropped] + stream.pushed(item).buffer == stream.buffer + seq![item]
            },
            None => {
                &&& stream.buffer.len() < stream.capacity
                &&& stream.pushed(item).buffer == stream.buffer + seq![item]
            },
        },
{
    if stream.buffer.len() < stream.capacity {
        assert(stream.pushed(item).buffer =~= stream.buffer + seq![item]);
    } else {
        assert(seq![stream.buffer[0]] + stream.pushed(item).buffer =~= stream.buffer + seq![item]);
    }
}

/// A producer with back-pressure waits exactly while there is a consumer and not
/// one slot is left. Where it need not wait and the consumer is there, its item
/// goes behind the others, every waiting consumer is called, and everything else
/// stays.
pub proof fn law_back_pressure_waits_only_for_room<T>(stream: StreamView<T>, item: T)
    requires
        stream.wf(),
    ensures
        stream.must_wait() <==> !stream.consumer_gone && stream.capacity - stream.buffer.len() == 0,
        stream.appended(item) == (StreamView {
            buffer: stream.buffer + seq![item],
            waiters: Seq::empty(),
            ..stream
        }),
        !stream.must_wait() && !stream.consumer_gone ==> stream.appended(item).buffer.len()
            <= stream.capacity,
{
    assert(stream.appended(item).buffer =~= stream.buffer + seq![item]);
}

/// Emptying the buffer leaves no item and changes nothing else: the stream stays
/// open, and whoever waits goes on waiting.
pub proof fn law_clearing_leaves_the_stream_open<T>(stream: StreamView<T>)
    ensures
        stream.cleared() == (StreamView { buffer: stream.cleared().buffer, ..stream }),
        stream.cleared().buffer.len() == 0,
{
}

/// Each sender counts once. Only the last one to go closes the stream, and then
/// it calls every waiting consumer; the items that are left stay.
pub proof fn law_each_sender_counts_once<T>(stream: StreamView<T>)
    requires
        stream.wf(),
    ensures
        stream.sender_added() == (StreamView { sender_count: stream.sender_count + 1, ..stream }),
        stream.sender_count >= 2 ==> stream.sender_removed() == (StreamView {
            sender_count: (stream.sender_count - 1) as nat,
            ..stream
        }),
        stream.sender_count == 1 ==> stream.sender_removed() == (StreamView {
            sender_count: 0,
            closed: true,
            waiters: Seq::empty(),
            ..stream
        }),
        stream.sender_count < usize::MAX && !stream.closed ==> stream.sender_added().sender_removed()
            == stream,
{
}

/// After the end of the consumer every producer learns of it, whatever the
/// buffer held: the consumer has gone, nobody has to wait, and no waker is left.
/// Everything else stays.
pub proof fn law_producers_learn_of_the_consumers_end<T>(stream: StreamView<T>)
    ensures
        stream.consumer_removed().consumer_gone,
        !stream.consumer_removed().must_wait(),
        stream.consumer_removed().waiters.len() == 0,
        stream.consumer_removed() == (StreamView {
            consumer_gone: true,
            waiters: Seq::empty(),
            ..stream
        }),
{
}

/// A waiter that withdraws gets back the waker that it left behind; the entry of
/// the last one moves up, and nothing else changes.
pub proof fn law_withdrawing_gives_the_waker_back<T>(stream: StreamView<T>, at: int)
    requires
        stream.wf(),
        0 <= at < stream.waiters.len(),
    ensures
        stream::waker_of(stream.waiters, Some(stream.waiters[at].0)) == Some(stream.waiters[at].1),
        stream.waiter_removed(Some(stream.waiters[at].0)) == (StreamView {
            waiters: stream.waiters.update(
                at,
                stream.waiters[stream.waiters.len() - 1],
            ).take(stream.waiters.len() - 1),
            ..stream
        }),
{
    let id = stream.waiters[at].0;
    assert(stream::registered(stream.waiters, id));
    assert(stream::position(stream.waiters, id) == at);
    assert(stream.waiter_removed(Some(id)).waiters =~= stream.waiters.update(
        at,
        stream.waiters[stream.waiters.len() - 1],
    ).take(stream.waiters.len() - 1));
}

/// A waiter that has left no waker behind gets none back, and nothing changes.
pub proof fn law_withdrawing_without_a_waker<T>(stream: StreamView<T>, waiter: Option<u64>)
    requires
        forall|i: int|
            0 <= i < stream.waiters.len() ==> Some((#[trigger] stream.waiters[i]).0) != waiter,
    ensures
        stream::waker_of(stream.waiters, waiter) is None,
        stream.waiter_removed(waiter) == stream,
{
}

/// A poll takes the oldest item if there is one, whether or not the stream is
/// closed, and makes room for one producer. A poll of a closed, empty stream
/// gives the end and changes nothing. In neither case is a waker left behind, or
/// a number kept.
pub proof fn law_polls_that_are_ready<T>(
    stream: StreamView<T>,
    waiter: Option<u64>,
    same: bool,
    waker: Waker,
)
    requires
        stream.wf(),
    ensures
        stream.buffer.len() > 0 ==> stream.poll(waiter, same, waker) == (
            StreamView { buffer: stream.buffer.skip(1), ..stream },
            None::<u64>,
            Polled {
                result: Poll::Ready(Some(stream.buffer[0])),
                released: None,
                unused: Some(waker),
                signal: CapacitySignal::NotifyOne,
            },
        ),
        stream.buffer.len() == 0 && stream.sender_count == 0 ==> stream.poll(waiter, same, waker)
            == (
            stream,
            None::<u64>,
            Polled {
                result: Poll::Ready(None::<T>),
                released: None,
                unused: Some(waker),
                signal: CapacitySignal::Silent,
            },
        ),
{
    if stream.buffer.len() > 0 || stream.sender_count == 0 {
        assert(stream::removed(stream.waiters, waiter) =~= stream.waiters);
    }
    if stream.buffer.len() > 0 {
        assert(stream.buffer.drop_first() =~= stream.buffer.skip(1));
    }
}

/// A poll of an empty, open stream by a waiter that has left no waker behind is
/// pending and leaves its waker behind the others, under the waiter's own number
/// or under the next one where it has none. The others keep their places.
pub proof fn law_first_wait<T>(
    stream: StreamView<T>,
    waiter: Option<u64>,
    same: bool,
    waker: Waker,
)
    requires
        stream.wf(),
        stream.buffer.len() == 0,
        stream.sender_count > 0,
        forall|i: int|
            0 <= i < stream.waiters.len() ==> (#[trigger] stream.waiters[i]).0 != match waiter {
                Some(id) => id,
                None => stream.next_waiter,
            },
    ensures
        ({
            let (after, number, polled) = stream.poll(waiter, same, waker);
            let id = match waiter {
                Some(id) => id,
                None => stream.next_waiter,
            };
            &&& number == Some(id)
            &&& polled == (Polled {
                result: Poll::<Option<T>>::Pending,
                released: None,
                unused: None,
                signal: CapacitySignal::Silent,
            })
            &&& after == (StreamView {
                waiters: stream.waiters + seq![(id, waker)],
                next_waiter: after.next_waiter,
                ..stream
            })
            &&& waiter is Some ==> after.next_waiter == stream.next_waiter
            &&& waiter is None && stream.next_waiter < u64::MAX ==> after.next_waiter
                == stream.next_waiter + 1
            &&& waiter is None && stream.next_waiter == u64::MAX ==> after.next_waiter == 1
        }),
{
    let (after, _, _) = stream.poll(waiter, same, waker);
    let id = stream.number_of(waiter);
    assert(!stream::registered(stream.waiters, id));
    assert(after.waiters =~= stream.waiters + seq![(id, waker)]);
}

/// A waiter that polls again while its waker is still behind keeps its place:
/// the waker stays where it wakes the same task, else the new one takes its place
/// and the old one comes out. A request without a number, which gets the next
/// one, does the same where that one is taken after all numbers have been given
/// out.
pub proof fn law_waiting_again<T>(
    stream: StreamView<T>,
    waiter: Option<u64>,
    at: int,
    same: bool,
    waker: Waker,
)
    requires
        stream.wf(),
        0 <= at < stream.waiters.len(),
        stream.waiters[at].0 == match waiter {
            Some(id) => id,
            None => stream.next_waiter,
        },
    ensures
        ({
            let (id, left) = stream.waiters[at];
            let (after, number, polled) = stream.poll(waiter, same, waker);
            &&& number == Some(id)
            &&& after == (StreamView {
                waiters: if same {
                    stream.waiters
                } else {
                    stream.waiters.update(at, (id, waker))
                },
                next_waiter: after.next_waiter,
                ..stream
            })
            &&& waiter is Some ==> after.next_waiter == stream.next_waiter
            &&& waiter is None ==> after.next_waiter == if id < u64::MAX {
                (id + 1) as u64
            } else {
                1
            }
            &&& polled.result is Pending && polled.signal is Silent
            &&& same ==> polled.released is None && polled.unused == Some(waker)
            &&& !same ==> polled.released == Some(left) && polled.unused is None
        }),
{
    let (id, left) = stream.waiters[at];
    assert(stream::registered(stream.waiters, id));
    assert(stream::position(stream.waiters, id) == at);
}

/// Where a waiter's waker is still behind, the answer that a poll goes by is one
/// of `Waker::will_wake` about that waker and the one of the polling task; where
/// there is nothing to ask, it is no.
pub proof fn law_answers_are_about_the_waker_left_behind<T>(
    stream: StreamView<T>,
    waiter: Option<u64>,
    current: Waker,
    same: bool,
)
    requires
        stream.wf(),
        stream.answered(waiter, current, same),
    ensures
        forall|i: int|
            0 <= i < stream.waiters.len() && (#[trigger] stream.waiters[i]).0 == (match waiter {
                Some(id) => id,
                None => stream.next_waiter,
            }) ==> call_ensures(Waker::will_wake, (&stream.waiters[i].1, &current), same),
        same ==> exists|i: int|
            0 <= i < stream.waiters.len() && (#[trigger] stream.waiters[i]).0 == match waiter {
                Some(id) => id,
                None => stream.next_waiter,
            },
{
    let id = stream.number_of(waiter);
    assert forall|i: int| 0 <= i < stream.waiters.len() && (#[trigger] stream.waiters[i]).0
        == id implies call_ensures(Waker::will_wake, (&stream.waiters[i].1, &current), same) by {
        assert(stream::registered(stream.waiters, id));
        assert(stream::position(stream.waiters, id) == i);
    }
}

} // verus!
