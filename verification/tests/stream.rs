//! Streams on concrete values, with real wakers.
use std::sync::atomic::{AtomicBool, AtomicUsize, Ordering};
use std::sync::{Arc, Mutex, TryLockError, Weak};
use std::task::{Wake, Waker};

use doom_fish_utils::poll::Poll;
use doom_fish_utils::stream::{
    AsyncStreamSender, BoundedAsyncStream, CapacitySignal, NextItem, PushAttempt, STREAM_WAITER,
};

fn wake_all(waiters: Vec<(u64, Waker)>) {
    for (_, waker) in waiters {
        waker.wake();
    }
}

fn push<T>(sender: &AsyncStreamSender<T>, stream: &mut BoundedAsyncStream<T>, item: T) {
    wake_all(sender.push(stream, item).woken);
}

fn drop_sender<T>(sender: AsyncStreamSender<T>, stream: &mut BoundedAsyncStream<T>) {
    wake_all(sender.close(stream));
}

fn poll_once<T>(
    next: &mut NextItem,
    stream: &mut BoundedAsyncStream<T>,
    waker: &Waker,
) -> Poll<Option<T>> {
    next.poll(stream, waker, waker.clone()).result
}

fn noop_poll<T>(stream: &mut BoundedAsyncStream<T>) -> Poll<Option<T>> {
    let mut next = stream.next();
    poll_once(&mut next, stream, Waker::noop())
}

/// A producer that finds no room and one that then goes on.
fn blocked(sender: &AsyncStreamSender<u32>, stream: &mut BoundedAsyncStream<u32>, item: u32) -> u32 {
    assert!(stream.must_wait());
    match sender.push_or_block(stream, item) {
        PushAttempt::Full(item) => item,
        _ => panic!("the producer did not block"),
    }
}

fn delivered(sender: &AsyncStreamSender<u32>, stream: &mut BoundedAsyncStream<u32>, item: u32) -> bool {
    match sender.push_or_block(stream, item) {
        PushAttempt::Delivered(woken) => {
            wake_all(woken);
            true
        }
        _ => false,
    }
}

#[test]
fn try_next_notifies_blocked_producer() {
    let (mut stream, sender) = BoundedAsyncStream::new(1);
    push(&sender, &mut stream, 1);
    let item = blocked(&sender, &mut stream, 2);

    let taken = stream.try_next();
    assert_eq!(taken.item, Some(1));
    assert_eq!(taken.signal, CapacitySignal::NotifyOne);
    assert!(delivered(&sender, &mut stream, item));
    assert_eq!(stream.try_next().item, Some(2));
}

#[test]
fn next_future_notifies_blocked_producer() {
    let (mut stream, sender) = BoundedAsyncStream::new(1);
    push(&sender, &mut stream, 1);
    let item = blocked(&sender, &mut stream, 2);

    let polled = stream.next().poll(&mut stream, Waker::noop(), Waker::noop().clone());
    assert_eq!(polled.result, Poll::Ready(Some(1)));
    assert_eq!(polled.signal, CapacitySignal::NotifyOne);
    assert!(delivered(&sender, &mut stream, item));
    assert_eq!(noop_poll(&mut stream), Poll::Ready(Some(2)));
}

#[test]
fn stream_poll_notifies_blocked_producer() {
    let (mut stream, sender) = BoundedAsyncStream::new(1);
    push(&sender, &mut stream, 1);
    let item = blocked(&sender, &mut stream, 2);

    let first = stream.poll_next(Waker::noop(), Waker::noop().clone());
    assert_eq!(first.result, Poll::Ready(Some(1)));
    assert_eq!(first.signal, CapacitySignal::NotifyOne);
    assert!(delivered(&sender, &mut stream, item));

    let second = stream.poll_next(Waker::noop(), Waker::noop().clone());
    assert_eq!(second.result, Poll::Ready(Some(2)));
}

#[test]
fn clear_buffer_notifies_blocked_producer() {
    let (mut stream, sender) = BoundedAsyncStream::new(1);
    push(&sender, &mut stream, 1);
    let item = blocked(&sender, &mut stream, 2);

    let cleared = stream.clear_buffer();
    assert_eq!(cleared.items, vec![1]);
    assert_eq!(cleared.signal, CapacitySignal::NotifyAll);
    assert!(delivered(&sender, &mut stream, item));
    assert_eq!(stream.try_next().item, Some(2));
}

#[test]
fn consumer_drop_returns_blocked_item() {
    let (mut stream, sender) = BoundedAsyncStream::new(1);
    push(&sender, &mut stream, 1);
    let item = blocked(&sender, &mut stream, 2);

    assert_eq!(stream.close_consumer().signal, CapacitySignal::NotifyAll);
    assert!(sender.is_consumer_gone(&stream));
    assert!(matches!(sender.push_or_block(&mut stream, item), PushAttempt::ConsumerGone(2)));
}

#[test]
fn concurrent_sender_clone_drops_close_stream() {
    let (mut stream, sender) = BoundedAsyncStream::<u32>::new(1);
    let sender_clone = sender.clone(&mut stream);
    assert_eq!(stream.sender_count(), 2);

    drop_sender(sender, &mut stream);
    assert!(!stream.is_closed());
    drop_sender(sender_clone, &mut stream);

    assert!(stream.is_closed());
    assert_eq!(noop_poll(&mut stream), Poll::Ready(None));
}

type Shared<T> = Mutex<Option<BoundedAsyncStream<T>>>;

fn shared_state_is_unlocked<T>(shared: &Weak<Shared<T>>) -> bool {
    let Some(shared) = shared.upgrade() else {
        return true;
    };
    let unlocked = match shared.try_lock() {
        Ok(_state) => true,
        Err(TryLockError::WouldBlock | TryLockError::Poisoned(_)) => false,
    };
    unlocked
}

struct ReentrantWaker {
    shared: Weak<Shared<u32>>,
    wake_was_unlocked: Arc<AtomicBool>,
    drop_was_unlocked: Arc<AtomicBool>,
}

impl Wake for ReentrantWaker {
    fn wake(self: Arc<Self>) {
        self.wake_was_unlocked
            .store(shared_state_is_unlocked(&self.shared), Ordering::SeqCst);
    }
}

impl Drop for ReentrantWaker {
    fn drop(&mut self) {
        self.drop_was_unlocked
            .store(shared_state_is_unlocked(&self.shared), Ordering::SeqCst);
    }
}

#[test]
fn wakes_and_drops_waker_outside_state_mutex() {
    let (stream, sender) = BoundedAsyncStream::new(1);
    let shared: Arc<Shared<u32>> = Arc::new(Mutex::new(Some(stream)));
    let wake_was_unlocked = Arc::new(AtomicBool::new(false));
    let drop_was_unlocked = Arc::new(AtomicBool::new(false));
    let probe = Arc::new(ReentrantWaker {
        shared: Arc::downgrade(&shared),
        wake_was_unlocked: Arc::clone(&wake_was_unlocked),
        drop_was_unlocked: Arc::clone(&drop_was_unlocked),
    });
    let waker = Waker::from(Arc::clone(&probe));

    {
        let next_waker = waker.clone();
        let mut guard = shared.lock().unwrap();
        let stream = guard.as_mut().unwrap();
        let mut next = stream.next();
        let polled = next.poll(stream, &waker, next_waker);
        drop(guard);
        assert_eq!(polled.result, Poll::Pending);
    }
    drop(waker);
    drop(probe);

    let pushed = {
        let mut guard = shared.lock().unwrap();
        sender.push(guard.as_mut().unwrap(), 1)
    };
    wake_all(pushed.woken);
    drop(pushed.overwritten);

    assert!(wake_was_unlocked.load(Ordering::SeqCst));
    assert!(drop_was_unlocked.load(Ordering::SeqCst));
}

struct ReentrantItem {
    shared: Weak<Shared<Self>>,
    unlocked_drops: Arc<AtomicUsize>,
    locked_drops: Arc<AtomicUsize>,
}

impl Drop for ReentrantItem {
    fn drop(&mut self) {
        if shared_state_is_unlocked(&self.shared) {
            self.unlocked_drops.fetch_add(1, Ordering::SeqCst);
        } else {
            self.locked_drops.fetch_add(1, Ordering::SeqCst);
        }
    }
}

#[test]
fn overwritten_and_cleared_items_drop_outside_state_mutex() {
    let (stream, sender) = BoundedAsyncStream::new(1);
    let shared: Arc<Shared<ReentrantItem>> = Arc::new(Mutex::new(Some(stream)));
    let unlocked_drops = Arc::new(AtomicUsize::new(0));
    let locked_drops = Arc::new(AtomicUsize::new(0));

    let make_item = || ReentrantItem {
        shared: Arc::downgrade(&shared),
        unlocked_drops: Arc::clone(&unlocked_drops),
        locked_drops: Arc::clone(&locked_drops),
    };
    let locked_push = |item: ReentrantItem| {
        let mut guard = shared.lock().unwrap();
        sender.push(guard.as_mut().unwrap(), item)
    };

    let pushed = locked_push(make_item());
    assert!(pushed.overwritten.is_none());
    let pushed = locked_push(make_item());
    drop(pushed);
    assert_eq!(unlocked_drops.load(Ordering::SeqCst), 1);

    let cleared = {
        let mut guard = shared.lock().unwrap();
        guard.as_mut().unwrap().clear_buffer()
    };
    drop(cleared);
    assert_eq!(unlocked_drops.load(Ordering::SeqCst), 2);
    assert_eq!(locked_drops.load(Ordering::SeqCst), 0);
}

#[derive(Default)]
struct CountingWake(AtomicUsize);

impl Wake for CountingWake {
    fn wake(self: Arc<Self>) {
        self.0.fetch_add(1, Ordering::SeqCst);
    }
}

fn counting_waker() -> (Arc<CountingWake>, Waker) {
    let probe = Arc::new(CountingWake::default());
    let waker = Waker::from(Arc::clone(&probe));
    (probe, waker)
}

#[test]
fn every_waiting_consumer_is_woken() {
    let (mut stream, sender) = BoundedAsyncStream::new(4);
    let (first_probe, first_waker) = counting_waker();
    let (second_probe, second_waker) = counting_waker();
    let mut first = stream.next();
    let mut second = stream.next();

    assert_eq!(poll_once(&mut first, &mut stream, &first_waker), Poll::Pending);
    assert_eq!(poll_once(&mut second, &mut stream, &second_waker), Poll::Pending);

    push(&sender, &mut stream, 1);
    assert_eq!(first_probe.0.load(Ordering::SeqCst), 1);
    assert_eq!(second_probe.0.load(Ordering::SeqCst), 1);

    assert_eq!(poll_once(&mut second, &mut stream, &second_waker), Poll::Ready(Some(1)));
    assert_eq!(poll_once(&mut first, &mut stream, &first_waker), Poll::Pending);

    drop_sender(sender, &mut stream);
    assert_eq!(first_probe.0.load(Ordering::SeqCst), 2);
    assert_eq!(second_probe.0.load(Ordering::SeqCst), 1);
    assert_eq!(poll_once(&mut first, &mut stream, &first_waker), Poll::Ready(None));
}

#[test]
fn dropped_next_future_releases_its_waker() {
    let (mut stream, sender) = BoundedAsyncStream::<u32>::new(1);
    let (first_probe, first_waker) = counting_waker();
    let (second_probe, second_waker) = counting_waker();
    let mut first = stream.next();
    let mut second = stream.next();

    for _ in 0..3 {
        assert_eq!(poll_once(&mut first, &mut stream, &first_waker), Poll::Pending);
    }
    assert_eq!(poll_once(&mut second, &mut stream, &second_waker), Poll::Pending);
    assert_eq!(stream.waiter_count(), 2);

    drop(first.cancel(&mut stream));
    assert_eq!(stream.waiter_count(), 1);
    drop(first_waker);
    assert_eq!(Arc::strong_count(&first_probe), 1);

    push(&sender, &mut stream, 5);
    assert_eq!(first_probe.0.load(Ordering::SeqCst), 0);
    assert_eq!(second_probe.0.load(Ordering::SeqCst), 1);
    assert_eq!(poll_once(&mut second, &mut stream, &second_waker), Poll::Ready(Some(5)));
    drop(second.cancel(&mut stream));
    assert_eq!(stream.waiter_count(), 0);
}

#[test]
fn concurrent_consumers_drain_every_item() {
    const CONSUMERS: usize = 4;
    const ITEMS: usize = 2_000;

    let (mut stream, sender) = BoundedAsyncStream::<usize>::new(4);
    let mut requests: Vec<NextItem> = (0..CONSUMERS).map(|_| stream.next()).collect();
    let mut received = 0;
    for item in 0..ITEMS {
        let mut waiting = item;
        loop {
            match sender.push_or_block(&mut stream, waiting) {
                PushAttempt::Delivered(woken) => {
                    wake_all(woken);
                    break;
                }
                PushAttempt::Full(item) => {
                    waiting = item;
                    for request in &mut requests {
                        if poll_once(request, &mut stream, Waker::noop()) != Poll::Pending {
                            received += 1;
                        }
                    }
                }
                PushAttempt::ConsumerGone(_) => panic!("a consumer has gone"),
            }
        }
    }
    drop_sender(sender, &mut stream);
    let mut ended = 0;
    while ended < CONSUMERS {
        match poll_once(&mut requests[ended], &mut stream, Waker::noop()) {
            Poll::Ready(Some(_)) => received += 1,
            Poll::Ready(None) => ended += 1,
            Poll::Pending => panic!("a consumer hung"),
        }
    }
    assert_eq!(received, ITEMS);
}

#[test]
fn stream_poll_keeps_a_single_registration() {
    let (mut stream, sender) = BoundedAsyncStream::<u32>::new(1);
    let (first_probe, first_waker) = counting_waker();
    let (second_probe, second_waker) = counting_waker();

    assert_eq!(
        stream.poll_next(&first_waker, first_waker.clone()).result,
        Poll::Pending
    );
    assert_eq!(
        stream.poll_next(&second_waker, second_waker.clone()).result,
        Poll::Pending
    );
    assert_eq!(stream.waiter_count(), 1);

    push(&sender, &mut stream, 3);
    assert_eq!(first_probe.0.load(Ordering::SeqCst), 0);
    assert_eq!(second_probe.0.load(Ordering::SeqCst), 1);
    assert_eq!(
        stream.poll_next(&second_waker, second_waker.clone()).result,
        Poll::Ready(Some(3))
    );
}

#[test]
fn full_streams_drop_the_oldest_item() {
    let (mut stream, sender) = BoundedAsyncStream::new(3);
    for item in 0..100 {
        let pushed = sender.push(&mut stream, item);
        assert_eq!(pushed.overwritten, if item < 3 { None } else { Some(item - 3) });
    }
    assert_eq!(stream.buffered_count(), 3);
    assert_eq!(sender.buffered_count(&stream), 3);
    assert_eq!(stream.capacity(), 3);
    for item in 97..100 {
        assert_eq!(stream.try_next().item, Some(item));
    }
    let taken = stream.try_next();
    assert_eq!(taken.item, None);
    assert_eq!(taken.signal, CapacitySignal::Silent);
}

#[test]
fn closed_streams_drain_before_they_end() {
    let (mut stream, sender) = BoundedAsyncStream::new(2);
    push(&sender, &mut stream, "a");
    push(&sender, &mut stream, "b");
    drop_sender(sender, &mut stream);
    assert!(stream.is_closed());
    assert_eq!(noop_poll(&mut stream), Poll::Ready(Some("a")));
    assert_eq!(noop_poll(&mut stream), Poll::Ready(Some("b")));
    assert_eq!(noop_poll(&mut stream), Poll::Ready(None));
    assert_eq!(noop_poll(&mut stream), Poll::Ready(None));
}

#[test]
fn replaced_and_unused_wakers_come_out() {
    let (mut stream, _sender) = BoundedAsyncStream::<u32>::new(1);
    let (_first_probe, first_waker) = counting_waker();
    let (_second_probe, second_waker) = counting_waker();
    let mut next = stream.next();

    let polled = next.poll(&mut stream, &first_waker, first_waker.clone());
    assert!(polled.released.is_none() && polled.unused.is_none());
    let polled = next.poll(&mut stream, &first_waker, first_waker.clone());
    assert!(polled.released.is_none() && polled.unused.is_some());
    let polled = next.poll(&mut stream, &second_waker, second_waker.clone());
    assert!(polled.released.unwrap().will_wake(&first_waker) && polled.unused.is_none());
    let stale = stream.close_consumer().stale;
    assert_eq!(stale.len(), 1);
    assert_eq!(stale[0].0, 1);
    assert!(stale[0].1.will_wake(&second_waker));
}

#[test]
fn poll_takes_the_answer_about_the_waker_as_given() {
    let (mut stream, _sender) = BoundedAsyncStream::<u32>::new(1);
    let mut waiter = Some(STREAM_WAITER);
    let waker = Waker::noop().clone();
    assert_eq!(
        stream.poll_next_item_with(&mut waiter, false, waker.clone()).result,
        Poll::Pending
    );
    let polled = stream.poll_next_item_with(&mut waiter, true, waker.clone());
    assert!(polled.released.is_none() && polled.unused.is_some());
    let polled = stream.poll_next_item_with(&mut waiter, false, waker);
    assert!(polled.released.is_some() && polled.unused.is_none());
    assert_eq!(waiter, Some(STREAM_WAITER));

    let mut other = None;
    let polled = stream.poll_next_item(&mut other, Waker::noop(), Waker::noop().clone());
    assert_eq!(polled.result, Poll::Pending);
    assert_eq!(other, Some(1));
    assert_eq!(stream.waiter_count(), 2);
}

#[test]
fn requests_wait_from_a_pending_poll_to_the_item() {
    let (mut stream, sender) = BoundedAsyncStream::new(1);
    let mut next = stream.next();
    assert!(!next.is_waiting());
    assert_eq!(poll_once(&mut next, &mut stream, Waker::noop()), Poll::Pending);
    assert!(next.is_waiting());
    push(&sender, &mut stream, 7);
    assert_eq!(stream.waiter_count(), 0);
    assert!(next.is_waiting());
    assert_eq!(poll_once(&mut next, &mut stream, Waker::noop()), Poll::Ready(Some(7)));
    assert!(!next.is_waiting());
    assert!(next.cancel(&mut stream).is_none());
}

#[test]
fn items_leave_in_the_order_in_which_they_came_in() {
    let (mut stream, sender) = BoundedAsyncStream::new(3);
    let mut put = Vec::new();
    let mut left = Vec::new();
    for round in 0..40_u32 {
        match round % 5 {
            0 => left.extend(stream.try_next().item),
            1 => {
                if delivered(&sender, &mut stream, round) {
                    put.push(round);
                }
            }
            2 => {
                if let Poll::Ready(item) = noop_poll(&mut stream) {
                    left.extend(item);
                }
            }
            3 if round == 23 => left.extend(stream.clear_buffer().items),
            _ => {
                left.extend(sender.push(&mut stream, round).overwritten);
                put.push(round);
            }
        }
    }
    left.extend(stream.clear_buffer().items);
    assert_eq!(left, put);
}

fn is_send<T: Send>(_: &T) -> bool {
    true
}

#[test]
fn streams_and_senders_can_go_to_other_threads() {
    let (stream, sender) = BoundedAsyncStream::<u32>::new(1);
    assert!(is_send(&stream) && is_send(&sender) && is_send(&stream.next()));
}

#[test]
fn streams_close_with_as_many_senders_as_there_were() {
    let (mut stream, sender) = BoundedAsyncStream::<u32>::new(3);
    let mut senders = vec![sender];
    for _ in 0..5 {
        let more = senders[0].clone(&mut stream);
        senders.push(more);
    }
    assert_eq!(stream.sender_count(), 6);
    while let Some(sender) = senders.pop() {
        assert!(!stream.is_closed());
        drop_sender(sender, &mut stream);
    }
    assert!(stream.is_closed());
    assert_eq!(stream.capacity(), 3);
}

#[test]
fn pending_polls_leave_the_waker_of_their_own_task() {
    let (mut stream, sender) = BoundedAsyncStream::new(1);
    let (first_probe, first_waker) = counting_waker();
    let (second_probe, second_waker) = counting_waker();
    let mut next = stream.next();
    assert_eq!(poll_once(&mut next, &mut stream, &first_waker), Poll::Pending);
    assert_eq!(poll_once(&mut next, &mut stream, &second_waker), Poll::Pending);
    push(&sender, &mut stream, 1_u32);
    assert_eq!(first_probe.0.load(Ordering::SeqCst), 0);
    assert_eq!(second_probe.0.load(Ordering::SeqCst), 1);
}
