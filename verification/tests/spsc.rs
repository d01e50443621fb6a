//! Rings on concrete values, with the real queue and waker cell.
use std::sync::atomic::{AtomicUsize, Ordering};
use std::sync::Arc;
use std::task::{Wake, Waker};
use std::time::{Duration, Instant};

use doom_fish_utils::poll::Poll;
use doom_fish_utils::ring_queue::can_allocate;
use doom_fish_utils::spsc::{PopNext, PopStep, PushStep, SpscRing};

#[derive(Default)]
struct CountingWake(AtomicUsize);

impl Wake for CountingWake {
    fn wake(self: Arc<Self>) {
        self.0.fetch_add(1, Ordering::SeqCst);
    }
}

fn counting_waker() -> (Arc<CountingWake>, Waker) {
    let probe = Arc::new(CountingWake::default());
    let waker = Waker::from(Arc::clone(&probe));
    (probe, waker)
}

#[test]
fn preserves_sequence_in_single_thread() {
    let (mut ring, producer, consumer) = SpscRing::<u32, 4>::new();

    assert_eq!(producer.push(&mut ring, 1).result, Ok(()));
    assert_eq!(producer.push(&mut ring, 2).result, Ok(()));
    assert_eq!(producer.push(&mut ring, 3).result, Ok(()));

    assert_eq!(consumer.pop(&mut ring), Some(1));
    assert_eq!(consumer.pop(&mut ring), Some(2));
    assert_eq!(consumer.pop(&mut ring), Some(3));
    assert_eq!(consumer.pop(&mut ring), None);
}

#[test]
fn overwrite_drops_oldest_item() {
    let (mut ring, producer, consumer) = SpscRing::<u32, 2>::new();

    assert_eq!(producer.push_overwrite(&mut ring, 10).displaced, None);
    assert_eq!(producer.push_overwrite(&mut ring, 20).displaced, None);
    assert_eq!(producer.push_overwrite(&mut ring, 30).displaced, Some(10));

    assert_eq!(consumer.pop(&mut ring), Some(20));
    assert_eq!(consumer.pop(&mut ring), Some(30));
    assert_eq!(consumer.pop(&mut ring), None);
}

#[test]
fn producer_calls_return_immediately_when_full() {
    let (mut ring, producer, _consumer) = SpscRing::<u64, 1>::new();
    assert_eq!(producer.push(&mut ring, 7).result, Ok(()));

    let start = Instant::now();
    let mut expected_drop = Some(7);
    for value in 0..100_000 {
        assert_eq!(producer.push(&mut ring, value).result, Err(value));
        assert_eq!(producer.push_overwrite(&mut ring, value).displaced, expected_drop);
        expected_drop = Some(value);
    }

    assert!(
        start.elapsed() < Duration::from_secs(2),
        "producer operations took too long while the ring stayed full"
    );
}

#[test]
fn pop_async_drains_then_closes() {
    let (mut ring, producer, consumer) = SpscRing::<u32, 8>::new();
    assert_eq!(producer.push(&mut ring, 1).result, Ok(()));
    assert_eq!(producer.push(&mut ring, 2).result, Ok(()));
    assert!(producer.close(&mut ring).is_none());

    let future = consumer.pop_async();
    assert_eq!(future.poll(&mut ring, Waker::noop()), Poll::Ready(Some(1)));
    assert_eq!(future.poll(&mut ring, Waker::noop()), Poll::Ready(Some(2)));
    assert_eq!(future.poll(&mut ring, Waker::noop()), Poll::Ready(None));
}

#[test]
fn concurrent_producer_consumer_preserve_order() {
    let (mut ring, producer, consumer) = SpscRing::<u64, 1024>::new();
    let mut expected = 0;
    for value in 0..50_000_u64 {
        let mut item = value;
        while let Err(returned) = producer.push(&mut ring, item).result {
            item = returned;
            for _ in 0..100 {
                assert_eq!(consumer.poll_pop(&mut ring, Waker::noop()), Poll::Ready(Some(expected)));
                expected += 1;
            }
        }
    }
    assert!(producer.close(&mut ring).is_none());
    while expected < 50_000 {
        assert_eq!(consumer.poll_pop(&mut ring, Waker::noop()), Poll::Ready(Some(expected)));
        expected += 1;
    }
    assert_eq!(consumer.poll_pop(&mut ring, Waker::noop()), Poll::Ready(None));
}

#[test]
fn stream_wrapper_yields_items() {
    let (mut ring, producer, consumer) = SpscRing::<u32, 4>::new();
    let stream = consumer.stream();

    assert_eq!(producer.push(&mut ring, 11).result, Ok(()));
    assert!(producer.close(&mut ring).is_none());

    let first = stream.poll_next(&mut ring, Waker::noop());
    let second = stream.poll_next(&mut ring, Waker::noop());

    assert_eq!(first, Poll::Ready(Some(11)));
    assert_eq!(second, Poll::Ready(None));
}

#[test]
fn pushes_and_the_end_call_the_waiting_consumer() {
    let (mut ring, producer, consumer) = SpscRing::<u64, 1>::new();
    let (probe, waker) = counting_waker();

    assert_eq!(consumer.poll_pop(&mut ring, &waker), Poll::Pending);
    assert_eq!(consumer.poll_pop(&mut ring, &waker), Poll::Pending);
    producer.push(&mut ring, 1).wake.unwrap().wake();
    assert_eq!(probe.0.load(Ordering::SeqCst), 1);
    let refused = producer.push(&mut ring, 2);
    assert_eq!(refused.result, Err(2));
    assert!(refused.wake.is_none());
    assert!(producer.push_overwrite(&mut ring, 2).wake.is_none());
    assert_eq!(consumer.poll_pop(&mut ring, &waker), Poll::Ready(Some(2)));

    assert_eq!(consumer.poll_pop(&mut ring, &waker), Poll::Pending);
    producer.push_overwrite(&mut ring, 3).wake.unwrap().wake();
    assert_eq!(probe.0.load(Ordering::SeqCst), 2);
    assert_eq!(consumer.pop(&mut ring), Some(3));

    assert_eq!(consumer.poll_pop(&mut ring, &waker), Poll::Pending);
    producer.close(&mut ring).unwrap().wake();
    assert_eq!(probe.0.load(Ordering::SeqCst), 3);
    assert!(consumer.is_closed(&ring));
    assert_eq!(consumer.poll_pop(&mut ring, &waker), Poll::Ready(None));
}

#[test]
fn smaller_capacities_are_kept() {
    let (mut ring, producer, consumer) = SpscRing::<u64, 16>::with_capacity(3);
    assert_eq!(producer.capacity(&ring), 3);
    assert_eq!(consumer.capacity(&ring), 3);
    for item in 0..3 {
        assert_eq!(producer.push(&mut ring, item).result, Ok(()));
        assert_eq!(producer.buffered_count(&ring) as u64, item + 1);
    }
    assert_eq!(producer.push(&mut ring, 3).result, Err(3));
    assert_eq!(consumer.buffered_count(&ring), 3);
    assert!(!consumer.is_closed(&ring));
}

#[test]
fn item_pushed_just_before_the_end_is_not_lost() {
    // The consumer finds the ring empty; then the producer pushes and goes.
    let mut seen = PopStep::FirstPop.after_pop(None::<u64>);
    assert_eq!(seen, PopNext::Continue(PopStep::FirstCheck));
    seen = PopStep::FirstCheck.after_check(true);
    assert_eq!(seen, PopNext::Continue(PopStep::DrainPop));
    seen = PopStep::DrainPop.after_pop(Some(5));
    assert_eq!(seen, PopNext::Finished(Poll::Ready(Some(5))));

    // The same after the consumer has left its waker behind.
    seen = PopStep::FirstCheck.after_check(false);
    assert_eq!(seen, PopNext::Continue(PopStep::Register));
    seen = PopStep::Register.after_register();
    assert_eq!(seen, PopNext::Continue(PopStep::SecondPop));
    seen = PopStep::SecondPop.after_pop(None);
    assert_eq!(seen, PopNext::Continue(PopStep::SecondCheck));
    seen = PopStep::SecondCheck.after_check(true);
    assert_eq!(seen, PopNext::Continue(PopStep::DrainPop));
    seen = PopStep::DrainPop.after_pop(None);
    assert_eq!(seen, PopNext::Finished(Poll::Ready(None)));
    seen = PopStep::SecondCheck.after_check(false);
    assert_eq!(seen, PopNext::Finished(Poll::Pending));
}

#[test]
fn items_leave_in_the_order_in_which_they_came() {
    let (mut ring, producer, consumer) = SpscRing::<u64, 2>::new();
    let mut put = Vec::new();
    let mut left = Vec::new();
    for round in 0..30_u64 {
        if round % 3 == 0 {
            left.extend(consumer.pop(&mut ring));
        }
        if round % 2 == 0 {
            left.extend(producer.push_overwrite(&mut ring, round).displaced);
            put.push(round);
        } else if producer.push(&mut ring, round).result.is_ok() {
            put.push(round);
        }
    }
    while let Some(item) = consumer.pop(&mut ring) {
        left.push(item);
    }
    assert_eq!(left, put);
}

#[test]
fn empty_open_rings_are_pending_until_the_end() {
    let (mut ring, producer, consumer) = SpscRing::<u64, 1>::new();
    assert_eq!(consumer.pop_async().poll(&mut ring, Waker::noop()), Poll::Pending);
    assert_eq!(consumer.stream().poll_next(&mut ring, Waker::noop()), Poll::Pending);
    assert!(producer.close(&mut ring).is_some());
    assert_eq!(consumer.pop_async().poll(&mut ring, Waker::noop()), Poll::Ready(None));
}

#[test]
fn rings_carry_items_of_any_type() {
    let (mut ring, producer, consumer) = SpscRing::<String, 2>::new();
    assert_eq!(producer.push(&mut ring, "a".to_string()).result, Ok(()));
    assert_eq!(producer.push(&mut ring, "b".to_string()).result, Ok(()));
    assert_eq!(producer.push(&mut ring, "c".to_string()).result, Err("c".to_string()));
    let displaced = producer.push_overwrite(&mut ring, "d".to_string()).displaced;
    assert_eq!(displaced, Some("a".to_string()));
    assert_eq!(
        consumer.poll_pop(&mut ring, Waker::noop()),
        Poll::Ready(Some("b".to_string()))
    );
    assert_eq!(consumer.pop(&mut ring), Some("d".to_string()));

    let (mut ring, producer, consumer) = SpscRing::<(), 1>::new();
    assert_eq!(producer.push(&mut ring, ()).result, Ok(()));
    assert_eq!(producer.push(&mut ring, ()).result, Err(()));
    assert_eq!(consumer.pop(&mut ring), Some(()));
}

#[test]
fn items_are_dropped_once() {
    let item = Arc::new(0_u8);
    let (mut ring, producer, consumer) = SpscRing::<Arc<u8>, 2>::new();
    for _ in 0..3 {
        drop(producer.push_overwrite(&mut ring, Arc::clone(&item)).displaced);
    }
    assert_eq!(Arc::strong_count(&item), 3);
    drop(consumer.pop(&mut ring));
    assert_eq!(Arc::strong_count(&item), 2);
    drop(ring);
    assert_eq!(Arc::strong_count(&item), 1);
}

#[test]
fn rings_are_made_only_of_capacities_that_can_be() {
    assert!(SpscRing::<u8, 4>::try_with_capacity(0).is_none());
    assert!(SpscRing::<u8, 4>::try_with_capacity(5).is_none());
    let (ring, producer, _consumer) = SpscRing::<u8, 4>::try_with_capacity(4).unwrap();
    assert_eq!(producer.capacity(&ring), 4);
    assert_eq!(producer.buffered_count(&ring), 0);

    assert!(SpscRing::<u8, { usize::MAX }>::try_with_capacity(usize::MAX).is_none());
    let most = isize::MAX as usize;
    assert!(can_allocate::<u64>(most / 16));
    assert!(!can_allocate::<u64>(most / 16 + 1));
    assert!(can_allocate::<()>(most / 8));
    assert!(!can_allocate::<()>(most / 8 + 1));
    assert!(can_allocate::<[u8; 9]>(most / 24));
    assert!(!can_allocate::<[u8; 9]>(most / 24 + 1));
}

#[test]
fn producers_call_after_every_change() {
    assert_eq!(PushStep::Push.after(true), Some(PushStep::Call));
    assert_eq!(PushStep::Push.after(false), None);
    assert_eq!(PushStep::Overwrite.after(true), Some(PushStep::Call));
    assert_eq!(PushStep::End.after(true), Some(PushStep::Call));
    assert_eq!(PushStep::Call.after(true), None);
}
