//! The life of callback contexts on concrete values.
use std::sync::atomic::{AtomicBool, AtomicUsize, Ordering};
use std::sync::{Arc, Mutex};

use doom_fish_utils::callback_context::{may_run, CallbackContext};

struct Counted {
    drops: Arc<AtomicUsize>,
    hits: AtomicUsize,
}

impl Drop for Counted {
    fn drop(&mut self) {
        self.drops.fetch_add(1, Ordering::SeqCst);
    }
}

type CountedContext = CallbackContext<Counted>;

fn counted() -> (CountedContext, Arc<AtomicUsize>) {
    let drops = Arc::new(AtomicUsize::new(0));
    let context = CallbackContext::new(Counted {
        drops: Arc::clone(&drops),
        hits: AtomicUsize::new(0),
    });
    (context, drops)
}

fn hit(context: &CountedContext) -> Option<usize> {
    CountedContext::with(Some(context), |counted| {
        Some(counted.hits.fetch_add(1, Ordering::SeqCst) + 1)
    })
}

#[test]
fn retain_and_release_are_balanced() {
    let (mut context, drops) = counted();

    for _ in 0..8 {
        CountedContext::retain(Some(&mut context));
    }
    assert_eq!(context.strong_count(), 9);
    for _ in 0..8 {
        assert!(CountedContext::release(Some(&mut context)).is_none());
    }

    assert_eq!(drops.load(Ordering::SeqCst), 0);
    assert!(context.is_active());
    assert_eq!(hit(&context), Some(1));

    drop(context.drop_handle());
    assert_eq!(drops.load(Ordering::SeqCst), 1);
}

#[test]
fn value_survives_rust_handle_drop_while_retained() {
    let (mut context, drops) = counted();
    CountedContext::retain(Some(&mut context));
    assert_eq!(hit(&context), Some(1));
    assert_eq!(hit(&context), Some(2));

    drop(context.drop_handle());

    assert_eq!(drops.load(Ordering::SeqCst), 0);
    assert!(!context.is_active());
    assert_eq!(context.get().hits.load(Ordering::SeqCst), 2);
    assert_eq!(hit(&context), None);

    drop(CountedContext::release(Some(&mut context)));
    assert_eq!(drops.load(Ordering::SeqCst), 1);
}

#[test]
fn release_frees_the_value_at_zero() {
    let (mut context, drops) = counted();
    CountedContext::retain(Some(&mut context));
    CountedContext::retain(Some(&mut context));

    drop(context.drop_handle());
    assert_eq!(drops.load(Ordering::SeqCst), 0);

    drop(CountedContext::release(Some(&mut context)));
    assert_eq!(drops.load(Ordering::SeqCst), 0);

    drop(CountedContext::release(Some(&mut context)));
    assert_eq!(drops.load(Ordering::SeqCst), 1);
}

#[test]
fn with_skips_null_and_deactivated_contexts() {
    let (mut context, drops) = counted();
    let called = AtomicBool::new(false);

    let null = CountedContext::with(None, |_| {
        called.store(true, Ordering::SeqCst);
        Some(())
    });
    assert_eq!(null, None);
    CountedContext::retain(None);
    assert!(CountedContext::release(None).is_none());

    assert_eq!(hit(&context), Some(1));

    context.deactivate();
    assert!(!context.is_active());
    let inactive = CountedContext::with(Some(&context), |_| {
        called.store(true, Ordering::SeqCst);
        Some(())
    });
    assert_eq!(inactive, None);
    assert!(!called.load(Ordering::SeqCst));
    assert_eq!(context.get().hits.load(Ordering::SeqCst), 1);

    drop(context.drop_handle());
    assert_eq!(drops.load(Ordering::SeqCst), 1);
}

#[test]
fn panic_inside_callback_is_contained() {
    let (context, _drops) = counted();

    let result = CountedContext::with(Some(&context), |_| None::<usize>);

    assert_eq!(result, None);
    assert!(context.is_active());
    assert_eq!(hit(&context), Some(1));
}

#[test]
fn concurrent_with_calls_from_several_threads() {
    const THREADS: usize = 8;
    const CALLS: usize = 2_000;

    let (mut context, drops) = counted();
    for _ in 0..THREADS {
        CountedContext::retain(Some(&mut context));
    }
    for _ in 0..CALLS {
        for _ in 0..THREADS {
            assert!(hit(&context).is_some());
        }
    }
    for _ in 0..THREADS {
        assert!(CountedContext::release(Some(&mut context)).is_none());
    }

    assert_eq!(context.get().hits.load(Ordering::SeqCst), THREADS * CALLS);
    assert_eq!(drops.load(Ordering::SeqCst), 0);
    drop(context.drop_handle());
    assert_eq!(drops.load(Ordering::SeqCst), 1);
}

#[test]
fn callbacks_run_only_in_active_contexts() {
    assert!(may_run(Some(true)));
    assert!(!may_run(Some(false)));
    assert!(!may_run(None));
}

type Handler = Mutex<Box<dyn FnMut(u32) + Send>>;

fn deliver(context: &CallbackContext<Handler>, value: u32) {
    let _ = CallbackContext::with(Some(context), |handler: &Handler| {
        let mut handler = handler.lock().unwrap();
        handler(value);
        Some(())
    });
}

#[test]
fn closure_context_follows_the_foreign_owner_lifecycle() {
    let received = Arc::new(Mutex::new(Vec::new()));
    let sink = Arc::clone(&received);
    let handler: Handler = Mutex::new(Box::new(move |value| {
        sink.lock().unwrap().push(value);
    }));
    let mut context = CallbackContext::new(handler);
    CallbackContext::retain(Some(&mut context));

    deliver(&context, 1);
    deliver(&context, 2);
    drop(context.drop_handle());
    deliver(&context, 3);
    assert_eq!(Arc::strong_count(&received), 2);

    drop(CallbackContext::release(Some(&mut context)));
    assert_eq!(Arc::strong_count(&received), 1);
    assert_eq!(*received.lock().unwrap(), vec![1, 2]);
}
