//! Containment of panics. A callback that panics is played by one that returns
//! the payload of its panic as an error.
use std::any::Any;
use std::sync::atomic::{AtomicBool, AtomicUsize, Ordering};
use std::sync::Arc;

use doom_fish_utils::panic_safe::{
    after_callback, after_destruction, catch_user_panic, catch_user_panic_result,
    catch_user_panic_result_with_cleanup, log_callback_panic, CleanupPhase, CleanupRun,
    CleanupVerdict, Containment, PayloadStage, PayloadText,
};

type Payload = Box<dyn Any + Send>;

fn destroy(payload: Payload) -> Result<(), Payload> {
    if payload.is::<PanicOnDrop>() {
        return Err(Box::new("panic while dropping panic payload"));
    }
    drop(payload);
    Ok(())
}

fn contain<F: FnOnce() -> Result<(), Payload>>(f: F) {
    std::mem::forget(catch_user_panic(f(), destroy));
}

fn contain_result<R, F: FnOnce() -> Result<R, Payload>>(f: F) -> Option<R> {
    let contained = catch_user_panic_result(f(), destroy);
    std::mem::forget(contained.leaked);
    contained.returned
}

fn contain_with_cleanup<S, R, F, C, D>(
    mut state: S,
    mut f: F,
    mut cleanup: C,
    drop_callback: D,
) -> Option<R>
where
    F: FnMut(&mut S) -> Result<R, Payload>,
    C: FnMut(&mut S) -> Result<(), Payload>,
    D: FnOnce(F) -> Result<(), Payload>,
{
    let run = CleanupRun::new();
    assert_eq!(run.phase(), CleanupPhase::RunCallback);
    let run = run.callback_done(contain_result(|| f(&mut state)));
    assert_eq!(run.phase(), CleanupPhase::RunCleanup);
    let run = run.phase_done(contain_result(|| cleanup(&mut state)).is_some());
    assert_eq!(run.phase(), CleanupPhase::DropCallback);
    let run = run.phase_done(contain_result(|| drop_callback(f)).is_some());
    assert_eq!(run.phase(), CleanupPhase::DropCleanup);
    drop(cleanup);
    let run = run.phase_done(true);
    assert_eq!(run.phase(), CleanupPhase::DropState);
    drop(state);
    let run = run.phase_done(true);
    assert_eq!(run.phase(), CleanupPhase::Finished);
    match run.finish() {
        CleanupVerdict::Return(result) => result,
        CleanupVerdict::DestroyResult(result) => {
            drop(result);
            None
        }
    }
}

struct DropFlag(Arc<AtomicBool>);

impl Drop for DropFlag {
    fn drop(&mut self) {
        self.0.store(true, Ordering::SeqCst);
    }
}

struct PanicOnDrop;

#[test]
fn normal_panic_payload_is_dropped() {
    let dropped = Arc::new(AtomicBool::new(false));
    let payload = DropFlag(Arc::clone(&dropped));

    contain(move || Err(Box::new(payload)));

    assert!(dropped.load(Ordering::SeqCst));
}

#[test]
fn result_helper_preserves_success_and_maps_panic_to_none() {
    assert_eq!(contain_result(|| Ok(42)), Some(42));
    assert_eq!(
        contain_result(|| -> Result<u32, Payload> { Err(Box::new("result callback panic")) }),
        None
    );
}

#[test]
fn cleanup_helper_preserves_successful_result() {
    let cleanup_ran = Arc::new(AtomicBool::new(false));
    let cleanup_ran_in_closure = Arc::clone(&cleanup_ran);

    let result = contain_with_cleanup(
        40_u32,
        |state| Ok(*state + 2),
        move |_state| {
            cleanup_ran_in_closure.store(true, Ordering::SeqCst);
            Ok(())
        },
        |f| {
            drop(f);
            Ok(())
        },
    );

    assert_eq!(result, Some(42));
    assert!(cleanup_ran.load(Ordering::SeqCst));
}

#[test]
fn captured_release_runs_during_callback_unwind() {
    let released = Arc::new(AtomicBool::new(false));
    let guard = DropFlag(Arc::clone(&released));

    contain(move || {
        let _guard = guard;
        Err(Box::new("callback panic"))
    });

    assert!(released.load(Ordering::SeqCst));
}

#[test]
fn single_panic_payload_destructor_is_contained() {
    assert_eq!(
        contain_result(|| -> Result<u32, Payload> { Err(Box::new(PanicOnDrop)) }),
        None
    );
}

#[test]
fn cleanup_runs_before_single_callback_closure_drop_panic() {
    let sequence = Arc::new(AtomicUsize::new(0));
    let cleanup_order = Arc::new(AtomicUsize::new(0));
    let drop_order = Arc::new(AtomicUsize::new(0));
    let cleanup_sequence = Arc::clone(&sequence);
    let cleanup_order_in_closure = Arc::clone(&cleanup_order);
    let drop_sequence = Arc::clone(&sequence);
    let drop_order_in_closure = Arc::clone(&drop_order);

    let result = contain_with_cleanup(
        (),
        move |_state| -> Result<u32, Payload> { Err(Box::new("callback panic")) },
        move |_state| {
            let order = cleanup_sequence.fetch_add(1, Ordering::SeqCst) + 1;
            cleanup_order_in_closure.store(order, Ordering::SeqCst);
            Ok(())
        },
        move |_f| {
            let order = drop_sequence.fetch_add(1, Ordering::SeqCst) + 1;
            drop_order_in_closure.store(order, Ordering::SeqCst);
            Err(Box::new("single callback closure drop panic"))
        },
    );

    assert_eq!(result, None);
    assert_eq!(cleanup_order.load(Ordering::SeqCst), 1);
    assert_eq!(drop_order.load(Ordering::SeqCst), 2);
}

#[test]
fn failed_later_phase_destroys_the_result() {
    let dropped = Arc::new(AtomicBool::new(false));
    let flag = Arc::clone(&dropped);

    let result = contain_with_cleanup(
        (),
        move |_state| Ok(DropFlag(Arc::clone(&flag))),
        |_state| Err(Box::new("cleanup panic")),
        |f| {
            drop(f);
            Ok(())
        },
    );

    assert!(result.is_none());
    assert!(dropped.load(Ordering::SeqCst));
}

#[test]
fn every_later_phase_is_needed_for_the_result() {
    for failed in 0..4 {
        let ok = |phase: usize| phase != failed;
        assert_eq!(
            catch_user_panic_result_with_cleanup(Some(7), ok(0), ok(1), ok(2), ok(3)),
            CleanupVerdict::DestroyResult(7)
        );
        assert_eq!(
            catch_user_panic_result_with_cleanup(None::<u32>, ok(0), ok(1), ok(2), ok(3)),
            CleanupVerdict::Return(None)
        );
    }
    assert_eq!(
        catch_user_panic_result_with_cleanup(Some(7), true, true, true, true),
        CleanupVerdict::Return(Some(7))
    );
}

#[test]
fn boundary_decisions_go_no_further_than_the_second_payload() {
    assert_eq!(after_callback::<u32, u8>(Ok(5)), Containment::Return(Some(5)));
    assert_eq!(
        after_callback::<u32, u8>(Err(1)),
        Containment::ReportAndDestroy(PayloadStage::Callback, 1)
    );
    assert_eq!(
        after_destruction::<u32, u8>(PayloadStage::Callback, Ok(())),
        Containment::Return(None)
    );
    assert_eq!(
        after_destruction::<u32, u8>(PayloadStage::Callback, Err(2)),
        Containment::ReportAndDestroy(PayloadStage::Destruction, 2)
    );
    assert_eq!(
        after_destruction::<u32, u8>(PayloadStage::Destruction, Ok(())),
        Containment::Return(None)
    );
    assert_eq!(
        after_destruction::<u32, u8>(PayloadStage::Destruction, Err(3)),
        Containment::Leak(3)
    );
}

#[test]
fn boundary_leaves_the_third_payload_alone() {
    let contained = catch_user_panic_result(Err::<u32, u8>(1), |payload| Err(payload + 1));
    assert_eq!(contained.returned, None);
    assert_eq!(contained.leaked, Some(3));

    let contained = catch_user_panic_result(Ok::<u32, u8>(9), |payload| Err(payload + 1));
    assert_eq!(contained.returned, Some(9));
    assert_eq!(contained.leaked, None);
}

#[test]
fn reports_name_the_callback_and_the_message() {
    assert_eq!(
        log_callback_panic("hit", PayloadText::Literal("oh")),
        "doom-fish-utils: panic in hit caught at C ABI boundary: oh"
    );
    assert_eq!(
        log_callback_panic("a b", PayloadText::Owned(&"no room".to_string())),
        "doom-fish-utils: panic in a b caught at C ABI boundary: no room"
    );
    assert_eq!(
        log_callback_panic("", PayloadText::Opaque),
        "doom-fish-utils: panic in  caught at C ABI boundary: <non-string panic payload>"
    );
}
