use std::future::Future;
use std::pin::Pin;
use std::sync::atomic::{AtomicUsize, Ordering};
use std::sync::Arc;
use std::task::{Context, Poll, Waker};

use corofuture::{await_future, AwaitContext, CoroutineFuture, PollOutcome};

struct NoopWake;

impl std::task::Wake for NoopWake {
    fn wake(self: Arc<Self>) {}
}

fn test_waker() -> Waker {
    Waker::from(Arc::new(NoopWake))
}

/// A future that answers `Pending` a fixed number of times before `Ready`.
struct Countdown {
    remaining: usize,
    value: i64,
}

impl Future for Countdown {
    type Output = i64;

    fn poll(mut self: Pin<&mut Self>, _cx: &mut Context<'_>) -> Poll<i64> {
        if self.remaining == 0 {
            Poll::Ready(self.value)
        } else {
            self.remaining -= 1;
            Poll::Pending
        }
    }
}

struct DropCounter(Arc<AtomicUsize>);

impl Drop for DropCounter {
    fn drop(&mut self) {
        self.0.fetch_add(1, Ordering::SeqCst);
    }
}

#[test]
fn ready_value_matches_direct_call() {
    let mut unit = CoroutineFuture::new(|_context: AwaitContext| 21 * 2);
    match unit.poll_step(test_waker()) {
        PollOutcome::Ready(value) => assert_eq!(value, 42),
        PollOutcome::Pending => panic!("a computation with no waits must finish on the first poll"),
    }
}

#[test]
fn awaited_value_matches_inner_future() {
    let mut unit = CoroutineFuture::new(|mut context: AwaitContext| {
        await_future(&mut context, Countdown { remaining: 3, value: 7 })
    });
    let mut pendings: usize = 0;
    loop {
        match unit.poll_step(test_waker()) {
            PollOutcome::Pending => pendings += 1,
            PollOutcome::Ready(value) => {
                assert_eq!(value, 7);
                break;
            }
        }
        assert!(pendings < 100, "the unit never became ready");
    }
    assert_eq!(pendings, 3);
}

#[test]
fn round_trips_sum_over_sequential_awaits() {
    let mut unit = CoroutineFuture::new(|mut context: AwaitContext| {
        let a = await_future(&mut context, Countdown { remaining: 2, value: 5 });
        let b = await_future(&mut context, Countdown { remaining: 3, value: 11 });
        a + b
    });
    let mut pendings: usize = 0;
    loop {
        match unit.poll_step(test_waker()) {
            PollOutcome::Pending => pendings += 1,
            PollOutcome::Ready(value) => {
                assert_eq!(value, 16);
                break;
            }
        }
        assert!(pendings < 100, "the unit never became ready");
    }
    assert_eq!(pendings, 2 + 3);
}

#[test]
fn never_polled_unit_runs_no_entry_code() {
    let runs = Arc::new(AtomicUsize::new(0));
    let runs_inside = runs.clone();
    let unit = CoroutineFuture::new(move |_context: AwaitContext| {
        runs_inside.fetch_add(1, Ordering::SeqCst);
    });
    drop(unit);
    assert_eq!(runs.load(Ordering::SeqCst), 0);
}

#[test]
fn dropped_while_suspended_runs_teardown_exactly_once() {
    let drops = Arc::new(AtomicUsize::new(0));
    let drops_inside = drops.clone();
    let mut unit = CoroutineFuture::new(move |mut context: AwaitContext| {
        let _guard = DropCounter(drops_inside);
        await_future(&mut context, Countdown { remaining: 1000, value: 0 })
    });
    assert!(matches!(unit.poll_step(test_waker()), PollOutcome::Pending));
    assert_eq!(drops.load(Ordering::SeqCst), 0);
    drop(unit);
    assert_eq!(drops.load(Ordering::SeqCst), 1);
}

#[test]
fn independent_units_progress_interleaved() {
    fn entry(mut context: AwaitContext) -> i64 {
        await_future(&mut context, Countdown { remaining: 4, value: 9 })
    }
    let mut first = CoroutineFuture::new(entry);
    let mut second = CoroutineFuture::new(entry);
    let mut third = CoroutineFuture::new(entry);
    for _ in 0..4 {
        assert!(matches!(first.poll_step(test_waker()), PollOutcome::Pending));
        assert!(matches!(second.poll_step(test_waker()), PollOutcome::Pending));
        assert!(matches!(third.poll_step(test_waker()), PollOutcome::Pending));
    }
    assert!(matches!(first.poll_step(test_waker()), PollOutcome::Ready(9)));
    assert!(matches!(second.poll_step(test_waker()), PollOutcome::Ready(9)));
    assert!(matches!(third.poll_step(test_waker()), PollOutcome::Ready(9)));
}

#[test]
fn completion_is_observable() {
    let mut unit = CoroutineFuture::new(|_context: AwaitContext| 1);
    assert!(!unit.is_completed());
    assert!(matches!(unit.poll_step(test_waker()), PollOutcome::Ready(1)));
    assert!(unit.is_completed());
}
