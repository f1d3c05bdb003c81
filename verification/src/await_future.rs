//! Awaiting an asynchronous operation from inside a coroutine: the inner
//! future is polled with the waker of the poll currently driving the
//! coroutine, and between a `Pending` answer and the next poll the
//! coroutine itself is suspended.

use vstd::prelude::*;

use crate::thread_local_waker::ThreadLocalWaker;
use crate::thread_local_yielder::{ThreadLocalYielder, UnitYielder};

verus! {

#[verifier::external_type_specification]
#[verifier::external_body]
#[verifier::reject_recursive_types(Ptr)]
pub struct ExPin<Ptr>(core::pin::Pin<Ptr>);

/// The poll contract's two answers: the final value, or not yet.
pub enum PollOutcome<T> {
    Ready(T),
    Pending,
}

/// What code running inside a coroutine created by
/// [`CoroutineFuture`](crate::CoroutineFuture) holds of its surroundings:
/// the waker of the poll currently driving it, and its own suspend-handle.
/// It is handed to the entry function and passed down to every
/// [`await_future`] call.
pub struct AwaitContext<'a> {
    waker: ThreadLocalWaker,
    yielder: ThreadLocalYielder<'a>,
}

impl<'a> AwaitContext<'a> {
    /// Both slots are populated: a poll is driving this coroutine, and the
    /// suspend-handle belongs to it.  This holds from the entry routine's
    /// first instruction to its return, emptied and refilled only across
    /// the suspension inside [`await_future`].
    pub closed spec fn wf(self) -> bool {
        self.waker.present() && self.yielder.present()
    }

    /// The waker slot's content: the waker of the poll driving now.
    pub closed spec fn held_waker(self) -> Option<core::task::Waker> {
        self.waker.held()
    }

    /// The yielder slot's content: this coroutine's own suspend-handle.
    pub closed spec fn held_yielder(self) -> Option<&'a UnitYielder> {
        self.yielder.held()
    }

    /// The context of a coroutine that a first poll has just started
    /// driving: its suspend-handle, and that poll's waker, each registered
    /// in its slot.
    pub fn new(yielder: &'a UnitYielder, waker: core::task::Waker) -> (c: Self)
        ensures
            c.wf(),
            c.held_waker() == Some(waker),
            c.held_yielder() == Some(yielder),
    {
        AwaitContext {
            waker: ThreadLocalWaker::holding(waker),
            yielder: ThreadLocalYielder::holding(yielder),
        }
    }
}

/// Awaits `future` from inside a coroutine's entry routine, suspending the
/// enclosing coroutine between polls; returns the future's final value.
///
/// Each `Pending` answer of the inner future costs exactly one
/// suspend/resume round-trip of the enclosing coroutine: the waker slot is
/// emptied for the span of the suspension and refilled with the fresh
/// waker that the next poll's resume carries in.  The cooperative
/// round-trips are counted in a machine word, which gives the loop its
/// termination measure; in the impossible case that the count overflows,
/// the wait falls back to blocking the thread until the future is ready —
/// a concession to that measure, which still returns the future's final
/// value.
pub fn await_future<O, F: core::future::Future<Output = O>>(
    context: &mut AwaitContext<'_>,
    future: F,
) -> (value: O)
    requires
        old(context).wf(),
    ensures
        final(context).wf(),
{
    let mut pinned = pin_box(future);
    let mut rounds_left: u64 = u64::MAX;
    loop
        invariant
            context.wf(),
        decreases rounds_left,
    {
        let outcome = poll_pinned(&mut pinned, context.waker.get_expect_present());
        match outcome {
            PollOutcome::Ready(value) => {
                return value;
            },
            PollOutcome::Pending => {
                if rounds_left == 0 {
                    return block_until_ready(&mut pinned);
                }
                rounds_left = rounds_left - 1;
                let yielder = context.yielder.get_expect_present();
                context.waker.remove();
                let fresh_waker = suspend_round(yielder);
                context.waker.set(fresh_waker);
            },
        }
    }
}

/// Relies on `pollster::block_on`: it drives the future on the calling
/// thread, parking the thread between polls, and returns the future's
/// final value.
#[verifier::external_body]
fn block_until_ready<O, F: core::future::Future<Output = O>>(
    future: &mut core::pin::Pin<std::boxed::Box<F>>,
) -> O {
    pollster::block_on(future)
}

/// Relies on `Box::pin` of std: it moves the future to the heap and pins
/// it there, so that it can be polled in place.
#[verifier::external_body]
fn pin_box<F>(future: F) -> core::pin::Pin<std::boxed::Box<F>> {
    std::boxed::Box::pin(future)
}

/// Relies on `Future::poll` of the pinned inner future, through a task
/// context made of the given waker with `core::task::Context::from_waker`:
/// the poll answers either `Ready` with the final value or `Pending`, and
/// nothing of the choice can be stated here, as it is the inner future's
/// own.
#[verifier::external_body]
fn poll_pinned<O, F: core::future::Future<Output = O>>(
    future: &mut core::pin::Pin<std::boxed::Box<F>>,
    waker: &core::task::Waker,
) -> PollOutcome<O> {
    let mut task_context = core::task::Context::from_waker(waker);
    match future.as_mut().poll(&mut task_context) {
        core::task::Poll::Ready(value) => PollOutcome::Ready(value),
        core::task::Poll::Pending => PollOutcome::Pending,
    }
}

/// Relies on `corosensei::Yielder::suspend`: it hands control back to the
/// resume currently driving this coroutine, and returns the input of the
/// following resume, which by this crate's protocol is that poll's fresh
/// waker.
#[verifier::external_body]
fn suspend_round(yielder: &UnitYielder) -> core::task::Waker {
    yielder.suspend(())
}

} // verus!
