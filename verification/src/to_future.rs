//! The adapter between a direct-style computation and the host executor's
//! poll contract: each poll resumes (or, on the first poll, creates and
//! starts) the computation's coroutine, translating a suspension into
//! `Pending` and completion into `Ready` with the result.

use vstd::prelude::*;
use vstd::pervasive::unreached;

use crate::await_future::{AwaitContext, PollOutcome};
use crate::coro::{resume, Coro, CoroHandle, ResumeOutcome};

verus! {

/// A unit pollable by the host executor, wrapping the direct-style entry
/// function `F`.  The coroutine that runs the function is created lazily,
/// on the first poll: a unit that is never polled never runs any part of
/// its entry routine.
#[verifier::reject_recursive_types(R)]
#[verifier::reject_recursive_types(F)]
pub struct CoroutineFuture<R, F> {
    coroutine: Option<Coro<core::task::Waker, (), R>>,
    function: Option<F>,
}

impl<R, F> CoroutineFuture<R, F> where
    F: FnOnce(AwaitContext<'_>) -> R + 'static,
    R: 'static,
 {
    /// Exactly one of the entry function and the coroutine exists: the
    /// function until the first poll, the coroutine from then on.
    pub closed spec fn wf(self) -> bool {
        self.function is Some <==> self.coroutine is None
    }

    /// True from the first poll on: the entry routine has been started
    /// inside its own execution context.
    pub closed spec fn started(self) -> bool {
        self.function is None
    }

    /// The entry function, as long as it has not started.
    pub closed spec fn entry(self) -> Option<F> {
        self.function
    }

    /// True once a poll has answered `Ready`: the entry routine has run to
    /// completion, and the unit may not be polled again.
    pub closed spec fn completed(self) -> bool {
        match self.coroutine {
            Some(c) => c.done(),
            None => false,
        }
    }

    /// Wraps `function` into a pollable unit.  Nothing runs yet: the
    /// function is only stored, and no execution context exists until the
    /// first poll, so a unit dropped before any poll has run no entry code
    /// and owns no resources of it.
    pub fn new(function: F) -> (unit: Self)
        ensures
            unit.wf(),
            !unit.started(),
            !unit.completed(),
            unit.entry() == Some(function),
    {
        CoroutineFuture { coroutine: None, function: Some(function) }
    }

    /// Executable mirror of [`Self::completed`].
    pub fn is_completed(&self) -> (r: bool)
        ensures
            r == self.completed(),
    {
        match &self.coroutine {
            Some(c) => c.is_done(),
            None => false,
        }
    }

    /// One poll of the unit, with the waker of the driving poll: on the
    /// first call it creates the coroutine and starts the entry routine,
    /// on every call it resumes the coroutine until the next suspension
    /// (`Pending`) or its completion (`Ready` with the result).  Polling a
    /// completed unit is a contract violation of the host executor and is
    /// excluded here.
    pub fn poll_step(&mut self, waker: core::task::Waker) -> (r: PollOutcome<R>)
        requires
            old(self).wf(),
            !old(self).completed(),
        ensures
            final(self).wf(),
            final(self).started(),
            (r is Ready) == final(self).completed(),
    {
        let function = self.function.take();
        if let Some(function) = function {
            let handle = spawn_entry(function);
            self.coroutine = Some(Coro::from_handle(handle));
        }
        match &mut self.coroutine {
            Some(coroutine) => match resume(coroutine, waker) {
                ResumeOutcome::Yielded(_) => PollOutcome::Pending,
                ResumeOutcome::Returned(result) => PollOutcome::Ready(result),
            },
            None => unreached(),
        }
    }
}

/// Relies on `corosensei::Coroutine::new`: the returned coroutine runs the
/// given closure on its own stack once it is first resumed, and has not
/// started yet.  The closure only builds the await context from the
/// suspend-handle and the first poll's waker, and calls the caller's
/// function on it.
#[verifier::external_body]
fn spawn_entry<R, F>(function: F) -> (h: CoroHandle<core::task::Waker, (), R>)
    where
        F: FnOnce(AwaitContext<'_>) -> R + 'static,
        R: 'static,
{
    CoroHandle {
        inner: corosensei::Coroutine::new(|yielder, waker| {
            function(AwaitContext::new(yielder, waker))
        }),
    }
}

} // verus!
