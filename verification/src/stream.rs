//! A bidirectional value generator: the producer's logic runs as the entry
//! routine of a suspendable execution context, and every advance of the
//! stream resumes it with an input and hands back either the next emitted
//! value, the final result, or a terminal signal once exhausted.

use vstd::prelude::*;

use crate::coro::{resume, Coro, CoroHandle, ResumeOutcome};

verus! {

/// Creates a new stream. A stream has one producer and (typically) one
/// consumer.  The producer function does not run yet: it starts on the
/// first call to [`Stream::next`].
pub fn new_stream<F, I, T, R>(function: F) -> (s: Stream<I, T, R>)
    where
        F: FnOnce(StreamContext<'_, I, T>) -> R + 'static,
        I: 'static,
        T: 'static,
        R: 'static,
    ensures
        !s.completed(),
{
    let handle = spawn_producer(function);
    Stream { coroutine: Coro::from_handle(handle) }
}

/// Relies on `corosensei::Coroutine::new`: the returned coroutine runs the
/// given closure on its own stack once it is first resumed, and has not
/// started yet.  The closure only builds the producer's context around the
/// suspend-handle and calls the caller's function on it.
#[verifier::external_body]
fn spawn_producer<F, I, T, R>(function: F) -> (h: CoroHandle<I, T, R>)
    where
        F: FnOnce(StreamContext<'_, I, T>) -> R + 'static,
        I: 'static,
        T: 'static,
        R: 'static,
{
    CoroHandle {
        inner: corosensei::Coroutine::new(|yielder, _| {
            function(StreamContext { yielder })
        }),
    }
}

/// The producer's handle on its own suspended execution: emitting a value
/// suspends the producer until the consumer advances the stream again.
#[verifier::reject_recursive_types(I)]
#[verifier::reject_recursive_types(T)]
pub struct StreamContext<'a, I, T> {
    yielder: &'a corosensei::Yielder<I, T>,
}

impl<'a, I, T> StreamContext<'a, I, T> {
    /// Suspends the producer with `value`; returns the input that the next
    /// call to [`Stream::next`] supplies.
    ///
    /// Relies on `corosensei::Yielder::suspend`: it hands `value` to the
    /// resume that is currently driving this coroutine and returns the
    /// input of the following resume.
    #[verifier::external_body]
    pub fn emit(&self, value: T) -> I {
        self.yielder.suspend(value)
    }
}

/// A stream with consumer-supplied input `I`, emitted values `T` and final
/// result `R`; the exclusive owner of the producer's execution context.
#[verifier::reject_recursive_types(I)]
#[verifier::reject_recursive_types(T)]
#[verifier::reject_recursive_types(R)]
pub struct Stream<I, T, R> {
    coroutine: Coro<I, T, R>,
}

impl<I, T, R> Stream<I, T, R> {
    /// True once the producer has returned: every later [`Self::next`]
    /// call answers `Completed` without resuming anything.
    pub closed spec fn completed(self) -> bool {
        self.coroutine.done()
    }

    /// Executable mirror of [`Self::completed`].
    pub fn is_completed(&self) -> (r: bool)
        ensures
            r == self.completed(),
    {
        self.coroutine.is_done()
    }

    /// Advances the stream, resuming the producer with `input`.
    ///
    /// On a completed stream this returns `Completed` without touching the
    /// producer's context.  Otherwise the producer runs until it emits
    /// (`Next`) or returns (`Last`); `Last` marks the stream completed for
    /// every later call, and `Completed` is never the first answer out of a
    /// live stream.
    pub fn next(&mut self, input: I) -> (r: StreamResult<T, R>)
        ensures
            old(self).completed() ==> r is Completed && *final(self) == *old(self),
            !old(self).completed() ==> !(r is Completed),
            final(self).completed() == !(r is Next),
    {
        if self.coroutine.is_done() {
            StreamResult::Completed
        } else {
            match resume(&mut self.coroutine, input) {
                ResumeOutcome::Yielded(value) => StreamResult::Next(value),
                ResumeOutcome::Returned(value) => StreamResult::Last(value),
            }
        }
    }
}

/// What one advance of a stream produced.
#[derive(Debug, PartialEq, Eq, Clone, Hash, Ord, PartialOrd)]
pub enum StreamResult<T, R> {
    /// A new value from the stream.
    Next(T),
    /// The last value from the stream.
    Last(R),
    /// There are no more values this stream can produce.
    Completed,
}

} // verus!
