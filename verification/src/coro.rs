//! The suspendable execution context underneath every abstraction of this
//! crate: a stackful coroutine of the `corosensei` crate, wrapped together
//! with a flag that mirrors whether it has finished executing.
//!
//! `corosensei::Coroutine::resume` panics when the coroutine has already
//! finished, so every resume in this crate goes through [`resume`], whose
//! precondition excludes exactly that case; the `finished` flag is the
//! crate's record of it.

use vstd::prelude::*;

verus! {

#[verifier::external_type_specification]
#[verifier::external_body]
#[verifier::reject_recursive_types(Input)]
#[verifier::reject_recursive_types(Yield)]
pub struct ExYielder<Input, Yield>(corosensei::Yielder<Input, Yield>);

/// Holds the underlying `corosensei::Coroutine`.  Its type cannot be stated
/// to the verifier (its stack parameter is bound by an outside trait), so
/// the whole handle is opaque; the crate reads nothing of it directly.
#[verifier::external_body]
#[verifier::reject_recursive_types(I)]
#[verifier::reject_recursive_types(Y)]
#[verifier::reject_recursive_types(R)]
pub struct CoroHandle<I, Y, R> {
    pub(crate) inner: corosensei::Coroutine<I, Y, R>,
}

/// What one resume of a suspendable execution context produced: either the
/// context suspended with a value, or it ran to completion with its result.
pub enum ResumeOutcome<Y, R> {
    Yielded(Y),
    Returned(R),
}

/// A suspendable execution context with resume-input `I`, suspend-value `Y`
/// and result `R`, together with the crate's record of whether it has
/// finished executing.
#[verifier::reject_recursive_types(I)]
#[verifier::reject_recursive_types(Y)]
#[verifier::reject_recursive_types(R)]
pub struct Coro<I, Y, R> {
    handle: CoroHandle<I, Y, R>,
    finished: bool,
}

impl<I, Y, R> Coro<I, Y, R> {
    /// True once the context has run to completion; a completed context can
    /// never be resumed again.
    pub closed spec fn done(self) -> bool {
        self.finished
    }

    /// Wraps a freshly created coroutine, which has not started yet.
    pub(crate) fn from_handle(handle: CoroHandle<I, Y, R>) -> (c: Self)
        ensures
            !c.done(),
    {
        Coro { handle, finished: false }
    }

    /// Executable mirror of [`Self::done`].
    pub fn is_done(&self) -> (r: bool)
        ensures
            r == self.done(),
    {
        self.finished
    }
}

/// Resumes the context with `input`, handing back either the value it next
/// suspends with or its final result.
///
/// Relies on `corosensei::Coroutine::resume`: it returns `Yield` when the
/// coroutine suspends and `Return` when it runs to completion, and panics
/// only on a coroutine that has already finished, which the precondition
/// excludes.  The `finished` flag records exactly whether this resume
/// reached completion.  A panic inside the entry routine propagates to the
/// caller of this resume as its own failure; the engine then counts the
/// coroutine as finished, so `finished` is set before the call and cleared
/// again only on a suspension — an owner kept across such a panic sees a
/// done context, never a second resume of a finished one.
#[verifier::external_body]
pub(crate) fn resume<I, Y, R>(c: &mut Coro<I, Y, R>, input: I) -> (r: ResumeOutcome<Y, R>)
    requires
        !old(c).done(),
    ensures
        final(c).done() == (r is Returned),
{
    c.finished = true;
    match c.handle.inner.resume(input) {
        corosensei::CoroutineResult::Yield(v) => {
            c.finished = false;
            ResumeOutcome::Yielded(v)
        },
        corosensei::CoroutineResult::Return(v) => ResumeOutcome::Returned(v),
    }
}

} // verus!
