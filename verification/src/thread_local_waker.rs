//! The slot that holds the waker of the poll currently driving a coroutine.
//!
//! The slot lives in the context owned by the coroutine's own call frame
//! and is handed down explicitly to the code that needs it, so no
//! process-wide state is involved.  Its discipline is unchanged: it is
//! populated just before the entry routine runs or resumes, read only while
//! the coroutine is running, and emptied for the span of a suspension.

use vstd::prelude::*;

verus! {

#[verifier::external_type_specification]
#[verifier::external_body]
pub struct ExWaker(core::task::Waker);

/// At most one waker: the one of the poll currently driving this context.
pub struct ThreadLocalWaker {
    waker: Option<core::task::Waker>,
}

impl ThreadLocalWaker {
    /// The waker the slot holds, if any.
    pub closed spec fn held(self) -> Option<core::task::Waker> {
        self.waker
    }

    /// True while a poll's waker is registered in the slot.
    pub open spec fn present(self) -> bool {
        self.held() is Some
    }

    /// A slot already holding the waker of the poll now driving.
    pub fn holding(waker: core::task::Waker) -> (s: Self)
        ensures
            s.held() == Some(waker),
    {
        ThreadLocalWaker { waker: Some(waker) }
    }

    /// Registers the waker of the poll now driving: the slot then holds
    /// exactly that waker, whatever it held before.
    pub fn set(&mut self, waker: core::task::Waker)
        ensures
            final(self).held() == Some(waker),
    {
        self.waker = Some(waker);
    }

    /// Empties the slot: no poll is driving until the next resume.
    pub fn remove(&mut self)
        ensures
            final(self).held() is None,
    {
        self.waker = None;
    }

    /// The registered waker — the one the slot holds; asking with an empty
    /// slot is the caller's contract violation and is excluded here.
    pub fn get_expect_present(&self) -> (w: &core::task::Waker)
        requires
            self.present(),
        ensures
            self.held() == Some(*w),
    {
        self.waker.as_ref().unwrap()
    }
}

} // verus!
