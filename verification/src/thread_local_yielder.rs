//! The slot that holds the suspend-handle of the coroutine currently
//! executing.
//!
//! As with the waker slot, the slot lives in the context owned by the
//! coroutine's own call frame and is handed down explicitly; deeply nested
//! code reaches the handle through it instead of through process-wide
//! state.

use vstd::prelude::*;

verus! {

/// The suspend-handle of a coroutine driven by polls: suspending with a
/// unit value hands control back to the driver, and the following resume
/// carries the fresh waker in.
pub type UnitYielder = corosensei::Yielder<core::task::Waker, ()>;

/// At most one suspend-handle: the one of the coroutine this context
/// belongs to.
pub struct ThreadLocalYielder<'a> {
    yielder: Option<&'a UnitYielder>,
}

impl<'a> ThreadLocalYielder<'a> {
    /// The suspend-handle the slot holds, if any.
    pub closed spec fn held(self) -> Option<&'a UnitYielder> {
        self.yielder
    }

    /// True while a coroutine's suspend-handle is registered in the slot.
    pub open spec fn present(self) -> bool {
        self.held() is Some
    }

    /// A slot already holding the handle of the running coroutine.
    pub fn holding(yielder: &'a UnitYielder) -> (s: Self)
        ensures
            s.held() == Some(yielder),
    {
        ThreadLocalYielder { yielder: Some(yielder) }
    }

    /// Registers the handle of the running coroutine: the slot then holds
    /// exactly that handle, whatever it held before.
    pub fn set(&mut self, yielder: &'a UnitYielder)
        ensures
            final(self).held() == Some(yielder),
    {
        self.yielder = Some(yielder);
    }

    /// Empties the slot.
    pub fn remove(&mut self)
        ensures
            final(self).held() is None,
    {
        self.yielder = None;
    }

    /// The registered suspend-handle — the one the slot holds; asking with
    /// an empty slot is the caller's contract violation and is excluded
    /// here.
    pub fn get_expect_present(&self) -> (y: &'a UnitYielder)
        requires
            self.present(),
        ensures
            self.held() == Some(y),
    {
        self.yielder.unwrap()
    }
}

} // verus!
