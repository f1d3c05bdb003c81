//! A multi-producer, single-consumer delivery primitive: the consumer's
//! logic runs as the entry routine of a suspendable execution context, and
//! every delivered item resumes it once.  Producers share one context
//! through clonable senders, serialized by mutual exclusion around each
//! resume; once the consumer function returns, every later send observes
//! `Closed` without resuming anything.

use vstd::prelude::*;

use crate::coro::{resume, Coro, CoroHandle, ResumeOutcome};

verus! {

#[verifier::external_type_specification]
#[verifier::external_body]
#[verifier::reject_recursive_types(T)]
pub struct ExMutex<T: ?Sized>(std::sync::Mutex<T>);

#[verifier::external_type_specification]
#[verifier::external_body]
#[verifier::reject_recursive_types(T)]
pub struct ExCell<T: ?Sized>(core::cell::Cell<T>);

/// Creates a new multi-producer, single-consumer channel. If you don't have
/// multiple producers, you can use a stream instead.  The consumer function
/// does not run yet: it starts on the first send.
///
/// The returned sender is a handle onto the fresh consumer context; the
/// context's state lives behind the shared cell of all the sender's
/// clones, which no contract here can read, so what each send answers is
/// stated at [`send_step`], on the exclusively held context.
pub fn new_mpsc_consumer<T, F>(function: F) -> MpscSender<T>
    where
        F: FnOnce(MpscContext<'_, T>) + 'static,
        T: 'static,
{
    let handle = spawn_consumer(function);
    let coroutine = Coro::from_handle(handle);
    MpscSender { coroutine: std::sync::Arc::new(new_mutex(coroutine)) }
}

/// Relies on `corosensei::Coroutine::new`: the returned coroutine runs the
/// given closure on its own stack once it is first resumed, and has not
/// started yet.  The closure only builds the consumer's context around the
/// suspend-handle and the first delivery's item, and calls the caller's
/// function on it: the first send's item is kept for the first retrieval,
/// so no delivered item is lost.
#[verifier::external_body]
fn spawn_consumer<T, F>(function: F) -> (h: CoroHandle<T, (), ()>)
    where
        F: FnOnce(MpscContext<'_, T>) + 'static,
        T: 'static,
{
    CoroHandle {
        inner: corosensei::Coroutine::new(|yielder, first| {
            function(MpscContext { yielder, first: core::cell::Cell::new(Some(first)) })
        }),
    }
}

/// Relies on `std::sync::Mutex::new`: it wraps the value; nothing of the
/// lock's content can be stated here, as it is shared by every clone of
/// the sender.
#[verifier::external_body]
fn new_mutex<T>(value: T) -> std::sync::Mutex<T> {
    std::sync::Mutex::new(value)
}

/// A clonable producer handle onto one consumer's execution context.
#[verifier::reject_recursive_types(T)]
pub struct MpscSender<T> {
    coroutine: std::sync::Arc<std::sync::Mutex<Coro<T, (), ()>>>,
}

impl<T> MpscSender<T> {
    /// The two senders hold the shared consumer context as one and the
    /// same abstract value.  Clones of one sender satisfy it; the relation
    /// does not distinguish two distinct channels whose contexts happen to
    /// be equal as values.
    pub closed spec fn same_channel(self, other: Self) -> bool {
        self.coroutine == other.coroutine
    }
}

impl<T> Clone for MpscSender<T> {
    /// The clone shares the consumer's execution context with the sender
    /// it was cloned from: both deliver to the same consumer.
    fn clone(&self) -> (r: Self)
        ensures
            r.same_channel(*self),
    {
        MpscSender { coroutine: clone_shared(&self.coroutine) }
    }
}

impl<T> MpscSender<T> {
    /// Delivers `value` to the consumer, running it up to its next request
    /// for an item or to its return.
    ///
    /// Relies on `std::sync::Mutex::lock` to serialize producers: exactly
    /// one send's resume is in flight at a time, and contending producers
    /// block until their turn.  Everything decided about the delivery
    /// itself is decided by [`send_step`], which this call hands the
    /// exclusively held context to; `send_step` has no precondition, so
    /// this unverified call cannot violate one.  A lock poisoned by an
    /// earlier producer's panic, and a reentrant send from inside the same
    /// channel's consumer, fail loudly here: both are fatal contract
    /// violations, not recoverable conditions.
    #[verifier::external_body]
    pub fn send(&self, value: T) -> MpscSendResult {
        let mut guard = self.coroutine.lock().unwrap();
        send_step(&mut *guard, value)
    }

    /// An identifier of the shared consumer context: equal for clones of
    /// one sender, distinct between senders of distinct live channels.
    ///
    /// Relies on `std::sync::Arc::as_ptr`, which names the shared
    /// allocation; being an address, nothing more is stated of it.
    #[verifier::external_body]
    pub fn identity(&self) -> usize {
        std::sync::Arc::as_ptr(&self.coroutine) as usize
    }
}

/// Relies on `Clone` of `std::sync::Arc`: the clone is a second handle on
/// the very same allocation, so as a value it is the same.
#[verifier::external_body]
fn clone_shared<T>(shared: &std::sync::Arc<T>) -> (r: std::sync::Arc<T>)
    ensures
        r == *shared,
{
    std::sync::Arc::clone(shared)
}

/// One delivery into the consumer's execution context: the decision logic
/// behind [`MpscSender::send`], on the exclusively held context.
///
/// The answer is `Closed` exactly when the context is done afterwards: a
/// send onto a closed channel changes nothing and answers `Closed` again,
/// and a delivery that the consumer answers by returning closes the channel
/// for every later send.
pub fn send_step<T>(coroutine: &mut Coro<T, (), ()>, value: T) -> (r: MpscSendResult)
    ensures
        (r is Closed) == final(coroutine).done(),
        old(coroutine).done() ==> *final(coroutine) == *old(coroutine),
{
    if coroutine.is_done() {
        MpscSendResult::Closed
    } else {
        match resume(coroutine, value) {
            ResumeOutcome::Yielded(_) => MpscSendResult::Delivered,
            ResumeOutcome::Returned(_) => MpscSendResult::Closed,
        }
    }
}

/// What a send observed of the consumer.
#[derive(Debug, PartialEq, Eq, Clone, Copy, Hash, Ord, PartialOrd)]
pub enum MpscSendResult {
    /// The item was taken in; the consumer is ready to get more values.
    Delivered,
    /// The channel has been closed (the consumer does no longer receive values).
    Closed,
}

/// The consumer's handle on its own suspended execution: asking for the
/// next item suspends the consumer until a producer delivers one, except
/// for the very first item, which arrived with the resume that started the
/// consumer and is handed out without a suspension.
#[verifier::reject_recursive_types(T)]
pub struct MpscContext<'a, T> {
    yielder: &'a corosensei::Yielder<T, ()>,
    first: core::cell::Cell<Option<T>>,
}

impl<'a, T> MpscContext<'a, T> {
    /// The item of the next delivery: the k-th call returns the item of
    /// the k-th send.  The first send's item is already here and is handed
    /// out at once; every later call suspends the consumer until a
    /// producer delivers.
    pub fn next(&self) -> T {
        match take_first(self) {
            Some(item) => item,
            None => suspend_for_item(self),
        }
    }
}

/// Relies on `core::cell::Cell::take` of std: it empties the cell and
/// returns what it held — the item that started this consumer, on the
/// first retrieval, and nothing from then on.
#[verifier::external_body]
fn take_first<T>(context: &MpscContext<'_, T>) -> Option<T> {
    context.first.take()
}

/// Relies on `corosensei::Yielder::suspend`: it hands control back to the
/// resume currently driving this coroutine and returns the input of the
/// following resume, the next delivered item.
#[verifier::external_body]
fn suspend_for_item<T>(context: &MpscContext<'_, T>) -> T {
    context.yielder.suspend(())
}

} // verus!
