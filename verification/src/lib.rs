//! Run direct-style computations as cooperatively scheduled units of an
//! asynchronous executor.
//!
//! A computation written as an ordinary function runs on its own stack
//! inside a suspendable execution context (a stackful coroutine).  Each
//! time it must wait on an asynchronous operation it suspends only itself,
//! handing control back to the executor; the executor's next poll resumes
//! it exactly where it left off.  Two derived abstractions are built on the
//! same primitive: a multi-producer single-consumer sink and a
//! bidirectional stream.

mod await_future;
mod coro;
mod mpsc;
mod stream;
mod thread_local_waker;
mod thread_local_yielder;
mod to_future;

pub use await_future::{await_future, AwaitContext, PollOutcome};
pub use coro::{Coro, ResumeOutcome};
pub use mpsc::{new_mpsc_consumer, send_step, MpscContext, MpscSendResult, MpscSender};
pub use stream::{new_stream, Stream, StreamContext, StreamResult};
pub use thread_local_waker::ThreadLocalWaker;
pub use thread_local_yielder::{ThreadLocalYielder, UnitYielder};
pub use to_future::CoroutineFuture;
