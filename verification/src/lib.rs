//! Coordination primitives for concurrent programs: one-shot futures with a
//! cooperating completer, a single-cell sequence, a bounded blocking queue and
//! the thread parker that the blocking modes rest on.
//!
//! Every shared object is a small sequential state machine behind one mutex.
//! The state machines carry the exact contracts; the handles that lock them
//! perform what a transition decided once the lock is released.

pub mod future;
pub mod linked_queue;
pub mod receipt;
pub mod run;
pub mod sync;

pub use future::{Future, SyncFuture};
pub use sync::Park;
