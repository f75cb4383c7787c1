//! Blocking primitives: the mutex and condition variable that guard every
//! shared state of this crate, and the thread parker.

pub mod lock;
pub mod park;

pub use self::park::Park;
