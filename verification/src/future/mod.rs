//! Futures: the error taxonomy, the rendezvous between a consumer and a
//! producer of one value, and the stream through one cell.

pub mod callback;
pub mod future;
pub mod pair;
pub mod sequence;
pub mod stream;
pub mod sync;
pub mod val;

pub use self::callback::{Callback, Notify, Receive};
pub use self::future::{Cancel, Future, FutureError, FutureErrorKind, FutureResult, SyncFuture};
pub use self::stream::Stream;
pub use self::val::{future, FutureVal};
