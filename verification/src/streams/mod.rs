//! Streams over asynchronous resources, and asynchronous resources over
//! streams.
use crate::error::{IoError, IoErrorKind, Polled};
use vstd::prelude::*;

pub mod adapter;
pub mod read;
pub mod shared;
pub mod write;

verus! {

/// Names a background task that the embedder runs.
pub type Task = u64;

/// What an attempt that must not wait came to: where the resource is not
/// ready, it would have had to wait.
pub open spec fn attempted<T>(polled: Polled<Result<T, IoError>>) -> Result<T, IoError> {
    match polled {
        Polled::Ready(r) => r,
        Polled::Pending => Err(IoError { kind: IoErrorKind::WouldBlock, raw_os_error: None }),
    }
}

/// See [`attempted`].
pub fn try_io<T>(polled: Polled<Result<T, IoError>>) -> (r: Result<T, IoError>)
    ensures
        r == attempted(polled),
{
    match polled {
        Polled::Ready(r) => r,
        Polled::Pending => Err(IoError { kind: IoErrorKind::WouldBlock, raw_os_error: None }),
    }
}

/// An attempt that is over came to what it came to; one that is not over would
/// have had to wait.
pub proof fn law_attempts_do_not_wait(polled: Polled<Result<u64, IoError>>, r: Result<u64, IoError>)
    requires
        call_ensures(try_io::<u64>, (polled,), r),
    ensures
        polled matches Polled::Ready(result) ==> r == result,
        polled is Pending ==> (r matches Err(e) && e.kind == IoErrorKind::WouldBlock),
{
}

} // verus!
