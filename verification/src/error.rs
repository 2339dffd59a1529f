//! Errors and poll results as plain values.
use vstd::prelude::*;

verus! {

/// The class of an I/O error.
#[derive(Clone, Copy, Debug, PartialEq, Eq, Structural)]
pub enum IoErrorKind {
    AddrInUse,
    AddrNotAvailable,
    AlreadyExists,
    BrokenPipe,
    ConnectionAborted,
    ConnectionRefused,
    ConnectionReset,
    Interrupted,
    InvalidInput,
    NotConnected,
    NotFound,
    OutOfMemory,
    PermissionDenied,
    TimedOut,
    UnexpectedEof,
    Unsupported,
    WouldBlock,
    Other,
}

/// An I/O error: its class, and the number the operating system gave, if it
/// came from there.
#[derive(Clone, Copy, Debug, PartialEq, Eq, Structural)]
pub struct IoError {
    pub kind: IoErrorKind,
    pub raw_os_error: Option<i32>,
}

/// A failure that was handed to the guest as an error resource.
#[derive(Clone, Debug, PartialEq, Eq)]
pub enum Failure {
    /// An operation of the operating system failed.
    Io(IoError),
    /// A TLS protocol error, with its description.
    Tls(String),
    /// Anything else.
    Other(String),
}

/// Why an operation on a stream did not succeed.
#[derive(Clone, Debug, PartialEq, Eq)]
pub enum StreamError {
    /// The stream is closed; there is nothing more to learn.
    Closed,
    /// The last operation failed. The stream is closed from here on.
    LastOperationFailed(Failure),
    /// The guest broke the interface's rules and is to be stopped.
    Trap(String),
}

impl StreamError {
    /// `self` stops the guest with the given message.
    pub open spec fn is_trap(self, message: Seq<char>) -> bool {
        self matches StreamError::Trap(m) && m@ == message
    }

    pub fn trap(message: &str) -> (r: StreamError)
        ensures
            r.is_trap(message@),
    {
        StreamError::Trap(message.to_owned())
    }
}

pub type StreamResult<T> = Result<T, StreamError>;

/// What polling some outside work came back with.
#[derive(Clone, Copy, Debug, PartialEq, Eq)]
pub enum Polled<T> {
    Pending,
    Ready(T),
}

/// Stores `value` in `dest` and returns what was there.
pub fn replace<T>(dest: &mut T, value: T) -> (r: T)
    ensures
        *final(dest) == value,
        r == *old(dest),
{
    let mut taken = value;
    core::mem::swap(dest, &mut taken);
    taken
}

} // verus!
