//! The decisions behind a WASI host: what a descriptor, a socket or a stream
//! may do in the state it is in, what the operating system is asked, and what
//! the guest is told of the answer.
//!
//! Nothing in this crate performs I/O. An operation that needs the outside
//! returns a description of what to do (a [`filesystem::types::FsCall`], a
//! [`sockets::SocketCall`], a step of a stream); the embedder carries it out
//! and hands the plain result to the function that finishes the operation.

pub mod buffer;
mod call;
pub mod errno;
pub mod error;
pub mod filesystem;
pub mod sockets;
pub mod streams;
pub mod table;
pub mod tls;
