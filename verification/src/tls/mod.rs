//! TLS over the guest's streams.
pub mod client;
pub mod host;
pub mod writer;
