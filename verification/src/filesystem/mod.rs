//! Files and directories.
pub mod descriptor;
pub mod errors;
pub mod flags;
pub mod host;
pub mod readdir;
pub mod streams;
pub mod times;
pub mod types;
pub mod windows;
