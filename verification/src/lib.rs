//! A relay between a length-prefixed message stream and a line-oriented
//! local socket, as a library of verified decisions.
//!
//! The library never performs input or output. It decodes and encodes frames
//! held in memory, and it tells a driver which operation to perform next and
//! what to make of the operation's outcome.

pub mod config;
pub mod diagnostics;
pub mod protocol;
pub mod relay;
pub mod response;
pub mod session;
pub mod stream;
