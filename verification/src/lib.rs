//! Framing for byte streams of unknown length: bytes come in from a source in
//! pieces of any size and go out as typed messages, and typed messages go out
//! to a sink as one write each.
//!
//! The library holds the decisions and the buffers; reading from the source and
//! writing to the sink are the caller's part. Each operation says in its
//! contract what it returns and how it changes the buffer it works on.

pub mod codec;
pub mod decoder;
pub mod encoder;
pub mod io;
pub mod service;

pub use io::IoError;
