//! Buffered framing for a message-oriented protocol engine over a byte
//! stream, and a splitter for buffers of length-prefixed records.

pub mod frame_reader;
pub mod framer;
