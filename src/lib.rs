//! Streaming adapters between byte streams and the block-oriented LZ4 frame codec.
//!
//! The codec itself (liblz4) is reached through FFI by the program around this
//! library. What lives here is the bookkeeping that sits between the two: the frame
//! option records, the error channel, and the state machines of the stream
//! compressor and decompressor, each with its contract.

pub mod frame;
pub mod version;

pub use crate::version::Lz4Version;
