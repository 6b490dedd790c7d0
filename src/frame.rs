//! The LZ4 frame format: option records, errors, and the stream adapters.

pub mod compress;
pub mod decompress;
pub mod structs;
pub mod types;
