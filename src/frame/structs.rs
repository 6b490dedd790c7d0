//! The error channel shared by the compressor and the decompressor, and the roles of a
//! codec context.

use vstd::prelude::*;

verus! {

/// Where an error comes from.
#[derive(Debug, Clone, Copy, PartialEq, Eq, Structural)]
pub enum ErrorKind {
    /// The codec refused a call; the description is the codec's name for the error.
    Engine,
    /// An operation came in the wrong order, such as a write after the frame was ended.
    Usage,
    /// A read after the frame was fully decoded.
    EndOfStream,
    /// The compressed source ran out before the frame was complete.
    Truncated,
}

/// An error together with a description of it.
#[derive(Debug, Clone)]
pub struct Lz4Error {
    pub desc: String,
    pub kind: ErrorKind,
}

/// Result of the operations of this library.
pub type Lz4Result<T> = Result<T, Lz4Error>;

impl Lz4Error {
    /// An error that the codec reported, described by the codec's name for it.
    pub fn new(desc: String) -> (r: Lz4Error)
        ensures
            r.kind == ErrorKind::Engine,
            r.desc@ == desc@,
    {
        Lz4Error { desc, kind: ErrorKind::Engine }
    }

    /// The error of an operation on a stream whose frame was already ended.
    pub fn finalized() -> (r: Lz4Error)
        ensures
            r.kind == ErrorKind::Usage,
            r.desc@ == "stream finalized"@,
    {
        Lz4Error { desc: "stream finalized".to_owned(), kind: ErrorKind::Usage }
    }

    /// The signal of a read after the end of the frame.
    pub fn end_of_stream() -> (r: Lz4Error)
        ensures
            r.kind == ErrorKind::EndOfStream,
            r.desc@ == "no more to decompress"@,
    {
        Lz4Error { desc: "no more to decompress".to_owned(), kind: ErrorKind::EndOfStream }
    }

    /// The error of a compressed source that ends inside a frame.
    pub fn truncated() -> (r: Lz4Error)
        ensures
            r.kind == ErrorKind::Truncated,
            r.desc@ == "compressed data ends before the end of the frame"@,
    {
        Lz4Error {
            desc: "compressed data ends before the end of the frame".to_owned(),
            kind: ErrorKind::Truncated,
        }
    }
}

/// Which of the two kinds of codec context a handle holds, so that it is released by
/// the matching call.
#[derive(Debug, Clone, Copy, PartialEq, Eq, Structural)]
pub enum FrameContextType {
    Compression,
    Decompression,
}

} // verus!
