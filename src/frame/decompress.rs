//! The stream decompressor: the decisions of a "read bytes" adapter over a source of
//! compressed data.
//!
//! A read call is driven step by step. The caller asks for up to `dst_len` bytes with
//! [`Decompressor::read`] and then does what each [`ReadStep`] says: it refills the raw
//! input buffer from the source and reports the bytes with [`Decompressor::refilled`],
//! or it hands a range of that buffer and a range of its destination to the codec and
//! reports the counts with [`Decompressor::decoded`], until the step is `Done`.
//! The decompressor keeps the raw bytes that the codec has not consumed yet between
//! calls, so that nothing is read from the source before it is needed.

use crate::frame::structs::{ErrorKind, Lz4Error, Lz4Result};
use vstd::prelude::*;

verus! {

/// Capacity of the raw input buffer when none is given.
pub const DEFAULT_BUF_SIZE: usize = 1024;

/// What the driver of a read call does next.
#[derive(Debug, Clone, Copy, PartialEq, Eq, Structural)]
pub enum ReadStep {
    /// Read up to `capacity` bytes from the source and report them with `refilled`;
    /// an empty report stands for the end of the source.
    Refill,
    /// Hand `buffer()[src_start..src_end]` to the codec as input and
    /// `dst[dst_start..dst_end]` as room for output, then report with `decoded` how many
    /// bytes it consumed and produced and the hint it returned.
    Decode { src_start: usize, src_end: usize, dst_start: usize, dst_end: usize },
    /// The read call returns this many bytes, which fill the start of the destination.
    Done(usize),
}

/// Where a read call stands.
#[derive(Debug, Clone, Copy, PartialEq, Eq, Structural)]
pub enum Stage {
    /// No read call is in progress.
    Idle,
    /// Waiting for the bytes of a refill.
    Refilling,
    /// Waiting for the outcome of a codec call.
    Decoding,
}

/// What copying a whole frame to a sink does after one read call.
#[derive(Debug, Clone, Copy, PartialEq, Eq, Structural)]
pub enum CopyStep {
    /// Write this many bytes of the destination to the sink, then read again.
    Write(usize),
    /// The frame is complete.
    Stop,
}

/// The stage in which a step leaves the decompressor.
pub open spec fn stage_for(step: ReadStep) -> Stage {
    match step {
        ReadStep::Refill => Stage::Refilling,
        ReadStep::Decode { .. } => Stage::Decoding,
        ReadStep::Done(_) => Stage::Idle,
    }
}

/// The state of a stream decompressor.
pub struct Decompressor {
    /// Bytes of the last refill; those from `offset` on are not consumed yet.
    buffer: Vec<u8>,
    capacity: usize,
    offset: usize,
    eof: bool,
    stage: Stage,
    dst_len: usize,
    dst_filled: usize,
    /// Every byte read from the source so far.
    source: Ghost<Seq<u8>>,
    /// Every byte the codec consumed so far.
    fed: Ghost<Seq<u8>>,
}

impl Decompressor {
    /// Capacity of the raw input buffer.
    pub closed spec fn capacity_spec(&self) -> nat {
        self.capacity as nat
    }

    /// Bytes of the last refill.
    pub closed spec fn buffered(&self) -> Seq<u8> {
        self.buffer@
    }

    /// How many bytes of the last refill the codec has consumed.
    pub closed spec fn offset(&self) -> nat {
        self.offset as nat
    }

    /// Bytes read from the source that the codec has not consumed yet.
    pub open spec fn pending(&self) -> Seq<u8> {
        self.buffered().subrange(self.offset() as int, self.buffered().len() as int)
    }

    /// Whether the codec has reported the end of the frame.
    pub closed spec fn is_eof(&self) -> bool {
        self.eof
    }

    /// Where the current read call stands.
    pub closed spec fn stage(&self) -> Stage {
        self.stage
    }

    /// Room in the destination of the current read call.
    pub closed spec fn dst_len(&self) -> nat {
        self.dst_len as nat
    }

    /// Bytes of the destination that the current read call has filled.
    pub closed spec fn filled(&self) -> nat {
        self.dst_filled as nat
    }

    /// Every byte read from the source so far, in order.
    pub closed spec fn source_read(&self) -> Seq<u8> {
        self.source@
    }

    /// Every byte the codec has consumed so far, in order.
    pub closed spec fn engine_fed(&self) -> Seq<u8> {
        self.fed@
    }

    /// The invariant of the decompressor.
    pub open spec fn wf(&self) -> bool {
        &&& self.offset() <= self.buffered().len() <= self.capacity_spec()
        &&& self.filled() <= self.dst_len()
        &&& self.source_read() == self.engine_fed() + self.pending()
        &&& self.stage() == Stage::Refilling ==> {
            &&& self.offset() == self.buffered().len()
            &&& self.filled() < self.dst_len()
            &&& !self.is_eof()
        }
        &&& self.stage() == Stage::Decoding ==> {
            &&& self.offset() < self.buffered().len()
            &&& self.filled() < self.dst_len()
            &&& !self.is_eof()
        }
    }

    /// The step that continues a read call from the current state.
    pub open spec fn next_step(&self) -> ReadStep {
        if self.filled() < self.dst_len() {
            if self.offset() >= self.buffered().len() {
                ReadStep::Refill
            } else {
                ReadStep::Decode {
                    src_start: self.offset() as usize,
                    src_end: self.buffered().len() as usize,
                    dst_start: self.filled() as usize,
                    dst_end: self.dst_len() as usize,
                }
            }
        } else {
            ReadStep::Done(self.filled() as usize)
        }
    }

    /// A decompressor at the start of a frame, with a raw input buffer of `buf_size`
    /// bytes (1024 when none is given) that is empty, so that the first read refills it.
    pub fn new(buf_size: Option<usize>) -> (r: Decompressor)
        ensures
            r.wf(),
            r.capacity_spec() == (match buf_size {
                Some(s) => s,
                None => DEFAULT_BUF_SIZE,
            }),
            r.buffered() == Seq::<u8>::empty(),
            r.offset() == 0,
            !r.is_eof(),
            r.stage() == Stage::Idle,
            r.source_read() == Seq::<u8>::empty(),
            r.engine_fed() == Seq::<u8>::empty(),
    {
        let size: usize = match buf_size {
            Some(s) => s,
            None => DEFAULT_BUF_SIZE,
        };
        let r = Decompressor {
            buffer: Vec::new(),
            capacity: size,
            offset: 0,
            eof: false,
            stage: Stage::Idle,
            dst_len: 0,
            dst_filled: 0,
            source: Ghost(Seq::empty()),
            fed: Ghost(Seq::empty()),
        };
        assert(r.pending() =~= Seq::<u8>::empty());
        r
    }

    /// Capacity of the raw input buffer: the most a refill may bring.
    pub fn capacity(&self) -> (r: usize)
        ensures
            r == self.capacity_spec(),
    {
        self.capacity
    }

    /// Bytes of the last refill; the ranges of `Decode` steps index into them.
    pub fn buffer(&self) -> (r: &[u8])
        ensures
            r@ == self.buffered(),
    {
        self.buffer.as_slice()
    }

    /// Whether the codec has reported the end of the frame.
    pub fn is_finished(&self) -> (r: bool)
        ensures
            r == self.is_eof(),
    {
        self.eof
    }

    /// Enters the stage of the next step of the current read call.
    fn advance(&mut self) -> (r: ReadStep)
        requires
            old(self).offset() <= old(self).buffered().len() <= old(self).capacity_spec(),
            old(self).filled() <= old(self).dst_len(),
            old(self).source_read() == old(self).engine_fed() + old(self).pending(),
            !old(self).is_eof(),
        ensures
            final(self).wf(),
            r == old(self).next_step(),
            final(self).stage() == stage_for(r),
            final(self).buffered() == old(self).buffered(),
            final(self).offset() == old(self).offset(),
            final(self).capacity_spec() == old(self).capacity_spec(),
            final(self).is_eof() == old(self).is_eof(),
            final(self).dst_len() == old(self).dst_len(),
            final(self).filled() == old(self).filled(),
            final(self).source_read() == old(self).source_read(),
            final(self).engine_fed() == old(self).engine_fed(),
    {
        if self.dst_filled < self.dst_len {
            if self.offset >= self.buffer.len() {
                self.stage = Stage::Refilling;
                ReadStep::Refill
            } else {
                self.stage = Stage::Decoding;
                ReadStep::Decode {
                    src_start: self.offset,
                    src_end: self.buffer.len(),
                    dst_start: self.dst_filled,
                    dst_end: self.dst_len,
                }
            }
        } else {
            self.stage = Stage::Idle;
            ReadStep::Done(self.dst_filled)
        }
    }

    /// Starts a read call into a destination of `dst_len` bytes.
    ///
    /// After the end of the frame this fails with the end-of-stream signal and changes
    /// nothing. Otherwise the call starts with nothing filled and the first step is
    /// returned; a call that was cut short by an error before is abandoned, with the
    /// unconsumed raw bytes kept.
    pub fn read(&mut self, dst_len: usize) -> (r: Lz4Result<ReadStep>)
        requires
            old(self).wf(),
        ensures
            final(self).wf(),
            old(self).is_eof() ==> {
                &&& r is Err
                &&& r->Err_0.kind == ErrorKind::EndOfStream
                &&& *final(self) == *old(self)
            },
            !old(self).is_eof() ==> {
                &&& r == Ok::<ReadStep, Lz4Error>(final(self).next_step())
                &&& final(self).stage() == stage_for(r->Ok_0)
                &&& final(self).dst_len() == dst_len
                &&& final(self).filled() == 0
                &&& final(self).buffered() == old(self).buffered()
                &&& final(self).offset() == old(self).offset()
                &&& final(self).capacity_spec() == old(self).capacity_spec()
                &&& !final(self).is_eof()
                &&& final(self).source_read() == old(self).source_read()
                &&& final(self).engine_fed() == old(self).engine_fed()
            },
    {
        if self.eof {
            return Err(Lz4Error::end_of_stream());
        }
        self.dst_len = dst_len;
        self.dst_filled = 0;
        let step = self.advance();
        Ok(step)
    }

    /// Reports the bytes of a refill that a `Refill` step asked for; no bytes means
    /// that the source is exhausted for now, which ends the read call.
    pub fn refilled(&mut self, data: &[u8]) -> (r: ReadStep)
        requires
            old(self).wf(),
            old(self).stage() == Stage::Refilling,
            data@.len() <= old(self).capacity_spec(),
        ensures
            final(self).wf(),
            final(self).buffered() == data@,
            final(self).offset() == 0,
            final(self).pending() == data@,
            final(self).source_read() == old(self).source_read() + data@,
            final(self).engine_fed() == old(self).engine_fed(),
            final(self).capacity_spec() == old(self).capacity_spec(),
            final(self).dst_len() == old(self).dst_len(),
            final(self).filled() == old(self).filled(),
            !final(self).is_eof(),
            final(self).stage() == stage_for(r),
            data@.len() == 0 ==> r == ReadStep::Done(old(self).filled() as usize),
            data@.len() > 0 ==> r == (ReadStep::Decode {
                src_start: 0,
                src_end: data@.len() as usize,
                dst_start: old(self).filled() as usize,
                dst_end: old(self).dst_len() as usize,
            }),
    {
        let ghost old_pending = self.pending();
        assert(old_pending =~= Seq::<u8>::empty());
        assert(self.source@ =~= self.fed@);
        self.buffer = vstd::slice::slice_to_vec(data);
        self.offset = 0;
        self.source = Ghost(self.source@ + data@);
        assert(self.pending() =~= data@);
        if data.len() == 0 {
            self.stage = Stage::Idle;
            ReadStep::Done(self.dst_filled)
        } else {
            self.advance()
        }
    }

    /// Reports the outcome of the codec call that a `Decode` step asked for: it consumed
    /// `consumed` bytes of the offered input, produced `produced` bytes of output, and
    /// returned `hint`, which is 0 exactly when the frame is complete.
    ///
    /// The read call ends when the frame is complete, and when the call made no progress
    /// at all, so that a driver never spins on a codec that neither consumes nor produces.
    pub fn decoded(&mut self, consumed: usize, produced: usize, hint: usize) -> (r: ReadStep)
        requires
            old(self).wf(),
            old(self).stage() == Stage::Decoding,
            consumed <= old(self).pending().len(),
            produced <= old(self).dst_len() - old(self).filled(),
        ensures
            final(self).wf(),
            final(self).buffered() == old(self).buffered(),
            final(self).offset() == old(self).offset() + consumed,
            final(self).filled() == old(self).filled() + produced,
            final(self).engine_fed() == old(self).engine_fed() + old(self).pending().take(
                consumed as int,
            ),
            final(self).source_read() == old(self).source_read(),
            final(self).capacity_spec() == old(self).capacity_spec(),
            final(self).dst_len() == old(self).dst_len(),
            final(self).is_eof() == (hint == 0),
            final(self).stage() == stage_for(r),
            hint == 0 ==> r == ReadStep::Done(final(self).filled() as usize),
            hint != 0 && consumed == 0 && produced == 0 ==> r == ReadStep::Done(
                final(self).filled() as usize,
            ),
            hint != 0 && (consumed > 0 || produced > 0) ==> r == final(self).next_step(),
    {
        let ghost old_self = *self;
        let ghost eaten = self.pending().take(consumed as int);
        let start: usize = self.offset;
        self.offset = start + consumed;
        self.dst_filled = self.dst_filled + produced;
        self.fed = Ghost(self.fed@ + eaten);
        proof {
            assert(old_self.pending() =~= eaten + self.pending());
            assert(self.fed@ + self.pending() =~= old_self.fed@ + (eaten + self.pending()));
        }
        if hint == 0 {
            self.eof = true;
            self.stage = Stage::Idle;
            ReadStep::Done(self.dst_filled)
        } else if consumed == 0 && produced == 0 {
            self.stage = Stage::Idle;
            ReadStep::Done(self.dst_filled)
        } else {
            self.advance()
        }
    }

    /// What copying the whole frame to a sink does after a read call returned `n` bytes:
    /// write them while there are some, stop once the frame is complete, and fail when
    /// a call brings nothing although the frame is not complete, which means that the
    /// compressed source ended too early.
    pub fn copy_step(&self, n: usize) -> (r: Lz4Result<CopyStep>)
        ensures
            n > 0 ==> r == Ok::<CopyStep, Lz4Error>(CopyStep::Write(n)),
            n == 0 && self.is_eof() ==> r == Ok::<CopyStep, Lz4Error>(CopyStep::Stop),
            n == 0 && !self.is_eof() ==> r is Err && r->Err_0.kind == ErrorKind::Truncated,
    {
        if n > 0 {
            Ok(CopyStep::Write(n))
        } else if self.eof {
            Ok(CopyStep::Stop)
        } else {
            Err(Lz4Error::truncated())
        }
    }
}

/// Whatever sizes the reads of the source have, the codec is handed the bytes of the
/// source in their order, each once: the bytes it consumed, followed by those still
/// waiting in the raw buffer, are exactly the bytes read from the source.
pub proof fn lemma_engine_sees_source_in_order(d: &Decompressor)
    requires
        d.wf(),
    ensures
        d.engine_fed().is_prefix_of(d.source_read()),
        d.source_read() == d.engine_fed() + d.pending(),
{
    assert(d.source_read().subrange(0, d.engine_fed().len() as int) =~= d.engine_fed());
}

} // verus!
