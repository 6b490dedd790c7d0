//! The stream compressor: the decisions of a "write bytes" adapter that turns what is
//! written to it into one frame on a sink.
//!
//! The driver holds the codec context, the sink and an output buffer of
//! [`Compressor::capacity`] bytes, which the codec's bound gives for
//! [`chunk_hint`] bytes of input under the preferences. A write is cut into the chunks
//! that [`WriteChunks::next`] hands out; each is compressed into the output buffer and
//! what the codec produced goes to the sink. Once the frame is ended, every further
//! write, flush or end is refused.

use crate::frame::structs::{ErrorKind, Lz4Error, Lz4Result};
use crate::frame::types::{
    default_preferences,
    FrameCompressOptions,
    FramePreferences,
};
use vstd::math::min;
use vstd::prelude::*;

verus! {

/// Input size the output buffer is dimensioned for when none is given.
pub const DEFAULT_BUF_SIZE: usize = 1024;

/// The input size that the output buffer is to be dimensioned for.
pub fn chunk_hint(buf_size: Option<usize>) -> (r: usize)
    ensures
        r == (match buf_size {
            Some(s) => s,
            None => DEFAULT_BUF_SIZE,
        }),
{
    match buf_size {
        Some(s) => s,
        None => DEFAULT_BUF_SIZE,
    }
}

/// The state of a stream compressor.
pub struct Compressor {
    prefs: FramePreferences,
    opts: FrameCompressOptions,
    capacity: usize,
    finished: bool,
}

/// The chunks that one write is cut into.
pub struct WriteChunks {
    offset: usize,
    len: usize,
    chunk: usize,
    /// Ends of the chunks handed out so far.
    ends: Ghost<Seq<nat>>,
}

impl Compressor {
    /// The preferences of the frame.
    pub closed spec fn prefs_spec(&self) -> FramePreferences {
        self.prefs
    }

    /// The options of each compression call.
    pub closed spec fn opts_spec(&self) -> FrameCompressOptions {
        self.opts
    }

    /// Size of the output buffer.
    pub closed spec fn capacity_spec(&self) -> nat {
        self.capacity as nat
    }

    /// Whether the frame has been ended.
    pub closed spec fn is_ended(&self) -> bool {
        self.finished
    }

    /// The invariant of the compressor: the output buffer is not empty.
    pub open spec fn wf(&self) -> bool {
        self.capacity_spec() > 0
    }

    /// A compressor for a frame with the given preferences and options (the defaults
    /// where none are given), whose output buffer holds `capacity` bytes. The driver
    /// writes the frame header to the sink before the first write.
    pub fn new(
        prefs: Option<FramePreferences>,
        capacity: usize,
        opts: Option<FrameCompressOptions>,
    ) -> (r: Compressor)
        requires
            capacity > 0,
        ensures
            r.wf(),
            r.prefs_spec() == (match prefs {
                Some(p) => p,
                None => default_preferences(),
            }),
            r.opts_spec() == (match opts {
                Some(o) => o,
                None => FrameCompressOptions { stable_src: 0 },
            }),
            r.capacity_spec() == capacity,
            !r.is_ended(),
    {
        Compressor {
            prefs: FramePreferences::or_default(prefs),
            opts: FrameCompressOptions::or_default(opts),
            capacity,
            finished: false,
        }
    }

    /// A compressor with the default preferences and options.
    pub fn default(capacity: usize) -> (r: Compressor)
        requires
            capacity > 0,
        ensures
            r.wf(),
            r.prefs_spec() == default_preferences(),
            r.opts_spec() == (FrameCompressOptions { stable_src: 0 }),
            r.capacity_spec() == capacity,
            !r.is_ended(),
    {
        Compressor::new(None, capacity, None)
    }

    /// The preferences of the frame.
    pub fn preferences(&self) -> (r: FramePreferences)
        ensures
            r == self.prefs_spec(),
    {
        self.prefs
    }

    /// The options of each compression call.
    pub fn options(&self) -> (r: FrameCompressOptions)
        ensures
            r == self.opts_spec(),
    {
        self.opts
    }

    /// Size of the output buffer.
    pub fn capacity(&self) -> (r: usize)
        ensures
            r == self.capacity_spec(),
    {
        self.capacity
    }

    /// Whether the frame has been ended.
    pub fn is_finished(&self) -> (r: bool)
        ensures
            r == self.is_ended(),
    {
        self.finished
    }

    /// Starts a write of `len` bytes: the chunks to compress, in order, or the usage
    /// error once the frame has been ended.
    pub fn write(&self, len: usize) -> (r: Lz4Result<WriteChunks>)
        requires
            self.wf(),
        ensures
            self.is_ended() ==> r is Err && r->Err_0.kind == ErrorKind::Usage,
            !self.is_ended() ==> {
                &&& r is Ok
                &&& r->Ok_0.wf()
                &&& r->Ok_0.done() == 0
                &&& r->Ok_0.total() == len
                &&& r->Ok_0.chunk_size() == self.capacity_spec()
                &&& r->Ok_0.handed() == Seq::<nat>::empty()
            },
    {
        if self.finished {
            return Err(Lz4Error::finalized());
        }
        Ok(WriteChunks { offset: 0, len, chunk: self.capacity, ends: Ghost(Seq::empty()) })
    }

    /// Starts a flush: the driver calls the codec's flush until [`flush_again`] says
    /// to stop, then flushes the sink. Refused once the frame has been ended.
    pub fn flush(&self) -> (r: Lz4Result<()>)
        ensures
            self.is_ended() ==> r is Err && r->Err_0.kind == ErrorKind::Usage,
            !self.is_ended() ==> r is Ok,
    {
        if self.finished {
            return Err(Lz4Error::finalized());
        }
        Ok(())
    }

    /// Ends the frame: the driver then calls the codec's end once and writes what it
    /// produced (at least the 4 bytes of the end mark) to the sink. Every later write,
    /// flush or end is refused, and so is this one if the frame was already ended.
    pub fn end(&mut self) -> (r: Lz4Result<()>)
        ensures
            old(self).is_ended() ==> r is Err && r->Err_0.kind == ErrorKind::Usage,
            !old(self).is_ended() ==> r is Ok,
            final(self).is_ended(),
            final(self).prefs_spec() == old(self).prefs_spec(),
            final(self).opts_spec() == old(self).opts_spec(),
            final(self).capacity_spec() == old(self).capacity_spec(),
    {
        if self.finished {
            return Err(Lz4Error::finalized());
        }
        self.finished = true;
        Ok(())
    }
}

/// Whether a flush goes on after the codec's flush produced `produced` bytes: it stops
/// only once the codec has nothing left to give.
pub fn flush_again(produced: usize) -> (r: bool)
    ensures
        r == (produced != 0),
{
    produced != 0
}

impl WriteChunks {
    /// How many bytes of the write have been handed out in chunks.
    pub closed spec fn done(&self) -> nat {
        self.offset as nat
    }

    /// Length of the write.
    pub closed spec fn total(&self) -> nat {
        self.len as nat
    }

    /// Largest chunk: the size of the output buffer.
    pub closed spec fn chunk_size(&self) -> nat {
        self.chunk as nat
    }

    /// Ends of the chunks handed out so far, in order.
    pub closed spec fn handed(&self) -> Seq<nat> {
        self.ends@
    }

    /// The invariant of a write: the chunks handed out so far are the start of the
    /// chunk plan of the whole write, and the plan of what is left is the rest of it.
    pub open spec fn wf(&self) -> bool {
        &&& self.done() <= self.total()
        &&& self.chunk_size() > 0
        &&& chunk_ends(0, self.total(), self.chunk_size()) == self.handed() + chunk_ends(
            self.done(),
            self.total(),
            self.chunk_size(),
        )
        &&& self.handed().len() == 0 ==> self.done() == 0
        &&& self.handed().len() > 0 ==> self.handed().last() == self.done()
    }

    /// The next chunk, as the range `start..end` of the written bytes: it starts where
    /// the last one ended and holds the lesser of the chunk size and what remains.
    /// `None` once every byte has been handed out.
    pub fn next(&mut self) -> (r: Option<(usize, usize)>)
        requires
            old(self).wf(),
        ensures
            final(self).wf(),
            final(self).total() == old(self).total(),
            final(self).chunk_size() == old(self).chunk_size(),
            old(self).done() == old(self).total() ==> {
                &&& r is None
                &&& final(self).done() == old(self).done()
                &&& final(self).handed() == old(self).handed()
            },
            old(self).done() < old(self).total() ==> {
                &&& r is Some
                &&& r->Some_0.0 == old(self).done()
                &&& r->Some_0.1 == final(self).done()
                &&& final(self).done() == old(self).done() + min(
                    old(self).chunk_size() as int,
                    old(self).total() - old(self).done(),
                )
                &&& final(self).handed() == old(self).handed().push(final(self).done())
            },
    {
        if self.offset >= self.len {
            return None;
        }
        let rem: usize = self.len - self.offset;
        let size: usize = if self.chunk < rem {
            self.chunk
        } else {
            rem
        };
        let start: usize = self.offset;
        proof {
            lemma_next_follows_plan(self, (start + size) as nat);
            let rest = chunk_ends((start + size) as nat, self.total(), self.chunk_size());
            assert(self.ends@ + (seq![(start + size) as nat] + rest) =~= self.ends@.push(
                (start + size) as nat,
            ) + rest);
        }
        self.offset = start + size;
        self.ends = Ghost(self.ends@.push(self.offset as nat));
        Some((start, self.offset))
    }

    /// How many bytes of the write have been handed out in chunks.
    pub fn consumed(&self) -> (r: usize)
        ensures
            r == self.done(),
    {
        self.offset
    }
}

/// The ends of the chunks that a write hands out from `done` on, in order, for a write
/// of `total` bytes and chunks of at most `chunk` bytes.
pub open spec fn chunk_ends(done: nat, total: nat, chunk: nat) -> Seq<nat>
    decreases total - done,
{
    if done >= total || chunk == 0 {
        Seq::empty()
    } else {
        let e = done + min(chunk as int, total - done) as nat;
        seq![e] + chunk_ends(e, total, chunk)
    }
}

/// The chunks of a write cover its bytes in order, each byte once: every chunk starts
/// where the one before it ended, holds at least one byte and at most a chunk size,
/// and the last one ends at the end of the write.
pub proof fn lemma_chunks_cover_write(done: nat, total: nat, chunk: nat)
    requires
        done <= total,
        chunk > 0,
    ensures
        ({
            let ends = chunk_ends(done, total, chunk);
            &&& (done == total <==> ends.len() == 0)
            &&& ends.len() > 0 ==> ends.last() == total
            &&& ends.len() > 0 ==> done < ends[0] <= done + chunk
            &&& forall|i: int|
                #![trigger ends[i]]
                0 < i < ends.len() ==> ends[i - 1] < ends[i] <= ends[i - 1] + chunk
        }),
    decreases total - done,
{
    if done < total {
        let e = done + min(chunk as int, total - done) as nat;
        lemma_chunks_cover_write(e, total, chunk);
        let rest = chunk_ends(e, total, chunk);
        let ends = chunk_ends(done, total, chunk);
        assert(ends == seq![e] + rest);
        assert forall|i: int| #![trigger ends[i]] 0 < i < ends.len() implies ends[i - 1] < ends[i]
            <= ends[i - 1] + chunk by {
            if i > 1 {
                assert(ends[i] == rest[i - 1]);
                assert(ends[i - 1] == rest[i - 2]);
            } else {
                assert(ends[1] == rest[0]);
            }
        }
        if rest.len() > 0 {
            assert(ends.last() == rest.last());
        }
    }
}

/// A write whose chunks have all been handed out has handed out exactly the chunk
/// plan of its bytes: consecutive, non-empty ranges of at most a chunk size each,
/// from the first byte to the last.
pub proof fn lemma_write_covered(w: &WriteChunks)
    requires
        w.wf(),
        w.done() == w.total(),
    ensures
        w.handed() == chunk_ends(0, w.total(), w.chunk_size()),
        w.handed().len() > 0 ==> w.handed().last() == w.total(),
        w.handed().len() > 0 ==> 0 < w.handed()[0] <= w.chunk_size(),
        forall|i: int|
            #![trigger w.handed()[i]]
            0 < i < w.handed().len() ==> w.handed()[i - 1] < w.handed()[i] <= w.handed()[i - 1]
                + w.chunk_size(),
{
    assert(chunk_ends(w.done(), w.total(), w.chunk_size()) == Seq::<nat>::empty());
    assert(w.handed() + Seq::<nat>::empty() =~= w.handed());
    lemma_chunks_cover_write(0, w.total(), w.chunk_size());
}

/// Successive `next` calls follow the chunk plan: the chunk that `next` hands out ends
/// where the plan's first chunk ends, and the plan of what is left is the rest.
pub proof fn lemma_next_follows_plan(w: &WriteChunks, end: nat)
    requires
        w.wf(),
        w.done() < w.total(),
        end == w.done() + min(w.chunk_size() as int, w.total() - w.done()),
    ensures
        chunk_ends(w.done(), w.total(), w.chunk_size()) == seq![end] + chunk_ends(
            end,
            w.total(),
            w.chunk_size(),
        ),
{
}

} // verus!
