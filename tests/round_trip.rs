//! Round trips through both adapters, with a stand-in block codec in place of liblz4.
//!
//! The stand-in's frames are a 4-byte header, blocks of a 2-byte little-endian length
//! followed by that many bytes, and an end of 2 zero bytes and a 2-byte sum of the
//! content. Its decoder is incremental, consumes and produces partially, and hints how
//! many bytes it still needs, as the real codec does.

use lz4rs::frame::compress::{chunk_hint, flush_again, Compressor};
use lz4rs::frame::decompress::{CopyStep, Decompressor, ReadStep};
use lz4rs::frame::structs::{ErrorKind, Lz4Error};

const MAGIC: &[u8; 4] = b"LZ4S";

/// Block size of the stand-in: like LZ4F, it holds input back until a block is full.
const BLOCK: usize = 4096;

/// Worst-case output of one update of `n` bytes with `held` bytes held back.
fn update_bound(n: usize, held: usize) -> usize {
    ((n + held) / BLOCK) * (BLOCK + 2)
}

/// Worst-case output for `n` bytes of input, whatever is held back, end included.
fn bound(n: usize) -> usize {
    update_bound(n, BLOCK - 1) + 4
}

struct Encoder {
    held: Vec<u8>,
    sum: u16,
}

impl Encoder {
    fn new() -> Encoder {
        Encoder { held: Vec::new(), sum: 0 }
    }

    fn begin(&mut self, dst: &mut [u8]) -> usize {
        dst[..4].copy_from_slice(MAGIC);
        4
    }

    fn emit_block(&mut self, dst: &mut [u8], n: usize) -> usize {
        dst[..2].copy_from_slice(&(n as u16).to_le_bytes());
        dst[2..2 + n].copy_from_slice(&self.held[..n]);
        self.held.drain(..n);
        2 + n
    }

    fn update(&mut self, dst: &mut [u8], src: &[u8]) -> Result<usize, String> {
        if dst.len() < update_bound(src.len(), self.held.len()) {
            return Err("destination too small".to_string());
        }
        for b in src {
            self.sum = self.sum.wrapping_add(*b as u16);
        }
        self.held.extend_from_slice(src);
        let mut o = 0;
        while self.held.len() >= BLOCK {
            o += self.emit_block(&mut dst[o..], BLOCK);
        }
        Ok(o)
    }

    fn flush(&mut self, dst: &mut [u8]) -> usize {
        let n = self.held.len();
        if n == 0 {
            return 0;
        }
        self.emit_block(dst, n)
    }

    fn end(&mut self, dst: &mut [u8]) -> usize {
        let o = self.flush(dst);
        dst[o..o + 2].copy_from_slice(&[0, 0]);
        dst[o + 2..o + 4].copy_from_slice(&self.sum.to_le_bytes());
        o + 4
    }
}

enum Part {
    Header(usize),
    Len(Vec<u8>),
    Data(usize),
    Trailer(Vec<u8>),
    Done,
}

struct Decoder {
    part: Part,
    sum: u16,
}

impl Decoder {
    fn new() -> Decoder {
        Decoder { part: Part::Header(0), sum: 0 }
    }

    fn hint(&self) -> usize {
        match &self.part {
            Part::Header(k) => 4 - k,
            Part::Len(v) => 2 - v.len(),
            Part::Data(r) => *r,
            Part::Trailer(v) => 2 - v.len(),
            Part::Done => 0,
        }
    }

    /// Decodes what it can; returns (consumed, produced, hint) or an error.
    fn decode(&mut self, src: &[u8], dst: &mut [u8]) -> Result<(usize, usize, usize), String> {
        let (mut i, mut o) = (0usize, 0usize);
        loop {
            match &mut self.part {
                Part::Done => break,
                Part::Header(k) => {
                    if i == src.len() {
                        break;
                    }
                    if src[i] != MAGIC[*k] {
                        return Err("bad header".to_string());
                    }
                    i += 1;
                    *k += 1;
                    if *k == 4 {
                        self.part = Part::Len(Vec::new());
                    }
                }
                Part::Len(v) => {
                    if i == src.len() {
                        break;
                    }
                    v.push(src[i]);
                    i += 1;
                    if v.len() == 2 {
                        let n = u16::from_le_bytes([v[0], v[1]]) as usize;
                        self.part = if n == 0 { Part::Trailer(Vec::new()) } else { Part::Data(n) };
                    }
                }
                Part::Data(r) => {
                    let n = (*r).min(src.len() - i).min(dst.len() - o);
                    if n == 0 {
                        break;
                    }
                    dst[o..o + n].copy_from_slice(&src[i..i + n]);
                    for b in &src[i..i + n] {
                        self.sum = self.sum.wrapping_add(*b as u16);
                    }
                    i += n;
                    o += n;
                    *r -= n;
                    if *r == 0 {
                        self.part = Part::Len(Vec::new());
                    }
                }
                Part::Trailer(v) => {
                    if i == src.len() {
                        break;
                    }
                    v.push(src[i]);
                    i += 1;
                    if v.len() == 2 {
                        if u16::from_le_bytes([v[0], v[1]]) != self.sum {
                            return Err("checksum mismatch".to_string());
                        }
                        self.part = Part::Done;
                    }
                }
            }
        }
        Ok((i, o, self.hint()))
    }
}

/// Compresses `data`, written in pieces of `piece` bytes, with an output buffer sized
/// for `buf_size` bytes of input.
fn compress(data: &[u8], piece: usize, buf_size: Option<usize>) -> Result<Vec<u8>, Lz4Error> {
    let mut enc = Encoder::new();
    let capacity = bound(chunk_hint(buf_size));
    let mut c = Compressor::default(capacity);
    let mut out_buf = vec![0u8; c.capacity()];
    let mut sink = Vec::new();
    let n = enc.begin(&mut out_buf);
    sink.extend_from_slice(&out_buf[..n]);
    for part in data.chunks(piece.max(1)) {
        let mut chunks = c.write(part.len())?;
        while let Some((start, end)) = chunks.next() {
            let n = enc.update(&mut out_buf, &part[start..end]).map_err(Lz4Error::new)?;
            sink.extend_from_slice(&out_buf[..n]);
        }
    }
    c.flush()?;
    loop {
        let n = enc.flush(&mut out_buf);
        sink.extend_from_slice(&out_buf[..n]);
        if !flush_again(n) {
            break;
        }
    }
    c.end()?;
    let n = enc.end(&mut out_buf);
    assert!(n >= 4);
    sink.extend_from_slice(&out_buf[..n]);
    Ok(sink)
}

fn read_call(
    dec: &mut Decompressor,
    src: &[u8],
    pos: &mut usize,
    read_size: usize,
    codec: &mut Decoder,
    dst: &mut [u8],
) -> Result<usize, Lz4Error> {
    let mut step = dec.read(dst.len())?;
    loop {
        match step {
            ReadStep::Refill => {
                let n = read_size.min(dec.capacity()).min(src.len() - *pos);
                let data = src[*pos..*pos + n].to_vec();
                *pos += n;
                step = dec.refilled(&data);
            }
            ReadStep::Decode { src_start, src_end, dst_start, dst_end } => {
                let input = dec.buffer()[src_start..src_end].to_vec();
                let (c, p, h) = codec
                    .decode(&input, &mut dst[dst_start..dst_end])
                    .map_err(Lz4Error::new)?;
                step = dec.decoded(c, p, h);
            }
            ReadStep::Done(n) => return Ok(n),
        }
    }
}

/// Decompresses a whole frame, reading the source `read_size` bytes at a time into a
/// raw buffer of `buf_size` bytes, and the output `scratch` bytes at a time.
fn decompress(
    frame: &[u8],
    read_size: usize,
    buf_size: Option<usize>,
    scratch: usize,
) -> Result<Vec<u8>, Lz4Error> {
    let mut dec = Decompressor::new(buf_size);
    let mut codec = Decoder::new();
    let mut pos = 0usize;
    let mut buf = vec![0u8; scratch];
    let mut out = Vec::new();
    loop {
        let n = match read_call(&mut dec, frame, &mut pos, read_size, &mut codec, &mut buf) {
            Ok(n) => n,
            Err(e) if e.kind == ErrorKind::EndOfStream => break,
            Err(e) => return Err(e),
        };
        match dec.copy_step(n)? {
            CopyStep::Write(k) => out.extend_from_slice(&buf[..k]),
            CopyStep::Stop => break,
        }
    }
    Ok(out)
}

fn pseudo_random(n: usize) -> Vec<u8> {
    let mut x: u32 = 0x2545_f491;
    (0..n)
        .map(|_| {
            x ^= x << 13;
            x ^= x >> 17;
            x ^= x << 5;
            (x >> 24) as u8
        })
        .collect()
}

fn sample() -> Vec<u8> {
    b"This is a test\nA what?\n".repeat(4)[..58].to_vec()
}

#[test]
fn it_works() {
    let data: &[u8] = b"This is a test\nA what?\nA test\nA what?\nA test\nOh a test\n";
    let v = compress(data, data.len(), None).unwrap();
    let mut dec = Decompressor::new(None);
    let mut codec = Decoder::new();
    let mut pos = 0usize;
    let mut buf: [u8; 1024] = [0; 1024];
    let bytes_decompressed = read_call(&mut dec, &v, &mut pos, 1024, &mut codec, &mut buf).unwrap();
    assert_eq!(data, &buf[..bytes_decompressed]);
}

#[test]
fn round_trip_of_various_inputs() {
    let inputs: Vec<Vec<u8>> = vec![
        Vec::new(),
        vec![42],
        vec![7; 1024],
        pseudo_random(5000),
        pseudo_random(3 * BLOCK + 17),
        sample(),
    ];
    for data in &inputs {
        let frame = compress(data, 1000, None).unwrap();
        assert_eq!(&decompress(&frame, 4096, None, 1024).unwrap(), data);
        let frame = compress(data, 3, Some(16)).unwrap();
        assert_eq!(&decompress(&frame, 7, Some(5), 11).unwrap(), data);
    }
}

#[test]
fn byte_by_byte_source_gives_the_same_output() {
    let data = pseudo_random(3000);
    let frame = compress(&data, 700, Some(256)).unwrap();
    let whole = decompress(&frame, frame.len(), Some(frame.len()), 4096).unwrap();
    let bytewise = decompress(&frame, 1, None, 64).unwrap();
    assert_eq!(whole, data);
    assert_eq!(bytewise, whole);
}

#[test]
fn empty_input_gives_a_minimal_frame() {
    let frame = compress(&[], 1, None).unwrap();
    // header and end, no block
    assert_eq!(frame.len(), 8);
    assert_eq!(&frame[4..], &[0, 0, 0, 0]);
    let mut dec = Decompressor::new(None);
    let mut codec = Decoder::new();
    let mut pos = 0usize;
    let mut buf = [0u8; 16];
    let n = read_call(&mut dec, &frame, &mut pos, 1024, &mut codec, &mut buf).unwrap();
    assert_eq!(n, 0);
    assert!(dec.is_finished());
    assert_eq!(dec.copy_step(n).unwrap(), CopyStep::Stop);
}

#[test]
fn fifty_eight_byte_scenario() {
    let data = sample();
    assert_eq!(data.len(), 58);
    let frame = compress(&data, 58, None).unwrap();
    // header, one block of the 58 bytes, end
    assert_eq!(frame.len(), 4 + 2 + 58 + 4);
    assert_eq!(&frame[..4], MAGIC);
    assert_eq!(decompress(&frame, 1024, None, 1024).unwrap(), data);
}

#[test]
fn truncated_frame_is_reported() {
    let data = sample();
    let frame = compress(&data, 58, None).unwrap();
    let err = decompress(&frame[..30], 8, Some(8), 16).unwrap_err();
    assert_eq!(err.kind, ErrorKind::Truncated);
}

#[test]
fn codec_error_is_reported() {
    let mut frame = compress(&sample(), 58, None).unwrap();
    let last = frame.len() - 1;
    frame[last] ^= 0xff;
    let err = decompress(&frame, 1024, None, 1024).unwrap_err();
    assert_eq!(err.kind, ErrorKind::Engine);
    assert_eq!(err.desc, "checksum mismatch");
}
