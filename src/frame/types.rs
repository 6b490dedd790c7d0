//! Option records of the frame format, with their documented defaults.

use vstd::prelude::*;

verus! {

/// Largest compression level the codec distinguishes; higher levels count as this one.
pub const MAX_COMPRESSION_LEVEL: u32 = 16;

/// Kinds of error of the frame API, numbered as in its first releases. Later releases
/// of the codec insert further kinds, so a code returned by the linked codec is
/// classified and named by the codec itself, not by this table.
#[derive(Debug, Clone, Copy, PartialEq, Eq, Structural)]
pub enum FrameErrorKind {
    OkNoError,
    Generic,
    InvalidMaxBlockSize,
    InvalidBlockMode,
    InvalidContentChecksumFlag,
    InvalidCompressionLevel,
    FailedAllocation,
    SrcSizeTooLarge,
    DstMaxSizeTooSmall,
    WrongFrameSize,
    UnknownFrameType,
    FailedDecompression,
    InvalidChecksum,
}

/// Maximum size of the blocks a frame is cut into.
#[derive(Debug, Clone, Copy, PartialEq, Eq, Structural)]
pub enum BlockSize {
    Default,
    Max64KB,
    Max256KB,
    Max1MB,
    Max4MB,
}

/// Whether each block may refer to the data of the blocks before it.
#[derive(Debug, Clone, Copy, PartialEq, Eq, Structural)]
pub enum BlockMode {
    Linked,
    Independent,
}

/// Whether a checksum of the whole content closes the frame.
#[derive(Debug, Clone, Copy, PartialEq, Eq, Structural)]
pub enum ContentChecksum {
    Disabled,
    Enabled,
}

/// Kind of frame.
#[derive(Debug, Clone, Copy, PartialEq, Eq, Structural)]
pub enum FrameType {
    Default,
    SkippableFrame,
}

/// The number of an error kind in the first releases of the frame API.
pub open spec fn error_kind_code(k: FrameErrorKind) -> usize {
    match k {
        FrameErrorKind::OkNoError => 0,
        FrameErrorKind::Generic => 1,
        FrameErrorKind::InvalidMaxBlockSize => 2,
        FrameErrorKind::InvalidBlockMode => 3,
        FrameErrorKind::InvalidContentChecksumFlag => 4,
        FrameErrorKind::InvalidCompressionLevel => 5,
        FrameErrorKind::FailedAllocation => 6,
        FrameErrorKind::SrcSizeTooLarge => 7,
        FrameErrorKind::DstMaxSizeTooSmall => 8,
        FrameErrorKind::WrongFrameSize => 9,
        FrameErrorKind::UnknownFrameType => 10,
        FrameErrorKind::FailedDecompression => 11,
        FrameErrorKind::InvalidChecksum => 12,
    }
}

impl FrameErrorKind {
    /// The number of this error kind in the first releases of the frame API.
    pub fn code(&self) -> (r: usize)
        ensures
            r == error_kind_code(*self),
    {
        match self {
            FrameErrorKind::OkNoError => 0,
            FrameErrorKind::Generic => 1,
            FrameErrorKind::InvalidMaxBlockSize => 2,
            FrameErrorKind::InvalidBlockMode => 3,
            FrameErrorKind::InvalidContentChecksumFlag => 4,
            FrameErrorKind::InvalidCompressionLevel => 5,
            FrameErrorKind::FailedAllocation => 6,
            FrameErrorKind::SrcSizeTooLarge => 7,
            FrameErrorKind::DstMaxSizeTooSmall => 8,
            FrameErrorKind::WrongFrameSize => 9,
            FrameErrorKind::UnknownFrameType => 10,
            FrameErrorKind::FailedDecompression => 11,
            FrameErrorKind::InvalidChecksum => 12,
        }
    }
}

/// The identifier the frame header uses for a block size.
pub open spec fn block_size_id(b: BlockSize) -> u32 {
    match b {
        BlockSize::Default => 0,
        BlockSize::Max64KB => 4,
        BlockSize::Max256KB => 5,
        BlockSize::Max1MB => 6,
        BlockSize::Max4MB => 7,
    }
}

impl BlockSize {
    /// The identifier the frame header uses for this block size.
    pub fn id(&self) -> (r: u32)
        ensures
            r == block_size_id(*self),
    {
        match self {
            BlockSize::Default => 0,
            BlockSize::Max64KB => 4,
            BlockSize::Max256KB => 5,
            BlockSize::Max1MB => 6,
            BlockSize::Max4MB => 7,
        }
    }
}

/// Summary of a frame header: what a frame declares about itself.
#[derive(Debug, Clone, Copy, PartialEq, Eq, Structural)]
pub struct FrameInfo {
    pub block_size_id: BlockSize,
    pub block_mode: BlockMode,
    pub content_checksum_flag: ContentChecksum,
    pub frame_type: FrameType,
    /// Size of the content, 0 when unknown.
    pub content_size: u64,
}

impl FrameInfo {
    /// A header summary with the given fields.
    pub fn new(
        bsize: BlockSize,
        bmode: BlockMode,
        checksum_flag: bool,
        ftype: FrameType,
        content_size: usize,
    ) -> (r: FrameInfo)
        ensures
            r.block_size_id == bsize,
            r.block_mode == bmode,
            r.content_checksum_flag == (if checksum_flag {
                ContentChecksum::Enabled
            } else {
                ContentChecksum::Disabled
            }),
            r.frame_type == ftype,
            r.content_size == content_size as u64,
    {
        FrameInfo {
            block_size_id: bsize,
            block_mode: bmode,
            content_checksum_flag: if checksum_flag {
                ContentChecksum::Enabled
            } else {
                ContentChecksum::Disabled
            },
            frame_type: ftype,
            content_size: content_size as u64,
        }
    }
}

/// The default header summary: default block size, linked blocks, no checksum,
/// a normal frame of unknown size.
pub open spec fn default_frame_info() -> FrameInfo {
    FrameInfo {
        block_size_id: BlockSize::Default,
        block_mode: BlockMode::Linked,
        content_checksum_flag: ContentChecksum::Disabled,
        frame_type: FrameType::Default,
        content_size: 0,
    }
}

impl Default for FrameInfo {
    fn default() -> (r: FrameInfo)
        ensures
            r == default_frame_info(),
    {
        FrameInfo {
            block_size_id: BlockSize::Default,
            block_mode: BlockMode::Linked,
            content_checksum_flag: ContentChecksum::Disabled,
            frame_type: FrameType::Default,
            content_size: 0,
        }
    }
}

/// What a compressed frame is to look like.
#[derive(Debug, Clone, Copy, PartialEq, Eq, Structural)]
pub struct FramePreferences {
    pub frame_info: FrameInfo,
    /// 0 is the fast default; levels above 16 count as 16.
    pub compression_level: u32,
    /// 1 asks the codec to emit each block at once rather than buffer it.
    pub auto_flush: u32,
}

/// The level stored for a requested compression level.
pub open spec fn clamped_level(level: usize) -> u32 {
    if level > MAX_COMPRESSION_LEVEL {
        MAX_COMPRESSION_LEVEL
    } else {
        level as u32
    }
}

/// The default preferences: the default header, level 0, no automatic flush.
pub open spec fn default_preferences() -> FramePreferences {
    FramePreferences { frame_info: default_frame_info(), compression_level: 0, auto_flush: 0 }
}

impl FramePreferences {
    /// Preferences with the given header, the level clamped to 16, and the flush flag.
    pub fn new(finfo: FrameInfo, compress_lvl: usize, auto_flush: bool) -> (r: FramePreferences)
        ensures
            r.frame_info == finfo,
            r.compression_level == clamped_level(compress_lvl),
            r.compression_level <= MAX_COMPRESSION_LEVEL,
            r.auto_flush == (if auto_flush {
                1u32
            } else {
                0u32
            }),
    {
        FramePreferences {
            frame_info: finfo,
            compression_level: if compress_lvl > 16 {
                MAX_COMPRESSION_LEVEL
            } else {
                compress_lvl as u32
            },
            auto_flush: if auto_flush {
                1
            } else {
                0
            },
        }
    }

    /// The given preferences, or the defaults where none are given.
    pub fn or_default(prefs: Option<FramePreferences>) -> (r: FramePreferences)
        ensures
            r == (match prefs {
                Some(p) => p,
                None => default_preferences(),
            }),
    {
        match prefs {
            Some(p) => p,
            None => FramePreferences::default(),
        }
    }
}

impl Default for FramePreferences {
    fn default() -> (r: FramePreferences)
        ensures
            r == default_preferences(),
    {
        FramePreferences { frame_info: FrameInfo::default(), compression_level: 0, auto_flush: 0 }
    }
}

/// Options of each compression call.
#[derive(Debug, Clone, Copy, PartialEq, Eq, Structural)]
pub struct FrameCompressOptions {
    /// 1 promises that the source stays available on later calls, so the codec need
    /// not copy it aside as a dictionary.
    pub stable_src: u32,
}

impl FrameCompressOptions {
    /// Options with the given stability promise.
    pub fn new(src_stable: bool) -> (r: FrameCompressOptions)
        ensures
            r.stable_src == (if src_stable {
                1u32
            } else {
                0u32
            }),
    {
        FrameCompressOptions {
            stable_src: if src_stable {
                1
            } else {
                0
            },
        }
    }

    /// The given options, or the defaults where none are given.
    pub fn or_default(opts: Option<FrameCompressOptions>) -> (r: FrameCompressOptions)
        ensures
            r == (match opts {
                Some(o) => o,
                None => FrameCompressOptions { stable_src: 0 },
            }),
    {
        match opts {
            Some(o) => o,
            None => FrameCompressOptions::default(),
        }
    }
}

impl Default for FrameCompressOptions {
    fn default() -> (r: FrameCompressOptions)
        ensures
            r.stable_src == 0,
    {
        FrameCompressOptions { stable_src: 0 }
    }
}

/// Options of each decompression call.
#[derive(Debug, Clone, Copy, PartialEq, Eq, Structural)]
pub struct FrameDecompressOptions {
    /// 1 promises that decoded data stays in place on later calls, so the codec need
    /// not keep a copy of it.
    pub stable_dst: u32,
}

impl FrameDecompressOptions {
    /// Options with the given stability promise.
    pub fn new(dst_stable: bool) -> (r: FrameDecompressOptions)
        ensures
            r.stable_dst == (if dst_stable {
                1u32
            } else {
                0u32
            }),
    {
        FrameDecompressOptions {
            stable_dst: if dst_stable {
                1
            } else {
                0
            },
        }
    }
}

impl Default for FrameDecompressOptions {
    fn default() -> (r: FrameDecompressOptions)
        ensures
            r.stable_dst == 0,
    {
        FrameDecompressOptions { stable_dst: 0 }
    }
}

} // verus!
