//! The fixed byte layout of a settings file.
//!
//! ```text
//! header (17 bytes)                 record (73 bytes each)
//! 0x00 magic            4           +0x00 eight modifier states  8 x 4
//! 0x04 remappings       4           +0x20 original key           4
//! 0x08 flip flag        1           +0x24 vivaldi-to-fn flag     1
//! 0x09 has assistant    4           +0x25 remapped key           4
//! 0x0D non-chrome EC    4           +0x29 eight additional keys  8 x 4
//! ```
//!
//! Nothing is padded: the records follow the header directly and each other
//! without gaps.

use vstd::prelude::*;

verus! {

/// Size of the file header in bytes.
pub const HEADER_SIZE: usize = 17;

/// Size of one remap record in bytes.
pub const RECORD_SIZE: usize = 73;

/// The magic number: the bytes `42 4B 72 43` ("BKrC") read little-endian.
pub const CFG_MAGIC: u32 = 0x4372_4B42;

/// Offset of the record count in the header.
pub const OFFSET_REMAPPINGS: usize = 0x04;

/// Offset of the flip-search-and-assistant flag in the header.
pub const OFFSET_FLIP_FLAG: usize = 0x08;

/// Offset of the has-assistant-key override in the header.
pub const OFFSET_HAS_ASSISTANT: usize = 0x09;

/// Offset of the non-chrome-EC override in the header.
pub const OFFSET_NON_CHROME_EC: usize = 0x0D;

/// Offset of the original key within a record.
pub const RECORD_ORIGINAL_KEY: usize = 0x20;

/// Offset of the vivaldi-to-fn flag within a record.
pub const RECORD_VIVALDI_FLAG: usize = 0x24;

/// Offset of the remapped key within a record.
pub const RECORD_REMAPPED_KEY: usize = 0x25;

/// Offset of the first additional key within a record.
pub const RECORD_ADDITIONAL_KEYS: usize = 0x29;

/// The magic number as it lies in the file, byte for byte.
pub open spec fn magic_bytes() -> Seq<u8> {
    seq![0x42u8, 0x4Bu8, 0x72u8, 0x43u8]
}

/// Number of complete records that fit into a buffer of `len` bytes behind
/// the header; zero when not even the header fits.
pub open spec fn records_fitting(len: nat) -> nat {
    if len < 17 {
        0
    } else {
        ((len - 17) / 73) as nat
    }
}

/// Why a layout was refused.
#[derive(Clone, Copy, Debug, PartialEq, Eq)]
pub enum LayoutError {
    /// The header does not take 17 bytes but `found`.
    HeaderSize { found: usize },
    /// A record does not take 73 bytes but `found`.
    RecordSize { found: usize },
}

/// What `check_layout` answers for the two sizes.
pub open spec fn layout_outcome(header_size: usize, record_size: usize) -> Result<
    (),
    LayoutError,
> {
    if header_size != 17 {
        Err(LayoutError::HeaderSize { found: header_size })
    } else if record_size != 73 {
        Err(LayoutError::RecordSize { found: record_size })
    } else {
        Ok(())
    }
}

/// Accepts exactly the layout the driver expects: a 17-byte header and
/// 73-byte records. The header is judged first.
pub fn check_layout(header_size: usize, record_size: usize) -> (r: Result<(), LayoutError>)
    ensures
        r == layout_outcome(header_size, record_size),
{
    if header_size != HEADER_SIZE {
        Err(LayoutError::HeaderSize { found: header_size })
    } else if record_size != RECORD_SIZE {
        Err(LayoutError::RecordSize { found: record_size })
    } else {
        Ok(())
    }
}

} // verus!
