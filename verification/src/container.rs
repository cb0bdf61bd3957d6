//! Parser for the fixed-header binary image container.
//!
//! A container is a 13-byte header followed by a packed payload of
//! `width * height / 2` bytes. The header holds a 4-byte magic tag, a
//! one-byte format version, and the image width and height as
//! little-endian `u32` values, which must equal the panel's fixed
//! resolution.

use vstd::prelude::*;

verus! {

/// Width of the panel, in pixels. The resolution is fixed.
pub const EPD_WIDTH: u32 = 800;

/// Height of the panel, in pixels.
pub const EPD_HEIGHT: u32 = 480;

/// Size of the container header, in bytes.
pub const HEADER_SIZE: usize = 13;

/// Size of one full display frame, in bytes: two pixels are packed per byte.
pub const FRAME_SIZE: usize = 800 * 480 / 2;

/// The single supported format version.
pub const FORMAT_VERSION: u8 = 1;

/// A rejected header: one variant for each check, in the order the checks
/// are made.
#[derive(Clone, Copy, Debug, PartialEq, Eq, Structural)]
pub enum FormatError {
    /// The first four bytes differ from the fixed magic tag.
    InvalidMagic,
    /// The version byte differs from the single supported value.
    InvalidVersion,
    /// Width or height differ from the panel's fixed resolution.
    InvalidDimensions,
}

/// A buffer or payload shorter than an operation requires.
#[derive(Clone, Copy, Debug, PartialEq, Eq, Structural)]
pub enum SizeError {
    /// The buffer holds fewer bytes than the operation needs.
    BufferTooSmall,
}

/// Everything the driver core can fail with.
#[derive(Clone, Copy, Debug, PartialEq, Eq, Structural)]
pub enum Error {
    /// The container header was rejected.
    Format(FormatError),
    /// A buffer or payload was too short.
    Size(SizeError),
    /// A network request or response failed.
    Transport,
    /// A bus write failed.
    Hardware,
}

/// What a valid header yields: where the payload starts and how many bytes
/// it must hold.
#[derive(Clone, Copy, Debug, PartialEq, Eq, Structural)]
pub struct HeaderInfo {
    /// Offset of the first payload byte: the header size.
    pub payload_offset: usize,
    /// Exact number of payload bytes expected: `width * height / 2`.
    pub payload_len: usize,
}

/// The first four header bytes spell the fixed magic tag `EPD7`.
pub open spec fn spec_magic_ok(data: Seq<u8>) -> bool {
    &&& data[0] == 69u8
    &&& data[1] == 80u8
    &&& data[2] == 68u8
    &&& data[3] == 55u8
}

/// The `u32` stored little-endian in `data` at offsets `i .. i + 4`.
pub open spec fn spec_le_u32(data: Seq<u8>, i: int) -> int {
    data[i] + data[i + 1] * 0x100 + data[i + 2] * 0x10000 + data[i + 3] * 0x1000000
}

/// The header's version byte is the single supported value.
pub open spec fn spec_version_ok(data: Seq<u8>) -> bool {
    data[4] == FORMAT_VERSION
}

/// The header's width and height equal the panel's fixed resolution.
pub open spec fn spec_dimensions_ok(data: Seq<u8>) -> bool {
    &&& spec_le_u32(data, 5) == EPD_WIDTH
    &&& spec_le_u32(data, 9) == EPD_HEIGHT
}

/// The whole header is valid: magic, version and dimensions all pass.
pub open spec fn spec_header_ok(data: Seq<u8>) -> bool {
    &&& spec_magic_ok(data)
    &&& spec_version_ok(data)
    &&& spec_dimensions_ok(data)
}

/// Reads the little-endian `u32` at `data[i .. i + 4]`.
fn read_le_u32(data: &[u8], i: usize) -> (r: u32)
    requires
        i + 4 <= data@.len(),
    ensures
        r == spec_le_u32(data@, i as int),
{
    let b0 = data[i] as u32;
    let b1 = data[i + 1] as u32;
    let b2 = data[i + 2] as u32;
    let b3 = data[i + 3] as u32;
    b0 + b1 * 0x100 + b2 * 0x10000 + b3 * 0x1000000
}

/// Validates the 13-byte container header.
///
/// The checks run in a fixed order: magic tag, then version, then
/// dimensions; the first failing check names the error. On success the
/// payload starts at offset 13 and must hold exactly `width * height / 2`
/// bytes. The parser never reads past the header; whether the payload is
/// long enough is the caller's concern.
pub fn parse_header(data: &[u8]) -> (r: Result<HeaderInfo, Error>)
    requires
        data@.len() >= HEADER_SIZE,
    ensures
        r is Ok <==> spec_header_ok(data@),
        r matches Ok(h) ==> h.payload_offset == HEADER_SIZE && h.payload_len == FRAME_SIZE,
        r == Err::<HeaderInfo, Error>(Error::Format(FormatError::InvalidMagic)) <==> !spec_magic_ok(
            data@,
        ),
        r == Err::<HeaderInfo, Error>(Error::Format(FormatError::InvalidVersion)) <==> (
        spec_magic_ok(data@) && !spec_version_ok(data@)),
        r == Err::<HeaderInfo, Error>(Error::Format(FormatError::InvalidDimensions)) <==> (
        spec_magic_ok(data@) && spec_version_ok(data@) && !spec_dimensions_ok(data@)),
{
    if !(data[0] == 69 && data[1] == 80 && data[2] == 68 && data[3] == 55) {
        return Err(Error::Format(FormatError::InvalidMagic));
    }
    if data[4] != FORMAT_VERSION {
        return Err(Error::Format(FormatError::InvalidVersion));
    }
    let width = read_le_u32(data, 5);
    let height = read_le_u32(data, 9);
    if width != EPD_WIDTH || height != EPD_HEIGHT {
        return Err(Error::Format(FormatError::InvalidDimensions));
    }
    Ok(HeaderInfo { payload_offset: HEADER_SIZE, payload_len: FRAME_SIZE })
}

} // verus!
