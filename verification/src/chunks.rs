//! The layout of a PNG file, as far as the decoders need it checked before
//! they are called.
//!
//! A file is a signature followed by chunks: four bytes of length, four
//! bytes of type, the data, and four bytes of checksum. The decoders that
//! this library calls are only handed plain files: one header, no
//! interlacing, no palette indices, no transparency or animation chunks,
//! well-framed chunks up to the end chunk, and dimensions that the bytes at
//! hand can account for.

use vstd::prelude::*;

verus! {

/// The big-endian 32-bit number at `at`.
pub open spec fn be_u32(bytes: Seq<u8>, at: int) -> int {
    bytes[at] * 0x100_0000 + bytes[at + 1] * 0x1_0000 + bytes[at + 2] * 0x100 + bytes[at + 3]
}

/// Whether the file starts with the PNG signature.
pub open spec fn has_signature(bytes: Seq<u8>) -> bool {
    &&& bytes.len() >= 8
    &&& bytes[0] == 137
    &&& bytes[1] == 80
    &&& bytes[2] == 78
    &&& bytes[3] == 71
    &&& bytes[4] == 13
    &&& bytes[5] == 10
    &&& bytes[6] == 26
    &&& bytes[7] == 10
}

/// Whether a whole chunk starts at `at`: its length, type, data and checksum
/// lie inside the file.
pub open spec fn is_framed(bytes: Seq<u8>, at: int) -> bool {
    0 <= at && at + 12 + be_u32(bytes, at) <= bytes.len()
}

/// Where the chunk after the chunk at `at` starts.
pub open spec fn next_chunk(bytes: Seq<u8>, at: int) -> int {
    at + 12 + be_u32(bytes, at)
}

/// Whether the chunk at `at` has the type `name`.
pub open spec fn has_type(bytes: Seq<u8>, at: int, name: Seq<u8>) -> bool {
    &&& bytes[at + 4] == name[0]
    &&& bytes[at + 5] == name[1]
    &&& bytes[at + 6] == name[2]
    &&& bytes[at + 7] == name[3]
}

/// The type of the header chunk, `IHDR`.
pub open spec fn header_type() -> Seq<u8> {
    seq![73u8, 72u8, 68u8, 82u8]
}

/// The type of the end chunk, `IEND`.
pub open spec fn end_type() -> Seq<u8> {
    seq![73u8, 69u8, 78u8, 68u8]
}

/// Whether the chunk at `at` is one that a plain file does not hold after
/// its header: a second header (`IHDR`), transparency (`tRNS`), or one of
/// the animation chunks (`acTL`, `fcTL`, `fdAT`).
pub open spec fn is_refused(bytes: Seq<u8>, at: int) -> bool {
    ||| has_type(bytes, at, header_type())
    ||| has_type(bytes, at, seq![116u8, 82u8, 78u8, 83u8])
    ||| has_type(bytes, at, seq![97u8, 99u8, 84u8, 76u8])
    ||| has_type(bytes, at, seq![102u8, 99u8, 84u8, 76u8])
    ||| has_type(bytes, at, seq![102u8, 100u8, 65u8, 84u8])
}

/// Whether the chunks from `at` on are whole and none is refused, up to an
/// end chunk.
pub open spec fn chunks_end_well(bytes: Seq<u8>, at: int) -> bool
    decreases bytes.len() - at,
{
    if !is_framed(bytes, at) {
        false
    } else if has_type(bytes, at, end_type()) {
        true
    } else if is_refused(bytes, at) {
        false
    } else {
        chunks_end_well(bytes, next_chunk(bytes, at))
    }
}

/// The number of bytes of a pixel whose samples take `sample_bytes` bytes
/// each, for the colour types without palette: gray (0) has one sample,
/// colour (2) three, gray with alpha (4) two, colour with alpha (6) four.
pub open spec fn pixel_bytes(color_type: u8, sample_bytes: int) -> int {
    if color_type == 0 {
        sample_bytes
    } else if color_type == 2 {
        3 * sample_bytes
    } else if color_type == 4 {
        2 * sample_bytes
    } else {
        4 * sample_bytes
    }
}

/// The width that the header declares.
pub open spec fn width(bytes: Seq<u8>) -> int {
    be_u32(bytes, 16)
}

/// The height that the header declares.
pub open spec fn height(bytes: Seq<u8>) -> int {
    be_u32(bytes, 20)
}

/// The number of bytes of the image before compression, as the header
/// declares it: for each row one filter byte and the samples of its pixels,
/// `sample_bytes` bytes each.
pub open spec fn raw_bytes(bytes: Seq<u8>, sample_bytes: int) -> int {
    (pixel_bytes(bytes[25], sample_bytes) * width(bytes) + 1) * height(bytes)
}

/// The most that compressed data can expand to, as a multiple of its size.
pub const MAX_EXPANSION: usize = 1032;

/// Whether the file is plain, with samples of `sample_bytes` bytes (1 or 2)
/// and, where `gray_only` holds, one sample per pixel:
///
/// - it starts with the signature and a header chunk of 13 bytes;
/// - the header declares a width and a height of at least 1, the bit depth
///   `8 * sample_bytes`, a colour type without palette, compression and
///   filter method 0, and no interlacing;
/// - the declared image is not larger than the file can expand to, and its
///   size in bits fits the machine;
/// - the chunks after the header are whole and none is refused, up to an end
///   chunk.
pub open spec fn is_plain(bytes: Seq<u8>, sample_bytes: int, gray_only: bool) -> bool {
    &&& has_signature(bytes)
    &&& is_framed(bytes, 8)
    &&& be_u32(bytes, 8) == 13
    &&& has_type(bytes, 8, header_type())
    &&& width(bytes) >= 1
    &&& height(bytes) >= 1
    &&& bytes[24] == 8 * sample_bytes
    &&& (bytes[25] == 0 || (!gray_only && (bytes[25] == 2 || bytes[25] == 4 || bytes[25] == 6)))
    &&& bytes[26] == 0
    &&& bytes[27] == 0
    &&& bytes[28] == 0
    &&& raw_bytes(bytes, sample_bytes) <= MAX_EXPANSION * bytes.len()
    &&& 8 * raw_bytes(bytes, sample_bytes) <= usize::MAX
    &&& chunks_end_well(bytes, 33)
}

/// Whether the file is a plain PNG with one 16-bit sample per pixel.
pub open spec fn is_depth_png(bytes: Seq<u8>) -> bool {
    is_plain(bytes, 2, true)
}

/// Whether the file is a plain PNG with 8-bit samples.
pub open spec fn is_colour_png(bytes: Seq<u8>) -> bool {
    is_plain(bytes, 1, false)
}

/// Reads the big-endian 32-bit number at `at`.
fn read_be_u32(bytes: &[u8], at: usize) -> (value: u32)
    requires
        at + 4 <= bytes.len(),
    ensures
        value == be_u32(bytes@, at as int),
{
    let b0 = bytes[at] as u32;
    let b1 = bytes[at + 1] as u32;
    let b2 = bytes[at + 2] as u32;
    let b3 = bytes[at + 3] as u32;
    b0 * 0x100_0000 + b1 * 0x1_0000 + b2 * 0x100 + b3
}

/// Decides whether the chunk at `at` has the type made of the four bytes.
fn chunk_has_type(bytes: &[u8], at: usize, n0: u8, n1: u8, n2: u8, n3: u8) -> (same: bool)
    requires
        at + 8 <= bytes.len(),
    ensures
        same == has_type(bytes@, at as int, seq![n0, n1, n2, n3]),
{
    bytes[at + 4] == n0 && bytes[at + 5] == n1 && bytes[at + 6] == n2 && bytes[at + 7] == n3
}

/// Decides [`chunks_end_well`].
pub fn check_chunks(bytes: &[u8], start: usize) -> (well: bool)
    requires
        start <= bytes.len(),
    ensures
        well == chunks_end_well(bytes@, start as int),
{
    let mut at = start;
    loop
        invariant
            at <= bytes.len(),
            chunks_end_well(bytes@, start as int) == chunks_end_well(bytes@, at as int),
        decreases bytes@.len() - at,
    {
        if bytes.len() - at < 12 {
            return false;
        }
        let length = read_be_u32(bytes, at);
        if ((bytes.len() - at - 12) as u64) < length as u64 {
            return false;
        }
        if chunk_has_type(bytes, at, 73, 69, 78, 68) {
            return true;
        }
        if chunk_has_type(bytes, at, 73, 72, 68, 82) || chunk_has_type(bytes, at, 116, 82, 78, 83)
            || chunk_has_type(bytes, at, 97, 99, 84, 76) || chunk_has_type(bytes, at, 102, 99, 84, 76)
            || chunk_has_type(bytes, at, 102, 100, 65, 84) {
            return false;
        }
        at = at + 12 + length as usize;
    }
}

/// Decides [`is_plain`].
pub fn check_plain(bytes: &[u8], sample_bytes: u8, gray_only: bool) -> (plain: bool)
    requires
        sample_bytes == 1 || sample_bytes == 2,
    ensures
        plain == is_plain(bytes@, sample_bytes as int, gray_only),
{
    if bytes.len() < 33 {
        return false;
    }
    if !(bytes[0] == 137 && bytes[1] == 80 && bytes[2] == 78 && bytes[3] == 71 && bytes[4] == 13
        && bytes[5] == 10 && bytes[6] == 26 && bytes[7] == 10) {
        return false;
    }
    if read_be_u32(bytes, 8) != 13 || !chunk_has_type(bytes, 8, 73, 72, 68, 82) {
        return false;
    }
    let width = read_be_u32(bytes, 16);
    let height = read_be_u32(bytes, 20);
    let color_type = bytes[25];
    if width < 1 || height < 1 || bytes[24] != 8 * sample_bytes {
        return false;
    }
    if !(color_type == 0 || (!gray_only && (color_type == 2 || color_type == 4 || color_type == 6))) {
        return false;
    }
    if bytes[26] != 0 || bytes[27] != 0 || bytes[28] != 0 {
        return false;
    }
    let per_pixel: u128 = if color_type == 0 {
        sample_bytes as u128
    } else if color_type == 2 {
        3 * (sample_bytes as u128)
    } else if color_type == 4 {
        2 * (sample_bytes as u128)
    } else {
        4 * (sample_bytes as u128)
    };
    assert(per_pixel * width <= 8 * 0xffff_ffff) by (nonlinear_arith)
        requires
            0 <= per_pixel <= 8,
            0 <= width <= 0xffff_ffff,
    ;
    let row: u128 = per_pixel * (width as u128) + 1;
    assert(row * height <= (8 * 0xffff_ffff + 1) * 0xffff_ffff) by (nonlinear_arith)
        requires
            0 <= row <= 8 * 0xffff_ffff + 1,
            0 <= height <= 0xffff_ffff,
    ;
    let raw: u128 = row * (height as u128);
    assert(raw == raw_bytes(bytes@, sample_bytes as int)) by (nonlinear_arith)
        requires
            raw == row * height,
            row == per_pixel * width + 1,
            per_pixel == pixel_bytes(color_type, sample_bytes as int),
            width == be_u32(bytes@, 16),
            height == be_u32(bytes@, 20),
            color_type == bytes@[25],
    ;
    if raw > (MAX_EXPANSION as u128) * (bytes.len() as u128) || 8 * raw > usize::MAX as u128 {
        return false;
    }
    check_chunks(bytes, 33)
}

} // verus!
