use vstd::prelude::*;

use crate::compression::{compression_from_code, compression_of, Compression};
use crate::cursor::{le_u16_at, le_u32_at, ByteCursor};
use crate::error::DecodeError;
use crate::magic::{magic_from_tag, magic_of, Magic};

verus! {

/// Width in bytes of the file header together with the DIB header's size field.
pub const PREFIX_LEN: usize = 18;

/// Width in bytes of the DIB header's size field.
pub const DIB_SIZE_FIELD_LEN: u32 = 4;

/// Width in bytes of the DIB header fields that follow its size field.
pub const DIB_BODY_LEN: usize = 36;

/// The fixed 14-byte header at the start of a bitmap file.
#[derive(Debug, Clone, Copy, PartialEq, Eq, Structural)]
pub struct FileHeader {
    pub magic: Magic,
    pub file_size: u32,
    /// The two reserved 16-bit fields, read as one 32-bit value.
    pub reserved: u32,
    pub pixel_data_offset: u32,
}

/// The fields of the DIB header that follow its size field.
#[derive(Debug, Clone, Copy, PartialEq, Eq, Structural)]
pub struct DibHeader {
    pub width: u32,
    pub height: u32,
    pub color_planes: u16,
    pub bits_per_pixel: u16,
    pub compression: Compression,
    pub image_size: u32,
    pub horizontal_resolution: u32,
    pub vertical_resolution: u32,
    pub palette_color_count: u32,
    pub important_color_count: u32,
}

/// Both header blocks of a file, with the DIB header's declared size.
#[derive(Debug, Clone, Copy, PartialEq, Eq, Structural)]
pub struct Headers {
    pub file: FileHeader,
    pub dib_size: u32,
    pub dib: DibHeader,
}

/// The file header stored in the first 14 bytes of `b`.
pub open spec fn file_header_of(b: Seq<u8>) -> FileHeader
    recommends
        b.len() >= 14,
{
    FileHeader {
        magic: magic_of(b[0], b[1]),
        file_size: le_u32_at(b, 2) as u32,
        reserved: le_u32_at(b, 6) as u32,
        pixel_data_offset: le_u32_at(b, 10) as u32,
    }
}

/// The DIB header size stored in bytes 14 to 17 of `b`.
pub open spec fn dib_size_of(b: Seq<u8>) -> u32
    recommends
        b.len() >= 18,
{
    le_u32_at(b, 14) as u32
}

/// The DIB header fields stored in the first 36 bytes of `b`.
pub open spec fn dib_body_of(b: Seq<u8>) -> DibHeader
    recommends
        b.len() >= 36,
{
    DibHeader {
        width: le_u32_at(b, 0) as u32,
        height: le_u32_at(b, 4) as u32,
        color_planes: le_u16_at(b, 8) as u16,
        bits_per_pixel: le_u16_at(b, 10) as u16,
        compression: compression_of(le_u32_at(b, 12) as u32),
        image_size: le_u32_at(b, 16) as u32,
        horizontal_resolution: le_u32_at(b, 20) as u32,
        vertical_resolution: le_u32_at(b, 24) as u32,
        palette_color_count: le_u32_at(b, 28) as u32,
        important_color_count: le_u32_at(b, 32) as u32,
    }
}

/// The DIB header of a block that holds no fields beyond its size field.
pub open spec fn empty_dib() -> DibHeader {
    DibHeader {
        width: 0,
        height: 0,
        color_planes: 0,
        bits_per_pixel: 0,
        compression: Compression::Rgb,
        image_size: 0,
        horizontal_resolution: 0,
        vertical_resolution: 0,
        palette_color_count: 0,
        important_color_count: 0,
    }
}

/// The outcome of decoding a DIB header of declared size `dib_size` from the
/// bytes `avail` that follow its size field.
///
/// The block occupies `dib_size - 4` bytes. A block with no bytes gives the
/// empty header; any other block must hold at least the 36 bytes of fields.
pub open spec fn dib_result(dib_size: u32, avail: Seq<u8>) -> Result<DibHeader, DecodeError> {
    if dib_size < 4 {
        Err(DecodeError::Underflow)
    } else if avail.len() < dib_size - 4 {
        Err(DecodeError::TruncatedHeader)
    } else if dib_size == 4 {
        Ok(empty_dib())
    } else if dib_size - 4 < 36 {
        Err(DecodeError::TruncatedHeader)
    } else {
        Ok(dib_body_of(avail))
    }
}

/// The outcome of decoding both header blocks from the start of `b`.
pub open spec fn headers_result(b: Seq<u8>) -> Result<Headers, DecodeError> {
    if b.len() < 18 {
        Err(DecodeError::TruncatedHeader)
    } else {
        match dib_result(dib_size_of(b), b.skip(18)) {
            Ok(dib) => Ok(Headers { file: file_header_of(b), dib_size: dib_size_of(b), dib }),
            Err(e) => Err(e),
        }
    }
}

/// How many bytes decoding both header blocks consumes from the start of a
/// buffer whose decoding succeeds.
pub open spec fn consumed_len(b: Seq<u8>) -> int {
    18 + dib_size_of(b) - 4
}

/// Reads a little-endian 32-bit field that the caller knows to be there; the precondition
/// rules out the error arm.
fn take_u32(cur: &mut ByteCursor) -> (r: u32)
    requires
        old(cur).left() >= 4,
    ensures
        final(cur).data() == old(cur).data(),
        final(cur).pos() == old(cur).pos() + 4,
        r as int == le_u32_at(old(cur).data(), old(cur).pos() as int),
{
    match cur.read_u32_le() {
        Ok(v) => v,
        Err(_) => 0,
    }
}

/// Reads a little-endian 16-bit field that the caller knows to be there; the precondition
/// rules out the error arm.
fn take_u16(cur: &mut ByteCursor) -> (r: u16)
    requires
        old(cur).left() >= 2,
    ensures
        final(cur).data() == old(cur).data(),
        final(cur).pos() == old(cur).pos() + 2,
        r as int == le_u16_at(old(cur).data(), old(cur).pos() as int),
{
    match cur.read_u16_le() {
        Ok(v) => v,
        Err(_) => 0,
    }
}

/// Reads a byte that the caller knows to be there; the precondition
/// rules out the error arm.
fn take_u8(cur: &mut ByteCursor) -> (r: u8)
    requires
        old(cur).left() >= 1,
    ensures
        final(cur).data() == old(cur).data(),
        final(cur).pos() == old(cur).pos() + 1,
        r == old(cur).data()[old(cur).pos() as int],
{
    match cur.read_u8() {
        Ok(v) => v,
        Err(_) => 0,
    }
}

/// Decodes the file header and the DIB header's size field from the next 18
/// bytes of `cur`, leaving the cursor just past them.
///
/// Fails with `TruncatedHeader`, reading nothing, when fewer than 18 bytes
/// are left.
pub fn decode_file_header(cur: &mut ByteCursor) -> (r: Result<(FileHeader, u32), DecodeError>)
    ensures
        final(cur).data() == old(cur).data(),
        old(cur).left() >= 18 ==> r == Ok::<(FileHeader, u32), DecodeError>(
            (
                file_header_of(old(cur).data().skip(old(cur).pos() as int)),
                dib_size_of(old(cur).data().skip(old(cur).pos() as int)),
            ),
        ) && final(cur).pos() == old(cur).pos() + 18,
        old(cur).left() < 18 ==> r == Err::<(FileHeader, u32), DecodeError>(
            DecodeError::TruncatedHeader,
        ) && final(cur).pos() == old(cur).pos(),
{
    if cur.remaining() < PREFIX_LEN {
        return Err(DecodeError::TruncatedHeader);
    }
    let b0 = take_u8(cur);
    let b1 = take_u8(cur);
    let file_size = take_u32(cur);
    let reserved = take_u32(cur);
    let pixel_data_offset = take_u32(cur);
    let dib_size = take_u32(cur);
    let header = FileHeader {
        magic: magic_from_tag(b0, b1),
        file_size,
        reserved,
        pixel_data_offset,
    };
    Ok((header, dib_size))
}

/// The DIB header of a block that holds no fields beyond its size field.
fn empty_dib_header() -> (r: DibHeader)
    ensures
        r == empty_dib(),
{
    DibHeader {
        width: 0,
        height: 0,
        color_planes: 0,
        bits_per_pixel: 0,
        compression: Compression::Rgb,
        image_size: 0,
        horizontal_resolution: 0,
        vertical_resolution: 0,
        palette_color_count: 0,
        important_color_count: 0,
    }
}

/// Decodes the 36 bytes of DIB header fields at the start of `cur`.
fn decode_dib_body(cur: &mut ByteCursor) -> (r: DibHeader)
    requires
        old(cur).pos() == 0,
        old(cur).data().len() >= 36,
    ensures
        r == dib_body_of(old(cur).data()),
{
    let width = take_u32(cur);
    let height = take_u32(cur);
    let color_planes = take_u16(cur);
    let bits_per_pixel = take_u16(cur);
    let code = take_u32(cur);
    let image_size = take_u32(cur);
    let horizontal_resolution = take_u32(cur);
    let vertical_resolution = take_u32(cur);
    let palette_color_count = take_u32(cur);
    let important_color_count = take_u32(cur);
    DibHeader {
        width,
        height,
        color_planes,
        bits_per_pixel,
        compression: compression_from_code(code),
        image_size,
        horizontal_resolution,
        vertical_resolution,
        palette_color_count,
        important_color_count,
    }
}

/// Decodes a DIB header of declared total size `dib_size` from `cur`, which
/// stands just past the size field. On success the cursor has consumed
/// exactly the `dib_size - 4` bytes of the block; on failure nothing.
pub fn decode_dib_header(dib_size: u32, cur: &mut ByteCursor) -> (r: Result<DibHeader, DecodeError>)
    ensures
        final(cur).data() == old(cur).data(),
        r == dib_result(dib_size, old(cur).data().skip(old(cur).pos() as int)),
        r is Ok ==> final(cur).pos() == old(cur).pos() + dib_size - 4,
        r is Err ==> final(cur).pos() == old(cur).pos(),
        dib_size < 4 ==> r == Err::<DibHeader, DecodeError>(DecodeError::Underflow),
        dib_size == 4 ==> r == Ok::<DibHeader, DecodeError>(empty_dib()),
{
    if dib_size < DIB_SIZE_FIELD_LEN {
        return Err(DecodeError::Underflow);
    }
    let block_len = (dib_size - DIB_SIZE_FIELD_LEN) as usize;
    if cur.remaining() < block_len {
        return Err(DecodeError::TruncatedHeader);
    }
    if block_len == 0 {
        return Ok(empty_dib_header());
    }
    if block_len < DIB_BODY_LEN {
        return Err(DecodeError::TruncatedHeader);
    }
    let ghost avail = cur.data().skip(cur.pos() as int);
    let block = match cur.read_bytes(block_len) {
        Ok(v) => v,
        Err(e) => return Err(e),
    };
    let mut body = ByteCursor::new(block);
    let dib = decode_dib_body(&mut body);
    proof {
        assert(block@ =~= avail.subrange(0, block_len as int));
        assert forall|i: int| 0 <= i < 36 implies #[trigger] block@[i] == avail[i] by {}
    }
    Ok(dib)
}

/// Decodes both header blocks from the start of `bytes`.
pub fn decode_headers(bytes: &[u8]) -> (r: Result<Headers, DecodeError>)
    ensures
        r == headers_result(bytes@),
        bytes@.len() < 18 ==> r == Err::<Headers, DecodeError>(DecodeError::TruncatedHeader),
        bytes@.len() >= 18 && dib_size_of(bytes@) < 4 ==> r == Err::<Headers, DecodeError>(
            DecodeError::Underflow,
        ),
        bytes@.len() >= 18 && dib_size_of(bytes@) == 4 ==> r == Ok::<Headers, DecodeError>(
            (Headers { file: file_header_of(bytes@), dib_size: 4, dib: empty_dib() }),
        ),
{
    let mut cur = ByteCursor::new(vstd::slice::slice_to_vec(bytes));
    let (file, dib_size) = match decode_file_header(&mut cur) {
        Ok(v) => v,
        Err(e) => return Err(e),
    };
    let dib = match decode_dib_header(dib_size, &mut cur) {
        Ok(d) => d,
        Err(e) => return Err(e),
    };
    Ok(Headers { file, dib_size, dib })
}

} // verus!
