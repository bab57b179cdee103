use bmp_header_dump::{
    compression_from_code, compression_name, decode_dib_header, decode_file_header,
    decode_headers, family_name, magic_from_tag, ByteCursor, Compression, DecodeError,
    DibHeader, FileHeader, Magic,
};

fn le32(v: u32) -> [u8; 4] {
    v.to_le_bytes()
}

/// The 54-byte header of a 2x2, 24-bit, uncompressed bitmap.
fn small_bitmap() -> Vec<u8> {
    let mut b = Vec::new();
    b.extend_from_slice(b"BM");
    b.extend_from_slice(&le32(0x36));
    b.extend_from_slice(&le32(0));
    b.extend_from_slice(&le32(0x36));
    b.extend_from_slice(&le32(40));
    b.extend_from_slice(&le32(2));
    b.extend_from_slice(&le32(2));
    b.extend_from_slice(&1u16.to_le_bytes());
    b.extend_from_slice(&24u16.to_le_bytes());
    b.extend_from_slice(&le32(0));
    for _ in 0..5 {
        b.extend_from_slice(&le32(0));
    }
    b
}

fn zero_dib() -> DibHeader {
    DibHeader {
        width: 0,
        height: 0,
        color_planes: 0,
        bits_per_pixel: 0,
        compression: Compression::Rgb,
        image_size: 0,
        horizontal_resolution: 0,
        vertical_resolution: 0,
        palette_color_count: 0,
        important_color_count: 0,
    }
}

#[test]
fn known_magic_tags_name_their_family() {
    assert_eq!(family_name(b'B', b'M'), "Bitmap Windows 3.1x/95/NT");
    assert_eq!(family_name(b'B', b'A'), "OS/2 bitmap array");
    assert_eq!(family_name(b'C', b'I'), "OS/2 color icon");
    assert_eq!(family_name(b'C', b'P'), "OS/2 const color pointer");
    assert_eq!(family_name(b'I', b'C'), "OS/2 icon");
    assert_eq!(family_name(b'P', b'T'), "OS/2 pointer");
}

#[test]
fn unknown_magic_tags_fall_back() {
    assert_eq!(family_name(b'M', b'B'), "unrecognized type");
    assert_eq!(family_name(0, 0), "unrecognized type");
    assert_eq!(family_name(0xff, 0xff), "unrecognized type");
    assert_eq!(magic_from_tag(b'X', b'Y'), Magic::Unrecognized(b'X', b'Y'));
    assert_eq!(magic_from_tag(b'B', b'M'), Magic::Bitmap);
}

#[test]
fn known_compression_codes_name_their_method() {
    let names = [
        "BI_RGB",
        "BI_RLE8",
        "BI_RLE4",
        "BI_BITFIELDS",
        "BI_JPEG",
        "BI_PNG",
        "BI_ALPHABITFIELDS",
        "BI_CMYK",
        "BI_CMYKRLE8",
        "BI_CMYKRLE4",
    ];
    for (code, name) in names.iter().enumerate() {
        assert_eq!(compression_name(code as u32), *name);
    }
    assert_eq!(compression_from_code(3), Compression::Bitfields);
}

#[test]
fn unknown_compression_codes_fall_back() {
    assert_eq!(compression_name(10), "unrecognized compression method");
    assert_eq!(compression_name(u32::MAX), "unrecognized compression method");
    assert_eq!(compression_from_code(77), Compression::Unrecognized(77));
}

#[test]
fn cursor_reads_little_endian_fields() {
    let mut cur = ByteCursor::new(vec![0x01, 0x02, 0x03, 0x04, 0x05, 0x06, 0x07]);
    assert_eq!(cur.read_u8(), Ok(0x01));
    assert_eq!(cur.read_u16_le(), Ok(0x0302));
    assert_eq!(cur.position(), 3);
    assert_eq!(cur.read_u32_le(), Ok(0x0706_0504));
    assert_eq!(cur.remaining(), 0);
    assert_eq!(cur.read_u8(), Err(DecodeError::OutOfBounds));

    let mut short = ByteCursor::new(vec![0xAA, 0xBB, 0xCC]);
    assert_eq!(short.read_u32_le(), Err(DecodeError::OutOfBounds));
    assert_eq!(short.position(), 0);
    assert_eq!(short.read_u16_le(), Ok(0xBBAA));
    assert_eq!(short.read_u16_le(), Err(DecodeError::OutOfBounds));
    assert_eq!(short.position(), 2);
}

#[test]
fn cursor_reads_raw_bytes() {
    let mut cur = ByteCursor::new(vec![9, 8, 7]);
    assert_eq!(cur.read_bytes(2), Ok(vec![9, 8]));
    assert_eq!(cur.read_bytes(2), Err(DecodeError::OutOfBounds));
    assert_eq!(cur.read_bytes(1), Ok(vec![7]));
    assert_eq!(cur.read_bytes(0), Ok(vec![]));
}

#[test]
fn short_source_is_a_truncated_header() {
    let full = small_bitmap();
    for len in 0..18 {
        let mut cur = ByteCursor::new(full[..len].to_vec());
        assert_eq!(decode_file_header(&mut cur), Err(DecodeError::TruncatedHeader));
        assert_eq!(cur.position(), 0);
        assert_eq!(decode_headers(&full[..len]), Err(DecodeError::TruncatedHeader));
    }
}

#[test]
fn file_header_leaves_cursor_at_byte_eighteen() {
    let mut cur = ByteCursor::new(small_bitmap());
    let (header, dib_size) = decode_file_header(&mut cur).unwrap();
    assert_eq!(cur.position(), 18);
    assert_eq!(dib_size, 40);
    assert_eq!(
        header,
        FileHeader { magic: Magic::Bitmap, file_size: 54, reserved: 0, pixel_data_offset: 54 }
    );
}

#[test]
fn dib_size_below_four_is_underflow() {
    let mut cur = ByteCursor::new(vec![0; 40]);
    assert_eq!(decode_dib_header(3, &mut cur), Err(DecodeError::Underflow));
    assert_eq!(decode_dib_header(0, &mut cur), Err(DecodeError::Underflow));
    assert_eq!(cur.position(), 0);

    let mut b = small_bitmap();
    b[14..18].copy_from_slice(&le32(3));
    assert_eq!(decode_headers(&b), Err(DecodeError::Underflow));
}

#[test]
fn well_formed_header_decodes() {
    let h = decode_headers(&small_bitmap()).unwrap();
    assert_eq!(h.file.magic.name(), "Bitmap Windows 3.1x/95/NT");
    assert_eq!(h.file.file_size, 54);
    assert_eq!(h.file.reserved, 0);
    assert_eq!(h.file.pixel_data_offset, 54);
    assert_eq!(h.dib_size, 40);
    assert_eq!(h.dib.width, 2);
    assert_eq!(h.dib.height, 2);
    assert_eq!(h.dib.color_planes, 1);
    assert_eq!(h.dib.bits_per_pixel, 24);
    assert_eq!(h.dib.compression.name(), "BI_RGB");
    assert_eq!(h.dib.image_size, 0);
    assert_eq!(h.dib.horizontal_resolution, 0);
    assert_eq!(h.dib.vertical_resolution, 0);
    assert_eq!(h.dib.palette_color_count, 0);
    assert_eq!(h.dib.important_color_count, 0);
}

#[test]
fn decoding_twice_gives_the_same_records() {
    let b = small_bitmap();
    assert_eq!(decode_headers(&b), decode_headers(&b));
    let short = &b[..30];
    assert_eq!(decode_headers(short), decode_headers(short));
}

#[test]
fn dib_size_four_gives_an_empty_header() {
    let mut cur = ByteCursor::new(vec![]);
    assert_eq!(decode_dib_header(4, &mut cur), Ok(zero_dib()));
    assert_eq!(cur.position(), 0);

    let mut b = small_bitmap();
    b[14..18].copy_from_slice(&le32(4));
    let h = decode_headers(&b).unwrap();
    assert_eq!(h.dib_size, 4);
    assert_eq!(h.dib, zero_dib());
}

#[test]
fn dib_block_shorter_than_declared_is_truncated() {
    let b = small_bitmap();
    assert_eq!(decode_headers(&b[..53]), Err(DecodeError::TruncatedHeader));
    let mut cur = ByteCursor::new(vec![0; 35]);
    assert_eq!(decode_dib_header(40, &mut cur), Err(DecodeError::TruncatedHeader));
    assert_eq!(cur.position(), 0);
}

#[test]
fn dib_block_too_small_for_its_fields_is_truncated() {
    let mut cur = ByteCursor::new(vec![0; 40]);
    assert_eq!(decode_dib_header(16, &mut cur), Err(DecodeError::TruncatedHeader));
    assert_eq!(decode_dib_header(5, &mut cur), Err(DecodeError::TruncatedHeader));
    assert_eq!(cur.position(), 0);
}

#[test]
fn larger_dib_block_is_consumed_whole() {
    let mut body = vec![0u8; 104];
    body[0..4].copy_from_slice(&le32(640));
    body[4..8].copy_from_slice(&le32(480));
    body[12..16].copy_from_slice(&le32(3));
    body.extend_from_slice(&[0xAA, 0xBB]);
    let mut cur = ByteCursor::new(body);
    let dib = decode_dib_header(108, &mut cur).unwrap();
    assert_eq!(cur.position(), 104);
    assert_eq!(dib.width, 640);
    assert_eq!(dib.height, 480);
    assert_eq!(dib.compression, Compression::Bitfields);
    assert_eq!(cur.read_u8(), Ok(0xAA));
}

#[test]
fn trailing_bytes_do_not_change_the_records() {
    let b = small_bitmap();
    let mut longer = b.clone();
    longer.extend_from_slice(&[1, 2, 3, 4, 5]);
    assert_eq!(decode_headers(&longer), decode_headers(&b));
}

#[test]
fn fields_are_read_least_significant_byte_first() {
    let mut b = small_bitmap();
    b[2..6].copy_from_slice(&[0x78, 0x56, 0x34, 0x12]);
    b[6..10].copy_from_slice(&[0x01, 0x00, 0x02, 0x00]);
    b[10..14].copy_from_slice(&[0x00, 0x01, 0x00, 0x00]);
    b[26..28].copy_from_slice(&[0x02, 0x01]);
    b[30..34].copy_from_slice(&le32(9));
    let h = decode_headers(&b).unwrap();
    assert_eq!(h.file.file_size, 0x1234_5678);
    assert_eq!(h.file.reserved, 0x0002_0001);
    assert_eq!(h.file.pixel_data_offset, 0x100);
    assert_eq!(h.dib.color_planes, 0x0102);
    assert_eq!(h.dib.compression, Compression::CmykRle4);
    assert_eq!(h.dib.compression.name(), "BI_CMYKRLE4");
}

#[test]
fn unrecognized_magic_still_decodes() {
    let mut b = small_bitmap();
    b[0] = b'Z';
    b[1] = b'Z';
    let h = decode_headers(&b).unwrap();
    assert_eq!(h.file.magic, Magic::Unrecognized(b'Z', b'Z'));
    assert_eq!(h.file.magic.name(), "unrecognized type");
    assert_eq!(h.dib.width, 2);
}
