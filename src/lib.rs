//! Decoding of the two header blocks at the start of a bitmap image file:
//! the fixed file header and the size-prefixed DIB header.

pub mod compression;
pub mod cursor;
pub mod error;
pub mod header;
pub mod laws;
pub mod magic;

pub use compression::{compression_from_code, compression_name, Compression};
pub use cursor::ByteCursor;
pub use error::DecodeError;
pub use header::{
    decode_dib_header, decode_file_header, decode_headers, DibHeader, FileHeader, Headers,
    DIB_BODY_LEN, DIB_SIZE_FIELD_LEN, PREFIX_LEN,
};
pub use magic::{family_name, magic_from_tag, Magic};
