use vstd::prelude::*;

verus! {

/// The method by which the pixel data is encoded.
#[derive(Debug, Clone, Copy, PartialEq, Eq, Structural)]
pub enum Compression {
    Rgb,
    Rle8,
    Rle4,
    Bitfields,
    Jpeg,
    Png,
    AlphaBitfields,
    Cmyk,
    CmykRle8,
    CmykRle4,
    /// Any other code, kept as it was read.
    Unrecognized(u32),
}

/// The method that the numeric code names.
pub open spec fn compression_of(code: u32) -> Compression {
    if code == 0 {
        Compression::Rgb
    } else if code == 1 {
        Compression::Rle8
    } else if code == 2 {
        Compression::Rle4
    } else if code == 3 {
        Compression::Bitfields
    } else if code == 4 {
        Compression::Jpeg
    } else if code == 5 {
        Compression::Png
    } else if code == 6 {
        Compression::AlphaBitfields
    } else if code == 7 {
        Compression::Cmyk
    } else if code == 8 {
        Compression::CmykRle8
    } else if code == 9 {
        Compression::CmykRle4
    } else {
        Compression::Unrecognized(code)
    }
}

/// Resolves a numeric compression code; an unknown code is not an error.
pub fn compression_from_code(code: u32) -> (r: Compression)
    ensures
        r == compression_of(code),
{
    match code {
        0 => Compression::Rgb,
        1 => Compression::Rle8,
        2 => Compression::Rle4,
        3 => Compression::Bitfields,
        4 => Compression::Jpeg,
        5 => Compression::Png,
        6 => Compression::AlphaBitfields,
        7 => Compression::Cmyk,
        8 => Compression::CmykRle8,
        9 => Compression::CmykRle4,
        _ => Compression::Unrecognized(code),
    }
}

impl Compression {
    /// The symbolic name of the method.
    pub open spec fn spec_name(self) -> Seq<char> {
        match self {
            Compression::Rgb => "BI_RGB"@,
            Compression::Rle8 => "BI_RLE8"@,
            Compression::Rle4 => "BI_RLE4"@,
            Compression::Bitfields => "BI_BITFIELDS"@,
            Compression::Jpeg => "BI_JPEG"@,
            Compression::Png => "BI_PNG"@,
            Compression::AlphaBitfields => "BI_ALPHABITFIELDS"@,
            Compression::Cmyk => "BI_CMYK"@,
            Compression::CmykRle8 => "BI_CMYKRLE8"@,
            Compression::CmykRle4 => "BI_CMYKRLE4"@,
            Compression::Unrecognized(_) => "unrecognized compression method"@,
        }
    }

    /// The symbolic name of the method.
    pub fn name(&self) -> (r: &'static str)
        ensures
            r@ == self.spec_name(),
    {
        match self {
            Compression::Rgb => "BI_RGB",
            Compression::Rle8 => "BI_RLE8",
            Compression::Rle4 => "BI_RLE4",
            Compression::Bitfields => "BI_BITFIELDS",
            Compression::Jpeg => "BI_JPEG",
            Compression::Png => "BI_PNG",
            Compression::AlphaBitfields => "BI_ALPHABITFIELDS",
            Compression::Cmyk => "BI_CMYK",
            Compression::CmykRle8 => "BI_CMYKRLE8",
            Compression::CmykRle4 => "BI_CMYKRLE4",
            Compression::Unrecognized(_) => "unrecognized compression method",
        }
    }
}

/// The symbolic name of a numeric code: the documented name for each of the
/// codes 0 to 9, and the fallback name for every other 32-bit value.
pub fn compression_name(code: u32) -> (r: &'static str)
    ensures
        r@ == compression_of(code).spec_name(),
        code == 0 ==> r@ == "BI_RGB"@,
        code == 1 ==> r@ == "BI_RLE8"@,
        code == 2 ==> r@ == "BI_RLE4"@,
        code == 3 ==> r@ == "BI_BITFIELDS"@,
        code == 4 ==> r@ == "BI_JPEG"@,
        code == 5 ==> r@ == "BI_PNG"@,
        code == 6 ==> r@ == "BI_ALPHABITFIELDS"@,
        code == 7 ==> r@ == "BI_CMYK"@,
        code == 8 ==> r@ == "BI_CMYKRLE8"@,
        code == 9 ==> r@ == "BI_CMYKRLE4"@,
        code > 9 ==> r@ == "unrecognized compression method"@,
{
    compression_from_code(code).name()
}

} // verus!
