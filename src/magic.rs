use vstd::prelude::*;

verus! {

/// The bitmap family named by the two-byte tag at the start of a file.
#[derive(Debug, Clone, Copy, PartialEq, Eq, Structural)]
pub enum Magic {
    /// `BM`
    Bitmap,
    /// `BA`
    BitmapArray,
    /// `CI`
    ColorIcon,
    /// `CP`
    ColorPointer,
    /// `IC`
    Icon,
    /// `PT`
    Pointer,
    /// Any other pair of bytes, kept as it was read.
    Unrecognized(u8, u8),
}

/// The family that the tag `b0 b1` names, with the tag's letters as ASCII
/// codes (`B` 66, `M` 77, `A` 65, `C` 67, `I` 73, `P` 80, `T` 84).
pub open spec fn magic_of(b0: u8, b1: u8) -> Magic {
    if b0 == 66 && b1 == 77 {
        Magic::Bitmap
    } else if b0 == 66 && b1 == 65 {
        Magic::BitmapArray
    } else if b0 == 67 && b1 == 73 {
        Magic::ColorIcon
    } else if b0 == 67 && b1 == 80 {
        Magic::ColorPointer
    } else if b0 == 73 && b1 == 67 {
        Magic::Icon
    } else if b0 == 80 && b1 == 84 {
        Magic::Pointer
    } else {
        Magic::Unrecognized(b0, b1)
    }
}

/// Resolves a two-byte tag to its family; an unknown tag is not an error.
pub fn magic_from_tag(b0: u8, b1: u8) -> (r: Magic)
    ensures
        r == magic_of(b0, b1),
{
    if b0 == 66 && b1 == 77 {
        Magic::Bitmap
    } else if b0 == 66 && b1 == 65 {
        Magic::BitmapArray
    } else if b0 == 67 && b1 == 73 {
        Magic::ColorIcon
    } else if b0 == 67 && b1 == 80 {
        Magic::ColorPointer
    } else if b0 == 73 && b1 == 67 {
        Magic::Icon
    } else if b0 == 80 && b1 == 84 {
        Magic::Pointer
    } else {
        Magic::Unrecognized(b0, b1)
    }
}

impl Magic {
    /// The human-readable name of the family.
    pub open spec fn spec_name(self) -> Seq<char> {
        match self {
            Magic::Bitmap => "Bitmap Windows 3.1x/95/NT"@,
            Magic::BitmapArray => "OS/2 bitmap array"@,
            Magic::ColorIcon => "OS/2 color icon"@,
            Magic::ColorPointer => "OS/2 const color pointer"@,
            Magic::Icon => "OS/2 icon"@,
            Magic::Pointer => "OS/2 pointer"@,
            Magic::Unrecognized(_, _) => "unrecognized type"@,
        }
    }

    /// The human-readable name of the family.
    pub fn name(&self) -> (r: &'static str)
        ensures
            r@ == self.spec_name(),
    {
        match self {
            Magic::Bitmap => "Bitmap Windows 3.1x/95/NT",
            Magic::BitmapArray => "OS/2 bitmap array",
            Magic::ColorIcon => "OS/2 color icon",
            Magic::ColorPointer => "OS/2 const color pointer",
            Magic::Icon => "OS/2 icon",
            Magic::Pointer => "OS/2 pointer",
            Magic::Unrecognized(_, _) => "unrecognized type",
        }
    }
}

/// The name of the family that a tag names: the documented name for each of
/// the six known tags, and the fallback name for every other pair of bytes.
pub fn family_name(b0: u8, b1: u8) -> (r: &'static str)
    ensures
        r@ == magic_of(b0, b1).spec_name(),
        b0 == 66 && b1 == 77 ==> r@ == "Bitmap Windows 3.1x/95/NT"@,
        b0 == 66 && b1 == 65 ==> r@ == "OS/2 bitmap array"@,
        b0 == 67 && b1 == 73 ==> r@ == "OS/2 color icon"@,
        b0 == 67 && b1 == 80 ==> r@ == "OS/2 const color pointer"@,
        b0 == 73 && b1 == 67 ==> r@ == "OS/2 icon"@,
        b0 == 80 && b1 == 84 ==> r@ == "OS/2 pointer"@,
        magic_of(b0, b1) is Unrecognized ==> r@ == "unrecognized type"@,
{
    magic_from_tag(b0, b1).name()
}

} // verus!
