use vstd::prelude::*;

verus! {

/// The ways in which decoding a header can fail.
#[derive(Debug, Clone, Copy, PartialEq, Eq, Structural)]
pub enum DecodeError {
    /// A read asked for more bytes than the cursor still holds.
    OutOfBounds,
    /// The bytes supplied end before the header being decoded does.
    TruncatedHeader,
    /// The declared DIB header size is smaller than its own size field.
    Underflow,
}

} // verus!
