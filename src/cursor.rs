use byteorder::{ByteOrder, LittleEndian};
use vstd::prelude::*;
use vstd::slice::{slice_subrange, slice_to_vec};

use crate::error::DecodeError;

verus! {

/// The 16-bit unsigned value stored little-endian at `b[i]`, `b[i + 1]`.
pub open spec fn le_u16_at(b: Seq<u8>, i: int) -> int {
    b[i] as int + 256 * (b[i + 1] as int)
}

/// The 32-bit unsigned value stored little-endian at `b[i]` .. `b[i + 3]`.
pub open spec fn le_u32_at(b: Seq<u8>, i: int) -> int {
    le_u16_at(b, i) + 65536 * le_u16_at(b, i + 2)
}

/// Relies on byteorder's `LittleEndian::read_u16`: the first two bytes of
/// `buf`, least significant first; it panics on a shorter slice.
#[verifier::external_body]
fn read_le_u16(buf: &[u8]) -> (r: u16)
    requires
        buf@.len() >= 2,
    ensures
        r as int == le_u16_at(buf@, 0),
{
    <LittleEndian as ByteOrder>::read_u16(buf)
}

/// Relies on byteorder's `LittleEndian::read_u32`: the first four bytes of
/// `buf`, least significant first; it panics on a shorter slice.
#[verifier::external_body]
fn read_le_u32(buf: &[u8]) -> (r: u32)
    requires
        buf@.len() >= 4,
    ensures
        r as int == le_u32_at(buf@, 0),
{
    <LittleEndian as ByteOrder>::read_u32(buf)
}

/// A forward-only reader over a byte buffer that tracks its read position.
pub struct ByteCursor {
    buf: Vec<u8>,
    pos: usize,
}

impl ByteCursor {
    #[verifier::type_invariant]
    spec fn inv(&self) -> bool {
        self.pos <= self.buf.len()
    }

    /// The bytes the cursor reads from.
    pub closed spec fn data(&self) -> Seq<u8> {
        self.buf@
    }

    /// The index of the next byte to be read.
    pub closed spec fn pos(&self) -> nat {
        self.pos as nat
    }

    /// How many bytes are left to read.
    pub open spec fn left(&self) -> int {
        self.data().len() - self.pos()
    }

    /// A cursor at the start of `buf`.
    pub fn new(buf: Vec<u8>) -> (r: ByteCursor)
        ensures
            r.data() == buf@,
            r.pos() == 0,
    {
        ByteCursor { buf, pos: 0 }
    }

    /// The index of the next byte to be read.
    pub fn position(&self) -> (r: usize)
        ensures
            r == self.pos(),
    {
        self.pos
    }

    /// How many bytes are left to read.
    pub fn remaining(&self) -> (r: usize)
        ensures
            r == self.left(),
    {
        proof {
            use_type_invariant(self);
        }
        self.buf.len() - self.pos
    }

    /// Reads the next byte.
    pub fn read_u8(&mut self) -> (r: Result<u8, DecodeError>)
        ensures
            final(self).data() == old(self).data(),
            old(self).left() >= 1 ==> r == Ok::<u8, DecodeError>(old(self).data()[old(self).pos() as int])
                && final(self).pos() == old(self).pos() + 1,
            old(self).left() < 1 ==> r == Err::<u8, DecodeError>(DecodeError::OutOfBounds)
                && final(self).pos() == old(self).pos(),
    {
        proof {
            use_type_invariant(&*self);
        }
        if self.buf.len() - self.pos < 1 {
            return Err(DecodeError::OutOfBounds);
        }
        let b = self.buf[self.pos];
        self.pos = self.pos + 1;
        Ok(b)
    }

    /// Reads the next two bytes as a little-endian unsigned integer.
    pub fn read_u16_le(&mut self) -> (r: Result<u16, DecodeError>)
        ensures
            final(self).data() == old(self).data(),
            old(self).left() >= 2 ==> r is Ok && r->Ok_0 as int == le_u16_at(
                old(self).data(),
                old(self).pos() as int,
            ) && final(self).pos() == old(self).pos() + 2,
            old(self).left() < 2 ==> r == Err::<u16, DecodeError>(DecodeError::OutOfBounds)
                && final(self).pos() == old(self).pos(),
    {
        proof {
            use_type_invariant(&*self);
        }
        if self.buf.len() - self.pos < 2 {
            return Err(DecodeError::OutOfBounds);
        }
        let field = slice_subrange(self.buf.as_slice(), self.pos, self.pos + 2);
        let v = read_le_u16(field);
        self.pos = self.pos + 2;
        Ok(v)
    }

    /// Reads the next four bytes as a little-endian unsigned integer.
    pub fn read_u32_le(&mut self) -> (r: Result<u32, DecodeError>)
        ensures
            final(self).data() == old(self).data(),
            old(self).left() >= 4 ==> r is Ok && r->Ok_0 as int == le_u32_at(
                old(self).data(),
                old(self).pos() as int,
            ) && final(self).pos() == old(self).pos() + 4,
            old(self).left() < 4 ==> r == Err::<u32, DecodeError>(DecodeError::OutOfBounds)
                && final(self).pos() == old(self).pos(),
    {
        proof {
            use_type_invariant(&*self);
        }
        if self.buf.len() - self.pos < 4 {
            return Err(DecodeError::OutOfBounds);
        }
        let field = slice_subrange(self.buf.as_slice(), self.pos, self.pos + 4);
        let v = read_le_u32(field);
        self.pos = self.pos + 4;
        Ok(v)
    }

    /// Reads the next `n` bytes as they are.
    pub fn read_bytes(&mut self, n: usize) -> (r: Result<Vec<u8>, DecodeError>)
        ensures
            final(self).data() == old(self).data(),
            old(self).left() >= n ==> r is Ok && r->Ok_0@ == old(self).data().subrange(
                old(self).pos() as int,
                old(self).pos() + n,
            ) && final(self).pos() == old(self).pos() + n,
            old(self).left() < n ==> r is Err && r->Err_0 == DecodeError::OutOfBounds
                && final(self).pos() == old(self).pos(),
    {
        proof {
            use_type_invariant(&*self);
        }
        if self.buf.len() - self.pos < n {
            return Err(DecodeError::OutOfBounds);
        }
        let field = slice_subrange(self.buf.as_slice(), self.pos, self.pos + n);
        let v = slice_to_vec(field);
        self.pos = self.pos + n;
        Ok(v)
    }
}

} // verus!
