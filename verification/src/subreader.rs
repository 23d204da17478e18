//! A read position in a byte stream, with an origin that offsets are counted
//! from.

use vstd::prelude::*;
use vstd::slice::{slice_subrange, slice_to_vec};
use crate::error::DecodeError;
use crate::wire::{
    be_u16, be_u64, be_units, fits, le_i16, le_i32, le_i64, le_u16, le_u32, le_u64, read_i16_le,
    read_i32_le, read_i64_le, read_u16_be, read_u16_le, read_u32_le, read_u64_be, read_u64_le,
    signed8, u16_be_at,
};

verus! {

/// A cursor over the bytes of a stream. Seeking counts from `offset`, so a
/// section that starts in the middle of a stream is read as if it were a
/// stream of its own; no byte is copied.
pub struct SubReader<'a> {
    inner: &'a [u8],
    offset: usize,
    position: usize,
}

impl<'a> SubReader<'a> {
    /// All bytes of the underlying stream.
    pub closed spec fn stream(&self) -> Seq<u8> {
        self.inner@
    }

    /// The place in the stream that seeking counts from.
    pub closed spec fn base(&self) -> usize {
        self.offset
    }

    /// The place in the stream of the next byte to read.
    pub closed spec fn pos(&self) -> usize {
        self.position
    }

    /// `self` reads the same stream from the same origin as `before`, `n` bytes
    /// further on.
    pub open spec fn took(&self, before: &Self, n: int) -> bool {
        &&& self.stream() == before.stream()
        &&& self.base() == before.base()
        &&& self.pos() == before.pos() + n
    }

    /// The bytes that a read of `n` bytes at `self` gives.
    pub open spec fn next(&self, n: int) -> Seq<u8> {
        self.stream().subrange(self.pos() as int, self.pos() + n)
    }

    /// A read of `n` bytes at `before` succeeded and left `self`: the bytes
    /// were there, and `self` stands behind them.
    pub open spec fn read(&self, before: &Self, n: int) -> bool {
        fits(before.stream(), before.pos() as int, n) && self.took(before, n)
    }

    /// A read of `n` bytes at `before` failed with `e` and left `self`: the
    /// stream ends before the bytes do, and `self` stands where `before`
    /// stood.
    pub open spec fn cut_short(&self, before: &Self, n: int, e: DecodeError) -> bool {
        e == DecodeError::UnexpectedEof && !fits(before.stream(), before.pos() as int, n)
            && self.took(before, 0)
    }

    /// A cursor at `offset` in `inner`, which is also its origin.
    pub fn new(inner: &'a [u8], offset: usize) -> (r: Self)
        ensures
            r.stream() == inner@,
            r.base() == offset,
            r.pos() == offset,
    {
        SubReader { inner, offset, position: offset }
    }

    /// The bytes of the underlying stream.
    pub fn get_ref(&self) -> (r: &'a [u8])
        ensures
            r@ == self.stream(),
    {
        self.inner
    }

    /// The place in the stream that seeking counts from.
    pub fn origin(&self) -> (r: usize)
        ensures
            r == self.base(),
    {
        self.offset
    }

    /// The place in the stream of the next byte to read.
    pub fn stream_position(&self) -> (r: usize)
        ensures
            r == self.pos(),
    {
        self.position
    }

    /// A cursor over the same stream whose origin and position are `offset`
    /// bytes after the origin of `self`, or nothing where no `usize` holds
    /// that place.
    pub fn section(&self, offset: usize) -> (r: Option<SubReader<'a>>)
        ensures
            match r {
                Some(sub) => sub.stream() == self.stream() && sub.base() == self.base() + offset
                    && sub.pos() == sub.base(),
                None => self.base() + offset > usize::MAX,
            },
    {
        if offset > usize::MAX - self.offset {
            return None;
        }
        let start: usize = self.offset + offset;
        Some(SubReader { inner: self.inner, offset: start, position: start })
    }

    /// Moves to `pos` bytes after the origin. A place beyond the end of the
    /// stream is accepted, and reads there fail; only a place that no `usize`
    /// can hold is refused.
    pub fn seek(&mut self, pos: usize) -> (r: Result<(), DecodeError>)
        ensures
            final(self).stream() == old(self).stream(),
            final(self).base() == old(self).base(),
            match r {
                Ok(_) => final(self).pos() == old(self).base() + pos,
                Err(e) => e == DecodeError::UnexpectedEof && old(self).base() + pos > usize::MAX
                    && final(self).pos() == old(self).pos(),
            },
    {
        if pos > usize::MAX - self.offset {
            return Err(DecodeError::UnexpectedEof);
        }
        self.position = self.offset + pos;
        Ok(())
    }

    /// The next `n` bytes, borrowed from the stream.
    pub fn take(&mut self, n: usize) -> (r: Result<&'a [u8], DecodeError>)
        ensures
            match r {
                Ok(b) => final(self).read(old(self), n as int) && b@ == old(self).next(n as int),
                Err(e) => final(self).cut_short(old(self), n as int, e),
            },
    {
        if self.position > self.inner.len() || self.inner.len() - self.position < n {
            return Err(DecodeError::UnexpectedEof);
        }
        let b = slice_subrange(self.inner, self.position, self.position + n);
        self.position = self.position + n;
        Ok(b)
    }

    /// The next `n` bytes, copied.
    pub fn read_exact(&mut self, n: usize) -> (r: Result<Vec<u8>, DecodeError>)
        ensures
            match r {
                Ok(b) => final(self).read(old(self), n as int) && b@ == old(self).next(n as int),
                Err(e) => final(self).cut_short(old(self), n as int, e),
            },
    {
        let b = self.take(n)?;
        Ok(slice_to_vec(b))
    }

    /// The next `n` 16-bit units, each stored big-endian.
    pub fn read_u16_into_be(&mut self, n: usize) -> (r: Result<Vec<u16>, DecodeError>)
        ensures
            match r {
                Ok(v) => final(self).read(old(self), 2 * n) && v@ == be_units(
                    old(self).stream(),
                    old(self).pos() as int,
                    n as nat,
                ),
                Err(e) => final(self).cut_short(old(self), 2 * n, e),
            },
    {
        let len: usize = self.inner.len();
        if n > len / 2 {
            return Err(DecodeError::UnexpectedEof);
        }
        let b = self.take(2 * n)?;
        let mut units: Vec<u16> = Vec::new();
        let mut i: usize = 0;
        while i < n
            invariant
                i <= n,
                2 * n <= usize::MAX,
                b@.len() == 2 * n,
                b@ == old(self).next(2 * n),
                fits(old(self).stream(), old(self).pos() as int, 2 * n),
                units@.len() == i,
                forall|j: int|
                    0 <= j < i ==> units@[j] == be_u16(old(self).stream(), old(self).pos() + 2 * j),
            decreases n - i,
        {
            units.push(u16_be_at(b, 2 * i));
            i = i + 1;
        }
        assert(units@ =~= be_units(old(self).stream(), old(self).pos() as int, n as nat));
        Ok(units)
    }

    /// The next byte.
    pub fn read_u8(&mut self) -> (r: Result<u8, DecodeError>)
        ensures
            match r {
                Ok(v) => final(self).read(old(self), 1) && v == old(self).next(1)[0],
                Err(e) => final(self).cut_short(old(self), 1, e),
            },
    {
        let b = self.take(1)?;
        Ok(b[0])
    }

    /// The next byte, read in two's complement.
    pub fn read_i8(&mut self) -> (r: Result<i8, DecodeError>)
        ensures
            match r {
                Ok(v) => final(self).read(old(self), 1) && v == signed8(old(self).next(1)[0]),
                Err(e) => final(self).cut_short(old(self), 1, e),
            },
    {
        let b = self.take(1)?;
        let v: u8 = b[0];
        if v >= 0x80 {
            Ok((v as i16 - 0x100) as i8)
        } else {
            Ok(v as i8)
        }
    }

    /// The next two bytes as a little-endian `u16`.
    pub fn read_u16_le(&mut self) -> (r: Result<u16, DecodeError>)
        ensures
            match r {
                Ok(v) => final(self).read(old(self), 2) && v == le_u16(
                    old(self).stream(),
                    old(self).pos() as int,
                ),
                Err(e) => final(self).cut_short(old(self), 2, e),
            },
    {
        let b = self.take(2)?;
        Ok(read_u16_le(b))
    }

    /// The next two bytes as a big-endian `u16`.
    pub fn read_u16_be(&mut self) -> (r: Result<u16, DecodeError>)
        ensures
            match r {
                Ok(v) => final(self).read(old(self), 2) && v == be_u16(
                    old(self).stream(),
                    old(self).pos() as int,
                ),
                Err(e) => final(self).cut_short(old(self), 2, e),
            },
    {
        let b = self.take(2)?;
        Ok(read_u16_be(b))
    }

    /// The next two bytes as a little-endian `i16`.
    pub fn read_i16_le(&mut self) -> (r: Result<i16, DecodeError>)
        ensures
            match r {
                Ok(v) => final(self).read(old(self), 2) && v == le_i16(
                    old(self).stream(),
                    old(self).pos() as int,
                ),
                Err(e) => final(self).cut_short(old(self), 2, e),
            },
    {
        let b = self.take(2)?;
        Ok(read_i16_le(b))
    }

    /// The next four bytes as a little-endian `u32`.
    pub fn read_u32_le(&mut self) -> (r: Result<u32, DecodeError>)
        ensures
            match r {
                Ok(v) => final(self).read(old(self), 4) && v == le_u32(
                    old(self).stream(),
                    old(self).pos() as int,
                ),
                Err(e) => final(self).cut_short(old(self), 4, e),
            },
    {
        let b = self.take(4)?;
        Ok(read_u32_le(b))
    }

    /// The next four bytes as a little-endian `i32`.
    pub fn read_i32_le(&mut self) -> (r: Result<i32, DecodeError>)
        ensures
            match r {
                Ok(v) => final(self).read(old(self), 4) && v == le_i32(
                    old(self).stream(),
                    old(self).pos() as int,
                ),
                Err(e) => final(self).cut_short(old(self), 4, e),
            },
    {
        let b = self.take(4)?;
        Ok(read_i32_le(b))
    }

    /// The next eight bytes as a little-endian `u64`.
    pub fn read_u64_le(&mut self) -> (r: Result<u64, DecodeError>)
        ensures
            match r {
                Ok(v) => final(self).read(old(self), 8) && v == le_u64(
                    old(self).stream(),
                    old(self).pos() as int,
                ),
                Err(e) => final(self).cut_short(old(self), 8, e),
            },
    {
        let b = self.take(8)?;
        Ok(read_u64_le(b))
    }

    /// The next eight bytes as a big-endian `u64`.
    pub fn read_u64_be(&mut self) -> (r: Result<u64, DecodeError>)
        ensures
            match r {
                Ok(v) => final(self).read(old(self), 8) && v == be_u64(
                    old(self).stream(),
                    old(self).pos() as int,
                ),
                Err(e) => final(self).cut_short(old(self), 8, e),
            },
    {
        let b = self.take(8)?;
        Ok(read_u64_be(b))
    }

    /// The next eight bytes as a little-endian `i64`.
    pub fn read_i64_le(&mut self) -> (r: Result<i64, DecodeError>)
        ensures
            match r {
                Ok(v) => final(self).read(old(self), 8) && v == le_i64(
                    old(self).stream(),
                    old(self).pos() as int,
                ),
                Err(e) => final(self).cut_short(old(self), 8, e),
            },
    {
        let b = self.take(8)?;
        Ok(read_i64_le(b))
    }
}

} // verus!
