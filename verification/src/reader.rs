//! A cursor over the bytes that records are decoded from.

use crate::endian::be_u16_at;
use crate::endian::be_u32_at;
use crate::endian::decode_u16;
use crate::endian::decode_u32;
use crate::types::Error;
use vstd::prelude::*;
use vstd::slice::slice_subrange;

verus! {

/// A byte slice and the index of the next byte to read.
///
/// No operation moves the position past the end of the slice, and every
/// operation that fails leaves the position where it was.
#[derive(Debug, Clone, Copy)]
pub struct Reader<'a> {
    pub data: &'a [u8],
    pub pos: usize,
}

impl<'a> Reader<'a> {
    /// Whether `n` more bytes lie between the position and the end.
    pub open spec fn has(&self, n: int) -> bool {
        self.pos + n <= self.data@.len()
    }

    /// The `n` bytes that start at the position.
    pub open spec fn peek(&self, n: int) -> Seq<u8>
        recommends
            self.has(n),
    {
        self.data@.subrange(self.pos as int, self.pos + n)
    }

    /// A cursor at the first byte of `data`.
    pub fn new(data: &'a [u8]) -> (r: Self)
        ensures
            r.data == data,
            r.pos == 0,
    {
        Reader { data, pos: 0 }
    }

    /// The index of the next byte to read.
    pub fn position(&self) -> (p: u64)
        ensures
            p == self.pos,
    {
        self.pos as u64
    }

    /// Hands out the next `n` bytes and moves past them, or fails with
    /// `UnexpectedEof`, without moving, when fewer than `n` are left.
    pub fn take(&mut self, n: u64) -> (r: Result<&'a [u8], Error>)
        ensures
            final(self).data == old(self).data,
            match r {
                Ok(s) => old(self).has(n as int) && s@ == old(self).peek(n as int) && final(self).pos == old(self).pos + n,
                Err(e) => e == Error::UnexpectedEof && !old(self).has(n as int) && final(self).pos
                    == old(self).pos,
            },
    {
        let len = self.data.len();
        if self.pos > len || n > (len - self.pos) as u64 {
            return Err(Error::UnexpectedEof);
        }
        let end = self.pos + n as usize;
        let s = slice_subrange(self.data, self.pos, end);
        self.pos = end;
        Ok(s)
    }

    /// Moves past the next `n` bytes, or fails with `UnexpectedEof`, without
    /// moving, when fewer than `n` are left.
    pub fn skip(&mut self, n: u64) -> (r: Result<(), Error>)
        ensures
            final(self).data == old(self).data,
            match r {
                Ok(_) => old(self).has(n as int) && final(self).pos == old(self).pos + n,
                Err(e) => e == Error::UnexpectedEof && !old(self).has(n as int) && final(self).pos
                    == old(self).pos,
            },
    {
        match self.take(n) {
            Ok(_) => Ok(()),
            Err(e) => Err(e),
        }
    }

    /// Reads a big-endian 32-bit number and moves past it.
    pub fn read_u32(&mut self) -> (r: Result<u32, Error>)
        ensures
            final(self).data == old(self).data,
            match r {
                Ok(v) => old(self).has(4) && v == be_u32_at(old(self).data@, old(self).pos as int)
                    && final(self).pos == old(self).pos + 4,
                Err(e) => e == Error::UnexpectedEof && !old(self).has(4) && final(self).pos == old(self).pos,
            },
    {
        match self.take(4) {
            Ok(s) => Ok(decode_u32(s)),
            Err(e) => Err(e),
        }
    }

    /// Reads a big-endian 16-bit number and moves past it.
    pub fn read_u16(&mut self) -> (r: Result<u16, Error>)
        ensures
            final(self).data == old(self).data,
            match r {
                Ok(v) => old(self).has(2) && v == be_u16_at(old(self).data@, old(self).pos as int)
                    && final(self).pos == old(self).pos + 2,
                Err(e) => e == Error::UnexpectedEof && !old(self).has(2) && final(self).pos == old(self).pos,
            },
    {
        match self.take(2) {
            Ok(s) => Ok(decode_u16(s)),
            Err(e) => Err(e),
        }
    }
}

} // verus!
