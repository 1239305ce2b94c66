//! The size and type prefix shared by every record.
//!
//! A header is eight bytes: the record's total size, header included, as a
//! big-endian 32-bit number, then the four-byte type tag. The records of this
//! family never use the extended 64-bit size form, and this codec does not
//! know it: a size field is taken as the size it spells.

use crate::endian::be_u32_at;
use crate::endian::be_u32_bytes;
use crate::endian::encode_u32;
use crate::endian::lemma_be_u32_located;
use crate::endian::lemma_be_u32_round_trip;
use crate::reader::Reader;
use crate::types::tag_type;
use crate::types::type_tag;
use crate::types::BoxType;
use crate::types::Error;
use crate::types::HEADER_SIZE;
use vstd::prelude::*;

verus! {

/// A record's type and its declared total size, header included.
#[derive(Debug, Clone, Copy, PartialEq, Eq, Structural)]
pub struct BoxHeader {
    pub name: BoxType,
    pub size: u64,
}

/// The eight header bytes of a record: its size, then its tag.
pub open spec fn header_bytes(name: BoxType, size: u32) -> Seq<u8> {
    be_u32_bytes(size) + be_u32_bytes(type_tag(name))
}

/// The header spelled by the eight bytes of `data` that start at `pos`.
#[verifier::opaque]
pub open spec fn header_at(data: Seq<u8>, pos: int) -> BoxHeader {
    BoxHeader {
        name: tag_type(be_u32_at(data, pos + 4) as u32),
        size: be_u32_at(data, pos) as u64,
    }
}

/// A header takes eight bytes.
pub proof fn lemma_header_len(name: BoxType, size: u32)
    ensures
        header_bytes(name, size).len() == 8,
{
    lemma_be_u32_round_trip(size);
    lemma_be_u32_round_trip(type_tag(name));
}

/// A header that was written is read back as it was, wherever it lies.
pub proof fn lemma_header_round_trip(data: Seq<u8>, pos: int, name: BoxType, size: u32)
    requires
        0 <= pos,
        pos + 8 <= data.len(),
        data.subrange(pos, pos + 8) == header_bytes(name, size),
        name.canonical(),
    ensures
        header_at(data, pos) == (BoxHeader { name, size: size as u64 }),
{
    reveal(header_at);
    let h = data.subrange(pos, pos + 8);
    lemma_be_u32_round_trip(size);
    lemma_be_u32_round_trip(type_tag(name));
    assert(data.subrange(pos, pos + 4) =~= h.subrange(0, 4));
    assert(data.subrange(pos + 4, pos + 8) =~= h.subrange(4, 8));
    assert(h.subrange(0, 4) =~= be_u32_bytes(size));
    assert(h.subrange(4, 8) =~= be_u32_bytes(type_tag(name)));
    lemma_be_u32_located(data, pos, size);
    lemma_be_u32_located(data, pos + 4, type_tag(name));
}

/// Where a stretch of `data` is `front` followed by `back`, its first part
/// is `front` and the rest is `back`.
pub proof fn lemma_split(data: Seq<u8>, lo: int, hi: int, front: Seq<u8>, back: Seq<u8>)
    requires
        0 <= lo <= hi <= data.len(),
        data.subrange(lo, hi) == front + back,
    ensures
        lo + front.len() + back.len() == hi,
        data.subrange(lo, lo + front.len()) == front,
        data.subrange(lo + front.len(), hi) == back,
{
    let whole = data.subrange(lo, hi);
    assert(whole.len() == front.len() + back.len());
    assert(data.subrange(lo, lo + front.len()) =~= whole.subrange(0, front.len() as int));
    assert(whole.subrange(0, front.len() as int) =~= front);
    assert(data.subrange(lo + front.len(), hi) =~= whole.subrange(front.len() as int, hi - lo));
    assert(whole.subrange(front.len() as int, hi - lo) =~= back);
}

/// What passing over a record's body gives when the position is `pos`, just
/// behind its header, and its declared size is `size`: the position behind
/// the record, or the reason why there is none.
pub open spec fn decode_skip(data: Seq<u8>, pos: int, size: u64) -> Result<int, Error> {
    if size < HEADER_SIZE {
        Err(Error::SizeTooSmall)
    } else if pos + size - HEADER_SIZE > data.len() {
        Err(Error::UnexpectedEof)
    } else {
        Ok(pos + size - HEADER_SIZE)
    }
}

/// Moves from just behind a record's header to the record's end; `size` is
/// the size that the header declared. On failure the position has not moved.
pub fn skip_box(reader: &mut Reader, size: u64) -> (r: Result<(), Error>)
    ensures
        final(reader).data == old(reader).data,
        size < HEADER_SIZE ==> r == Err::<(), Error>(Error::SizeTooSmall),
        r is Ok ==> final(reader).pos == old(reader).pos + size - HEADER_SIZE,
        r is Err ==> final(reader).pos == old(reader).pos,
        match decode_skip(old(reader).data@, old(reader).pos as int, size) {
            Ok(p) => r is Ok && final(reader).pos == p,
            Err(e) => r == Err::<(), Error>(e) && final(reader).pos == old(reader).pos,
        },
{
    if size < HEADER_SIZE {
        return Err(Error::SizeTooSmall);
    }
    reader.skip(size - HEADER_SIZE)
}

/// Appends `src` to `out`.
pub fn append_bytes(out: &mut Vec<u8>, src: &[u8])
    ensures
        final(out)@ == old(out)@ + src@,
{
    let mut i: usize = 0;
    while i < src.len()
        invariant
            i <= src@.len(),
            out@ == old(out)@ + src@.subrange(0, i as int),
        decreases src@.len() - i,
    {
        out.push(src[i]);
        i += 1;
        assert(out@ =~= old(out)@ + src@.subrange(0, i as int));
    }
    assert(src@.subrange(0, i as int) =~= src@);
}

impl BoxHeader {
    /// A header of this type and size.
    pub fn new(name: BoxType, size: u64) -> (h: Self)
        ensures
            h.name == name,
            h.size == size,
    {
        BoxHeader { name, size }
    }

    /// Reads the eight header bytes at the position and moves past them.
    ///
    /// Fails with `UnexpectedEof`, without moving, when fewer than eight
    /// bytes are left.
    pub fn read(reader: &mut Reader) -> (r: Result<BoxHeader, Error>)
        ensures
            final(reader).data == old(reader).data,
            match r {
                Ok(h) => old(reader).has(8) && h == header_at(
                    old(reader).data@,
                    old(reader).pos as int,
                ) && final(reader).pos == old(reader).pos + 8,
                Err(e) => e == Error::UnexpectedEof && !old(reader).has(8) && final(reader).pos
                    == old(reader).pos,
            },
    {
        proof {
            reveal(header_at);
        }
        let len = reader.data.len();
        if reader.pos > len || len - reader.pos < 8 {
            return Err(Error::UnexpectedEof);
        }
        let size = match reader.read_u32() {
            Ok(v) => v,
            Err(e) => { return Err(e); },
        };
        let tag = match reader.read_u32() {
            Ok(v) => v,
            Err(e) => { return Err(e); },
        };
        Ok(BoxHeader { name: BoxType::from_u32(tag), size: size as u64 })
    }

    /// Appends the eight header bytes to `out` and returns their number.
    ///
    /// Fails with `SizeTooLarge`, writing nothing, when the size does not fit
    /// the 32-bit size field.
    pub fn write(&self, out: &mut Vec<u8>) -> (r: Result<u64, Error>)
        ensures
            self.size <= u32::MAX ==> r == Ok::<u64, Error>(8) && final(out)@ == old(out)@
                + header_bytes(self.name, self.size as u32),
            self.size > u32::MAX ==> r == Err::<u64, Error>(Error::SizeTooLarge) && final(out)@
                == old(out)@,
    {
        if self.size > u32::MAX as u64 {
            return Err(Error::SizeTooLarge);
        }
        let size_bytes = encode_u32(self.size as u32);
        let tag_bytes = encode_u32(self.name.to_u32());
        append_bytes(out, &size_bytes);
        append_bytes(out, &tag_bytes);
        assert(final(out)@ =~= old(out)@ + header_bytes(self.name, self.size as u32));
        Ok(8)
    }
}

} // verus!
