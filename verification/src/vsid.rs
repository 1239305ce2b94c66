//! The source identifier record, `vsid`.

use crate::endian::be_u32_at;
use crate::endian::be_u32_bytes;
use crate::endian::decode_u32;
use crate::endian::encode_u32;
use crate::endian::lemma_be_u32_located;
use crate::endian::lemma_be_u32_round_trip;
use crate::header::append_bytes;
use crate::header::header_bytes;
use crate::header::lemma_header_len;
use crate::header::lemma_header_round_trip;
use crate::header::lemma_split;
use crate::header::BoxHeader;
use crate::mp4box::Mp4Box;
use crate::reader::Reader;
use crate::text::decimal;
use crate::text::labelled_number;
use crate::types::BoxType;
use crate::types::Error;
use crate::types::HEADER_SIZE;
use vstd::prelude::*;

verus! {

/// The size of every encoded source identifier: the header and four bytes.
pub const VSID_SIZE: u64 = 12;

/// The identifier of the source that a cue comes from.
#[derive(Debug, Clone, Copy, PartialEq, Eq, Structural)]
pub struct VsidBox {
    pub source_id: u32,
}

/// What decoding a source identifier gives when the position is `pos`, just
/// behind its header, and its declared size is `size`: the identifier and
/// the position behind the record, or the reason why there is none.
///
/// A declared size that cannot hold the four bytes of the identifier is too
/// small. One beyond the twelve bytes that an encoder writes is accepted,
/// and the bytes behind the identifier are passed over.
pub open spec fn decode_source_id(data: Seq<u8>, pos: int, size: u64) -> Result<(u32, int), Error> {
    if size < VSID_SIZE {
        Err(Error::SizeTooSmall)
    } else if pos + size - HEADER_SIZE > data.len() {
        Err(Error::UnexpectedEof)
    } else {
        Ok((be_u32_at(data, pos) as u32, pos + size - HEADER_SIZE))
    }
}

impl Default for VsidBox {
    fn default() -> (r: Self)
        ensures
            r.source_id == 0,
    {
        VsidBox { source_id: 0 }
    }
}

impl VsidBox {
    /// The record's type.
    pub fn get_type(&self) -> (t: BoxType)
        ensures
            t == BoxType::VsidBox,
    {
        BoxType::VsidBox
    }

    /// The record's size on the wire, header included.
    pub fn get_size(&self) -> (n: u64)
        ensures
            n == VSID_SIZE,
    {
        HEADER_SIZE + 4
    }
}

impl Mp4Box for VsidBox {
    type Model = u32;

    open spec fn record_type() -> BoxType {
        BoxType::VsidBox
    }

    /// The identifier.
    open spec fn model(&self) -> u32 {
        self.source_id
    }

    open spec fn encoded_size(&self) -> nat {
        VSID_SIZE as nat
    }

    /// The header, then the identifier as a big-endian 32-bit number.
    open spec fn encoding(&self) -> Seq<u8> {
        header_bytes(BoxType::VsidBox, VSID_SIZE as u32) + be_u32_bytes(self.source_id)
    }

    open spec fn is_nul_free(&self) -> bool {
        true
    }

    open spec fn decoded(data: Seq<u8>, pos: int, size: u64) -> Result<(u32, int), Error> {
        decode_source_id(data, pos, size)
    }

    fn box_type(&self) -> (t: BoxType) {
        self.get_type()
    }

    fn box_size(&self) -> (n: u64) {
        self.get_size()
    }

    /// `source_id=` and the identifier in decimal.
    fn summary(&self) -> (r: Result<String, Error>)
        ensures
            r->Ok_0@ == "source_id="@ + decimal(self.source_id as nat),
    {
        Ok(labelled_number("source_id=", self.source_id as u64))
    }

    fn read_box(reader: &mut Reader, size: u64) -> (r: Result<Self, Error>)
        ensures
            decode_source_id(old(reader).data@, old(reader).pos as int, size) matches Ok((v, _))
                ==> r == Ok::<Self, Error>(VsidBox { source_id: v }),
    {
        if size < VSID_SIZE {
            return Err(Error::SizeTooSmall);
        }
        let body = match reader.take(size - HEADER_SIZE) {
            Ok(b) => b,
            Err(e) => { return Err(e); },
        };
        let source_id = decode_u32(body);
        Ok(VsidBox { source_id })
    }

    fn write_box(&self, out: &mut Vec<u8>) -> (r: Result<u64, Error>) {
        let size = self.box_size();
        let header = BoxHeader::new(self.box_type(), size);
        match header.write(out) {
            Ok(_) => {},
            Err(e) => { return Err(e); },
        }
        let body = encode_u32(self.source_id);
        append_bytes(out, &body);
        proof {
            self.lemma_encoding_len();
            assert(final(out)@ =~= old(out)@ + self.encoding());
        }
        Ok(size)
    }

    proof fn lemma_encoding_len(&self) {
        lemma_header_len(BoxType::VsidBox, 12);
        lemma_be_u32_round_trip(self.source_id);
    }

    proof fn lemma_round_trip(&self, data: Seq<u8>, pos: int) {
        lemma_header_len(BoxType::VsidBox, 12);
        lemma_split(
            data,
            pos,
            pos + 12,
            header_bytes(BoxType::VsidBox, 12),
            be_u32_bytes(self.source_id),
        );
        lemma_header_round_trip(data, pos, BoxType::VsidBox, 12);
        lemma_be_u32_located(data, pos + 8, self.source_id);
    }
}

} // verus!
