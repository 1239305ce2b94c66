//! The empty cue record, `vtte`: a marker for a stretch of time without a cue.

use crate::header::decode_skip;
use crate::header::header_bytes;
use crate::header::lemma_header_len;
use crate::header::lemma_header_round_trip;
use crate::header::skip_box;
use crate::header::BoxHeader;
use crate::mp4box::Mp4Box;
use crate::reader::Reader;
use crate::types::BoxType;
use crate::types::Error;
use crate::types::HEADER_SIZE;
use vstd::prelude::*;

verus! {

/// A record without a body.
#[derive(Debug, Clone, Copy, PartialEq, Eq, Structural)]
pub struct VtteBox {}

impl Default for VtteBox {
    fn default() -> (r: Self) {
        VtteBox {  }
    }
}

impl VtteBox {
    /// The record's type.
    pub fn get_type(&self) -> (t: BoxType)
        ensures
            t == BoxType::VtteBox,
    {
        BoxType::VtteBox
    }

    /// The record's size on the wire, header included.
    pub fn get_size(&self) -> (n: u64)
        ensures
            n == HEADER_SIZE,
    {
        HEADER_SIZE
    }
}

impl Mp4Box for VtteBox {
    type Model = ();

    open spec fn record_type() -> BoxType {
        BoxType::VtteBox
    }

    open spec fn model(&self) -> () {
        ()
    }

    /// The size of the header.
    open spec fn encoded_size(&self) -> nat {
        HEADER_SIZE as nat
    }

    /// The header alone.
    open spec fn encoding(&self) -> Seq<u8> {
        header_bytes(BoxType::VtteBox, HEADER_SIZE as u32)
    }

    open spec fn is_nul_free(&self) -> bool {
        true
    }

    /// Whatever the declared size holds beyond the header is padding.
    open spec fn decoded(data: Seq<u8>, pos: int, size: u64) -> Result<((), int), Error> {
        match decode_skip(data, pos, size) {
            Ok(p) => Ok(((), p)),
            Err(e) => Err(e),
        }
    }

    fn box_type(&self) -> (t: BoxType) {
        self.get_type()
    }

    fn box_size(&self) -> (n: u64) {
        self.get_size()
    }

    /// There is nothing to say of this record: the line is empty.
    fn summary(&self) -> (r: Result<String, Error>)
        ensures
            r->Ok_0@ == Seq::<char>::empty(),
    {
        Ok(String::new())
    }

    fn read_box(reader: &mut Reader, size: u64) -> (r: Result<Self, Error>) {
        match skip_box(reader, size) {
            Ok(_) => Ok(VtteBox {  }),
            Err(e) => Err(e),
        }
    }

    fn write_box(&self, out: &mut Vec<u8>) -> (r: Result<u64, Error>) {
        let size = self.box_size();
        let header = BoxHeader::new(self.box_type(), size);
        match header.write(out) {
            Ok(_) => {},
            Err(e) => { return Err(e); },
        }
        proof {
            lemma_header_len(BoxType::VtteBox, 8);
        }
        Ok(size)
    }

    proof fn lemma_encoding_len(&self) {
        lemma_header_len(BoxType::VtteBox, 8);
    }

    proof fn lemma_round_trip(&self, data: Seq<u8>, pos: int) {
        lemma_header_len(BoxType::VtteBox, 8);
        lemma_header_round_trip(data, pos, BoxType::VtteBox, 8);
    }
}

} // verus!
