//! The contract that every record type of the family meets.

use crate::header::header_at;
use crate::header::BoxHeader;
use crate::reader::Reader;
use crate::types::BoxType;
use crate::types::Error;
use crate::types::HEADER_SIZE;
use vstd::prelude::*;

verus! {

/// A record: a value with a type tag and a size that can be written to bytes
/// and read back from them.
///
/// A record is written as its header followed by its body, and takes
/// exactly as many bytes as `box_size` says. A decoder is handed the size
/// that the record's header declared and starts just behind that header. It
/// either succeeds and leaves the position at the record's end, or fails and
/// leaves the position where it was.
pub trait Mp4Box: Sized {
    /// What a record of this type holds, as far as the wire keeps it.
    type Model;

    /// The type of every record of this type.
    spec fn record_type() -> BoxType;

    /// What this record holds.
    spec fn model(&self) -> Self::Model;

    /// The record's size on the wire, header included.
    spec fn encoded_size(&self) -> nat;

    /// The record on the wire.
    spec fn encoding(&self) -> Seq<u8>;

    /// Whether a decoder reads all of this record's text: no text of it
    /// holds a zero byte.
    spec fn is_nul_free(&self) -> bool;

    /// What decoding gives when the position is `pos`, just behind the
    /// record's header, and the declared size is `size`: what the record
    /// holds and the position behind it, or the reason why there is none.
    spec fn decoded(data: Seq<u8>, pos: int, size: u64) -> Result<(Self::Model, int), Error>;

    /// The record's type.
    fn box_type(&self) -> (t: BoxType)
        ensures
            t == Self::record_type(),
    ;

    /// The record's size on the wire, header included.
    fn box_size(&self) -> (n: u64)
        requires
            self.encoded_size() <= u64::MAX,
        ensures
            n == self.encoded_size(),
    ;

    /// A line for diagnostics. It is no part of the wire format.
    fn summary(&self) -> (r: Result<String, Error>)
        ensures
            r is Ok,
    ;

    /// Decodes the record's body; `size` is the size that its header
    /// declared, and the position is just behind that header.
    fn read_box(reader: &mut Reader, size: u64) -> (r: Result<Self, Error>)
        ensures
            final(reader).data == old(reader).data,
            size < HEADER_SIZE ==> r == Err::<Self, Error>(Error::SizeTooSmall),
            r is Ok ==> final(reader).pos == old(reader).pos + size - HEADER_SIZE,
            r is Err ==> final(reader).pos == old(reader).pos,
            match Self::decoded(old(reader).data@, old(reader).pos as int, size) {
                Ok((m, p)) => r is Ok && r->Ok_0.model() == m && final(reader).pos == p,
                Err(e) => r == Err::<Self, Error>(e),
            },
    ;

    /// Appends the record to `out` and returns the number of bytes written,
    /// which is the record's size.
    ///
    /// Fails with `SizeTooLarge`, writing nothing, when the size does not
    /// fit the header's 32-bit size field.
    fn write_box(&self, out: &mut Vec<u8>) -> (r: Result<u64, Error>)
        ensures
            self.encoded_size() <= u32::MAX ==> r == Ok::<u64, Error>(self.encoded_size() as u64)
                && final(out)@ == old(out)@ + self.encoding() && final(out)@.len() == old(out)@.len()
                + self.encoded_size(),
            self.encoded_size() > u32::MAX ==> r == Err::<u64, Error>(Error::SizeTooLarge)
                && final(out)@ == old(out)@,
    ;

    /// A record takes as many bytes as its size says, its header's eight at
    /// least.
    proof fn lemma_encoding_len(&self)
        ensures
            self.encoding().len() == self.encoded_size(),
            self.encoded_size() >= HEADER_SIZE,
    ;

    /// A record without a zero byte in its text, and of a size that its
    /// header can hold, is read back as it was written: wherever its bytes
    /// lie in `data`, the header there gives its type and its size, and
    /// decoding the body gives what the record holds and ends where the
    /// record ends.
    proof fn lemma_round_trip(&self, data: Seq<u8>, pos: int)
        requires
            self.is_nul_free(),
            self.encoded_size() <= u32::MAX,
            0 <= pos,
            pos + self.encoded_size() <= data.len(),
            data.subrange(pos, pos + self.encoded_size()) == self.encoding(),
        ensures
            header_at(data, pos) == (BoxHeader {
                name: Self::record_type(),
                size: self.encoded_size() as u64,
            }),
            Self::decoded(data, pos + HEADER_SIZE, self.encoded_size() as u64) == Ok::<
                (Self::Model, int),
                Error,
            >((self.model(), pos + self.encoded_size())),
    ;
}

} // verus!
