//! The source label record, `vlab`.

use crate::mp4box::Mp4Box;
use crate::reader::Reader;
use crate::text::decode_text;
use crate::text::labelled;
use crate::text::lemma_decode_text_end;
use crate::text::lemma_text_box_len;
use crate::text::lemma_text_round_trip;
use crate::text::nul_free;
use crate::text::read_text;
use crate::text::text_box_bytes;
use crate::text::text_box_size;
use crate::text::text_size;
use crate::text::write_text;
use crate::types::BoxType;
use crate::types::Error;
use vstd::prelude::*;
use vstd::utf8::encode_utf8;

verus! {

/// The label of a cue source.
#[derive(Debug, Clone, PartialEq, Eq)]
pub struct VlabBox {
    pub source_label: String,
}

impl Default for VlabBox {
    fn default() -> (r: Self)
        ensures
            r.source_label@ == Seq::<char>::empty(),
    {
        VlabBox { source_label: String::new() }
    }
}

impl VlabBox {
    /// The record's type.
    pub fn get_type(&self) -> (t: BoxType)
        ensures
            t == BoxType::VlabBox,
    {
        BoxType::VlabBox
    }

    /// The record's size on the wire, header included.
    pub fn get_size(&self) -> (n: u64)
        requires
            text_box_size(self.source_label@) <= u64::MAX,
        ensures
            n == text_box_size(self.source_label@),
    {
        text_size(self.source_label.as_str())
    }
}

impl Mp4Box for VlabBox {
    type Model = Seq<char>;

    open spec fn record_type() -> BoxType {
        BoxType::VlabBox
    }

    /// The text.
    open spec fn model(&self) -> Seq<char> {
        self.source_label@
    }

    /// The header and the text's UTF-8 bytes.
    open spec fn encoded_size(&self) -> nat {
        text_box_size(self.source_label@)
    }

    /// The header, then the text's UTF-8 bytes.
    open spec fn encoding(&self) -> Seq<u8> {
        text_box_bytes(BoxType::VlabBox, self.source_label@)
    }

    open spec fn is_nul_free(&self) -> bool {
        nul_free(encode_utf8(self.source_label@))
    }

    /// The text ends at the body's first zero byte.
    open spec fn decoded(data: Seq<u8>, pos: int, size: u64) -> Result<(Seq<char>, int), Error> {
        decode_text(data, pos, size)
    }

    fn box_type(&self) -> (t: BoxType) {
        self.get_type()
    }

    fn box_size(&self) -> (n: u64) {
        self.get_size()
    }

    /// The field's name, `=`, and the text.
    fn summary(&self) -> (r: Result<String, Error>)
        ensures
            r->Ok_0@ == "source_label="@ + self.source_label@,
    {
        Ok(labelled("source_label=", self.source_label.as_str()))
    }

    fn read_box(reader: &mut Reader, size: u64) -> (r: Result<Self, Error>) {
        proof {
            lemma_decode_text_end(reader.data@, reader.pos as int, size);
        }
        match read_text(reader, size) {
            Ok(source_label) => Ok(VlabBox { source_label }),
            Err(e) => Err(e),
        }
    }

    fn write_box(&self, out: &mut Vec<u8>) -> (r: Result<u64, Error>) {
        write_text(out, BoxType::VlabBox, self.source_label.as_str())
    }

    proof fn lemma_encoding_len(&self) {
        lemma_text_box_len(BoxType::VlabBox, self.source_label@);
    }

    proof fn lemma_round_trip(&self, data: Seq<u8>, pos: int) {
        lemma_text_round_trip(data, pos, BoxType::VlabBox, self.source_label@);
    }
}

} // verus!
