//! The cue settings record, `sttg`.

use crate::mp4box::Mp4Box;
use crate::reader::Reader;
use crate::text::decode_text;
use crate::text::labelled;
use crate::text::lemma_decode_text_end;
use crate::text::lemma_text_box_len;
use crate::text::lemma_text_round_trip;
use crate::text::nul_free;
use crate::text::read_text;
use crate::text::text_box_bytes;
use crate::text::text_box_size;
use crate::text::text_size;
use crate::text::write_text;
use crate::types::BoxType;
use crate::types::Error;
use vstd::prelude::*;
use vstd::utf8::encode_utf8;

verus! {

/// The settings of a cue.
#[derive(Debug, Clone, PartialEq, Eq)]
pub struct SttgBox {
    pub settings: String,
}

impl Default for SttgBox {
    fn default() -> (r: Self)
        ensures
            r.settings@ == Seq::<char>::empty(),
    {
        SttgBox { settings: String::new() }
    }
}

impl SttgBox {
    /// The record's type.
    pub fn get_type(&self) -> (t: BoxType)
        ensures
            t == BoxType::SttgBox,
    {
        BoxType::SttgBox
    }

    /// The record's size on the wire, header included.
    pub fn get_size(&self) -> (n: u64)
        requires
            text_box_size(self.settings@) <= u64::MAX,
        ensures
            n == text_box_size(self.settings@),
    {
        text_size(self.settings.as_str())
    }
}

impl Mp4Box for SttgBox {
    type Model = Seq<char>;

    open spec fn record_type() -> BoxType {
        BoxType::SttgBox
    }

    /// The text.
    open spec fn model(&self) -> Seq<char> {
        self.settings@
    }

    /// The header and the text's UTF-8 bytes.
    open spec fn encoded_size(&self) -> nat {
        text_box_size(self.settings@)
    }

    /// The header, then the text's UTF-8 bytes.
    open spec fn encoding(&self) -> Seq<u8> {
        text_box_bytes(BoxType::SttgBox, self.settings@)
    }

    open spec fn is_nul_free(&self) -> bool {
        nul_free(encode_utf8(self.settings@))
    }

    /// The text ends at the body's first zero byte.
    open spec fn decoded(data: Seq<u8>, pos: int, size: u64) -> Result<(Seq<char>, int), Error> {
        decode_text(data, pos, size)
    }

    fn box_type(&self) -> (t: BoxType) {
        self.get_type()
    }

    fn box_size(&self) -> (n: u64) {
        self.get_size()
    }

    /// The field's name, `=`, and the text.
    fn summary(&self) -> (r: Result<String, Error>)
        ensures
            r->Ok_0@ == "settings="@ + self.settings@,
    {
        Ok(labelled("settings=", self.settings.as_str()))
    }

    fn read_box(reader: &mut Reader, size: u64) -> (r: Result<Self, Error>) {
        proof {
            lemma_decode_text_end(reader.data@, reader.pos as int, size);
        }
        match read_text(reader, size) {
            Ok(settings) => Ok(SttgBox { settings }),
            Err(e) => Err(e),
        }
    }

    fn write_box(&self, out: &mut Vec<u8>) -> (r: Result<u64, Error>) {
        write_text(out, BoxType::SttgBox, self.settings.as_str())
    }

    proof fn lemma_encoding_len(&self) {
        lemma_text_box_len(BoxType::SttgBox, self.settings@);
    }

    proof fn lemma_round_trip(&self, data: Seq<u8>, pos: int) {
        lemma_text_round_trip(data, pos, BoxType::SttgBox, self.settings@);
    }
}

} // verus!
