//! The sample entry record, `wvtt`: how the cues of a track are encoded.
//!
//! Its body starts with six reserved bytes and a two-byte data reference
//! index. Child records follow: the configuration, which is mandatory, and
//! a source label, which is optional. A decoder keeps the last child of each
//! kind and passes over children of any other type. The reserved bytes are
//! written as zeros and not kept when read.

use crate::endian::be_u16_at;
use crate::endian::be_u16_bytes;
use crate::endian::be_u32_bytes;
use crate::endian::encode_u16;
use crate::endian::encode_u32;
use crate::endian::lemma_be_u16_located;
use crate::endian::lemma_be_u16_round_trip;
use crate::endian::lemma_be_u32_round_trip;
use crate::header::append_bytes;
use crate::header::decode_skip;
use crate::header::header_at;
use crate::header::header_bytes;
use crate::header::lemma_header_len;
use crate::header::lemma_header_round_trip;
use crate::header::lemma_split;
use crate::header::skip_box;
use crate::header::BoxHeader;
use crate::mp4box::Mp4Box;
use crate::reader::Reader;
use crate::text::checked_text_size;
use crate::text::decimal;
use crate::text::decode_text;
use crate::text::labelled_number;
use crate::text::lemma_decode_text_end;
use crate::text::lemma_text_box_len;
use crate::types::BoxType;
use crate::types::Error;
use crate::types::HEADER_SIZE;
use crate::vlab::VlabBox;
use crate::vtt_c::VttCBox;
use vstd::prelude::*;

verus! {

/// The bytes of a sample entry in front of its children: the header, six
/// reserved bytes and the data reference index.
pub const WVTT_FIXED_SIZE: u64 = 16;

/// The description of a track of cues.
#[derive(Debug, Clone, PartialEq, Eq)]
pub struct WvttBox {
    pub data_reference_index: u16,
    pub config: VttCBox,
    pub label: Option<VlabBox>,
}

/// What a sample entry's children hold, each kind in its slot.
pub struct EntryChildren {
    pub config: Option<Seq<char>>,
    pub label: Option<Seq<char>>,
}

/// What a decoded sample entry holds.
pub struct EntryFields {
    pub data_reference_index: u16,
    pub children: EntryChildren,
}

/// The slots before any child was read.
pub open spec fn no_entry_children() -> EntryChildren {
    EntryChildren { config: None, label: None }
}

/// The slots after the child with header `h`, whose body starts at `pos`,
/// was read into `acc`: a child of a known kind takes its slot, over what
/// was there, and a child of another type changes nothing.
pub open spec fn entry_child(acc: EntryChildren, data: Seq<u8>, pos: int, h: BoxHeader) -> Result<
    EntryChildren,
    Error,
> {
    match h.name {
        BoxType::VttCBox => match decode_text(data, pos, h.size) {
            Ok((t, _)) => Ok(EntryChildren { config: Some(t), ..acc }),
            Err(e) => Err(e),
        },
        BoxType::VlabBox => match decode_text(data, pos, h.size) {
            Ok((t, _)) => Ok(EntryChildren { label: Some(t), ..acc }),
            Err(e) => Err(e),
        },
        _ => match decode_skip(data, pos, h.size) {
            Ok(_) => Ok(acc),
            Err(e) => Err(e),
        },
    }
}

/// The slots after all the children between `pos` and `end` were read into
/// `acc`, one behind the other; `parent` is the container's declared size,
/// which no child's declared size may exceed.
pub open spec fn scan_entry(
    data: Seq<u8>,
    pos: int,
    end: int,
    parent: u64,
    acc: EntryChildren,
) -> Result<EntryChildren, Error>
    decreases
        (if pos < end {
            end - pos
        } else {
            0
        }),
{
    if pos >= end {
        Ok(acc)
    } else if pos + HEADER_SIZE > data.len() {
        Err(Error::UnexpectedEof)
    } else {
        let h = header_at(data, pos);
        if h.size > parent {
            Err(Error::ChildLargerThanParent)
        } else if h.size < HEADER_SIZE {
            Err(Error::SizeTooSmall)
        } else {
            match entry_child(acc, data, pos + HEADER_SIZE, h) {
                Ok(next) => scan_entry(data, pos + h.size, end, parent, next),
                Err(e) => Err(e),
            }
        }
    }
}

/// Reading one well-formed child moves a scan from that child's header to
/// the header of the next, with the child in its slot.
pub proof fn lemma_scan_entry_step(
    data: Seq<u8>,
    pos: int,
    end: int,
    parent: u64,
    acc: EntryChildren,
)
    requires
        0 <= pos < end,
        pos + HEADER_SIZE <= data.len(),
        HEADER_SIZE <= header_at(data, pos).size <= parent,
        entry_child(acc, data, pos + HEADER_SIZE, header_at(data, pos)) is Ok,
    ensures
        scan_entry(data, pos, end, parent, acc) == scan_entry(
            data,
            pos + header_at(data, pos).size,
            end,
            parent,
            entry_child(acc, data, pos + HEADER_SIZE, header_at(data, pos))->Ok_0,
        ),
{
}

/// What decoding a sample entry gives when the position is `pos`, just
/// behind its header, and its declared size is `size`: its fields and the
/// position behind the record, or the reason why there is none.
///
/// A declared size that cannot hold the reserved bytes and the index is too
/// small.
pub open spec fn decode_entry(data: Seq<u8>, pos: int, size: u64) -> Result<(EntryFields, int), Error> {
    if size < WVTT_FIXED_SIZE {
        Err(Error::SizeTooSmall)
    } else if pos + size - HEADER_SIZE > data.len() {
        Err(Error::UnexpectedEof)
    } else {
        match scan_entry(data, pos + 8, pos + size - HEADER_SIZE, size, no_entry_children()) {
            Ok(c) => if c.config is Some {
                Ok(
                    (
                        EntryFields {
                            data_reference_index: be_u16_at(data, pos + 6) as u16,
                            children: c,
                        },
                        pos + size - HEADER_SIZE,
                    ),
                )
            } else {
                Err(Error::MissingRequiredChild(BoxType::VttCBox))
            },
            Err(e) => Err(e),
        }
    }
}

/// A child of a type that a sample entry does not hold is passed over: the
/// scan goes on behind it with the slots as they were.
pub proof fn lemma_entry_passes_over(
    data: Seq<u8>,
    pos: int,
    end: int,
    parent: u64,
    acc: EntryChildren,
)
    requires
        0 <= pos < end,
        pos + HEADER_SIZE <= data.len(),
        HEADER_SIZE <= header_at(data, pos).size <= parent,
        pos + header_at(data, pos).size <= data.len(),
        header_at(data, pos).name != BoxType::VttCBox,
        header_at(data, pos).name != BoxType::VlabBox,
    ensures
        scan_entry(data, pos, end, parent, acc) == scan_entry(
            data,
            pos + header_at(data, pos).size,
            end,
            parent,
            acc,
        ),
{
}

/// A child that declares a larger size than the sample entry's is refused,
/// whatever its type and whatever was read before it.
pub proof fn lemma_entry_child_too_large(
    data: Seq<u8>,
    pos: int,
    end: int,
    parent: u64,
    acc: EntryChildren,
)
    requires
        0 <= pos < end,
        pos + HEADER_SIZE <= data.len(),
        header_at(data, pos).size > parent,
    ensures
        scan_entry(data, pos, end, parent, acc) == Err::<EntryChildren, Error>(
            Error::ChildLargerThanParent,
        ),
{
}

/// A sample entry whose children were all read and gave no configuration is
/// refused, and a sample entry that decodes has a configuration.
pub proof fn lemma_entry_needs_config(data: Seq<u8>, pos: int, size: u64)
    requires
        size >= WVTT_FIXED_SIZE,
        pos + size - HEADER_SIZE <= data.len(),
    ensures
        scan_entry(data, pos + 8, pos + size - HEADER_SIZE, size, no_entry_children()) matches Ok(c)
            && c.config is None ==> decode_entry(data, pos, size) == Err::<
            (EntryFields, int),
            Error,
        >(Error::MissingRequiredChild(BoxType::VttCBox)),
        decode_entry(data, pos, size) matches Ok((f, _)) ==> f.children.config is Some,
{
}

/// The slots that hold what these records hold.
pub open spec fn entry_slots(vttc: Option<VttCBox>, vlab: Option<VlabBox>) -> EntryChildren {
    EntryChildren {
        config: match vttc {
            Some(b) => Some(b.config@),
            None => None,
        },
        label: match vlab {
            Some(b) => Some(b.source_label@),
            None => None,
        },
    }
}

/// The bytes of a source label, or none where there is no record.
pub open spec fn opt_bytes_vlab(b: Option<VlabBox>) -> Seq<u8> {
    match b {
        Some(b) => b.encoding(),
        None => Seq::empty(),
    }
}

impl Default for WvttBox {
    fn default() -> (r: Self)
        ensures
            r.model() == (EntryFields {
                data_reference_index: 1,
                children: EntryChildren { config: Some(Seq::<char>::empty()), label: None },
            }),
    {
        WvttBox { data_reference_index: 1, config: VttCBox::default(), label: None }
    }
}

impl WvttBox {
    /// The record's type.
    pub fn get_type(&self) -> (t: BoxType)
        ensures
            t == BoxType::WvttBox,
    {
        BoxType::WvttBox
    }

    /// The record's size on the wire, header included.
    pub fn get_size(&self) -> (n: u64)
        requires
            self.encoded_size() <= u64::MAX,
        ensures
            n == self.encoded_size(),
    {
        let mut size: u64 = HEADER_SIZE + 6 + 2;
        size += self.config.box_size();
        if let Some(ref label) = self.label {
            size += label.box_size();
        }
        size
    }

    /// The record's size, where it fits the header's 32-bit size field.
    pub fn checked_size(&self) -> (r: Option<u64>)
        ensures
            match r {
                Some(n) => n == self.encoded_size() && n <= u32::MAX,
                None => self.encoded_size() > u32::MAX,
            },
    {
        let mut size: u64 = WVTT_FIXED_SIZE;
        match checked_text_size(self.config.config.as_str()) {
            Some(n) => { size += n; },
            None => { return None; },
        }
        if let Some(ref label) = self.label {
            match checked_text_size(label.source_label.as_str()) {
                Some(n) => { size += n; },
                None => { return None; },
            }
        }
        if size > 0xffff_ffff {
            None
        } else {
            Some(size)
        }
    }

    /// Where the record's bytes lie in `data`, the header, the fixed fields
    /// and each child lie one behind the other.
    pub proof fn lemma_layout(&self, data: Seq<u8>, pos: int)
        requires
            0 <= pos,
            pos + self.encoded_size() <= data.len(),
            data.subrange(pos, pos + self.encoded_size()) == self.encoding(),
        ensures
            ({
                let o1 = pos + 16;
                let o2 = o1 + self.config.encoded_size();
                &&& data.subrange(pos, pos + 8) == header_bytes(
                    BoxType::WvttBox,
                    self.encoded_size() as u32,
                )
                &&& data.subrange(pos + 14, pos + 16) == be_u16_bytes(self.data_reference_index)
                &&& data.subrange(o1, o2) == self.config.encoding()
                &&& data.subrange(o2, pos + self.encoded_size()) == opt_bytes_vlab(self.label)
                &&& o2 + opt_bytes_vlab(self.label).len() == pos + self.encoded_size()
            }),
    {
        let n = self.encoded_size() as int;
        let end = pos + n;
        let h = header_bytes(BoxType::WvttBox, n as u32);
        let r1 = be_u32_bytes(0);
        let r2 = be_u16_bytes(0);
        let ix = be_u16_bytes(self.data_reference_index);
        let c = self.config.encoding();
        let l = opt_bytes_vlab(self.label);
        lemma_header_len(BoxType::WvttBox, n as u32);
        lemma_be_u32_round_trip(0);
        lemma_be_u16_round_trip(0);
        lemma_be_u16_round_trip(self.data_reference_index);
        lemma_text_box_len(BoxType::VttCBox, self.config.config@);
        self.lemma_encoding_len();
        lemma_split(data, pos, end, h + r1 + r2 + ix + c, l);
        lemma_split(data, pos, end - l.len(), h + r1 + r2 + ix, c);
        lemma_split(data, pos, pos + 16, h + r1 + r2, ix);
        lemma_split(data, pos, pos + 14, h + r1, r2);
        lemma_split(data, pos, pos + 12, h, r1);
    }
}

impl Mp4Box for WvttBox {
    type Model = EntryFields;

    open spec fn record_type() -> BoxType {
        BoxType::WvttBox
    }

    /// What the sample entry holds.
    open spec fn model(&self) -> EntryFields {
        EntryFields {
            data_reference_index: self.data_reference_index,
            children: entry_slots(Some(self.config), self.label),
        }
    }

    /// The record's size on the wire: the header, the reserved bytes, the
    /// index and every child present.
    open spec fn encoded_size(&self) -> nat {
        WVTT_FIXED_SIZE as nat + self.config.encoded_size() + (match self.label {
            Some(b) => b.encoded_size(),
            None => 0,
        })
    }

    /// The record on the wire: the header, six zero bytes, the index, the
    /// configuration, then the label where there is one.
    open spec fn encoding(&self) -> Seq<u8> {
        header_bytes(BoxType::WvttBox, self.encoded_size() as u32) + be_u32_bytes(0) + be_u16_bytes(0)
            + be_u16_bytes(self.data_reference_index) + self.config.encoding() + opt_bytes_vlab(
            self.label,
        )
    }

    /// No text of the sample entry holds a zero byte.
    open spec fn is_nul_free(&self) -> bool {
        &&& self.config.is_nul_free()
        &&& self.label matches Some(b) ==> b.is_nul_free()
    }

    open spec fn decoded(data: Seq<u8>, pos: int, size: u64) -> Result<(EntryFields, int), Error> {
        decode_entry(data, pos, size)
    }

    fn box_type(&self) -> (t: BoxType) {
        self.get_type()
    }

    fn box_size(&self) -> (n: u64) {
        self.get_size()
    }

    /// A line for diagnostics: `data_reference_index=` and the index in
    /// decimal.
    fn summary(&self) -> (r: Result<String, Error>)
        ensures
            r->Ok_0@ == "data_reference_index="@ + decimal(self.data_reference_index as nat),
    {
        Ok(labelled_number("data_reference_index=", self.data_reference_index as u64))
    }

    /// Decodes the record's body; `size` is the size that its header
    /// declared, and the position is just behind that header.
    ///
    /// The reserved bytes are passed over and the index is read. The
    /// children are then read one behind the other up to the record's end. A
    /// child that declares a larger size than `size` is refused, a child of a
    /// type that a sample entry does not hold is passed over, and of two
    /// children of one kind the later one stays. A sample entry without a
    /// configuration is refused. On success the position is at the record's
    /// end; on failure it has not moved.
    fn read_box(reader: &mut Reader, size: u64) -> (r: Result<Self, Error>) {
        if size < WVTT_FIXED_SIZE {
            return Err(Error::SizeTooSmall);
        }
        let start = reader.pos;
        let len = reader.data.len();
        if start > len || size - HEADER_SIZE > (len - start) as u64 {
            return Err(Error::UnexpectedEof);
        }
        let end: usize = start + (size - HEADER_SIZE) as usize;

        match reader.skip(6) {
            Ok(_) => {},
            Err(e) => {
                reader.pos = start;
                return Err(e);
            },
        }
        let data_reference_index = match reader.read_u16() {
            Ok(v) => v,
            Err(e) => {
                reader.pos = start;
                return Err(e);
            },
        };

        let mut vttc: Option<VttCBox> = None;
        let mut vlab: Option<VlabBox> = None;

        while reader.pos < end
            invariant
                reader.data == old(reader).data,
                len == reader.data@.len(),
                start == old(reader).pos,
                size >= WVTT_FIXED_SIZE,
                end == start + size - HEADER_SIZE,
                start + 8 <= reader.pos <= len,
                end <= len,
                scan_entry(reader.data@, reader.pos as int, end as int, size, entry_slots(vttc, vlab))
                    == scan_entry(
                    reader.data@,
                    start + 8,
                    end as int,
                    size,
                    no_entry_children(),
                ),
            decreases len - reader.pos,
        {
            let header = match BoxHeader::read(reader) {
                Ok(h) => h,
                Err(e) => {
                    reader.pos = start;
                    return Err(e);
                },
            };
            let BoxHeader { name, size: s } = header;
            if s > size {
                reader.pos = start;
                return Err(Error::ChildLargerThanParent);
            }
            proof {
                lemma_decode_text_end(reader.data@, reader.pos as int, s);
            }
            match name {
                BoxType::VttCBox => {
                    match VttCBox::read_box(reader, s) {
                        Ok(b) => { vttc = Some(b); },
                        Err(e) => {
                            reader.pos = start;
                            return Err(e);
                        },
                    }
                },
                BoxType::VlabBox => {
                    match VlabBox::read_box(reader, s) {
                        Ok(b) => { vlab = Some(b); },
                        Err(e) => {
                            reader.pos = start;
                            return Err(e);
                        },
                    }
                },
                _ => {
                    match skip_box(reader, s) {
                        Ok(_) => {},
                        Err(e) => {
                            reader.pos = start;
                            return Err(e);
                        },
                    }
                },
            }
        }

        match vttc {
            Some(config) => {
                reader.pos = end;
                Ok(WvttBox { data_reference_index, config, label: vlab })
            },
            None => {
                reader.pos = start;
                Err(Error::MissingRequiredChild(BoxType::VttCBox))
            },
        }
    }

    /// Appends the record to `out` and returns the number of bytes written,
    /// which is the record's size.
    ///
    /// Fails with `SizeTooLarge`, writing nothing, when the size does not
    /// fit the header's 32-bit size field.
    fn write_box(&self, out: &mut Vec<u8>) -> (r: Result<u64, Error>) {
        let size = match self.checked_size() {
            Some(n) => n,
            None => { return Err(Error::SizeTooLarge); },
        };
        let header = BoxHeader::new(self.box_type(), size);
        match header.write(out) {
            Ok(_) => {},
            Err(e) => { return Err(e); },
        }
        let ghost before = old(out)@;
        let ghost p0 = header_bytes(BoxType::WvttBox, size as u32);

        let reserved_front = encode_u32(0);
        append_bytes(out, &reserved_front);
        let ghost p1 = p0 + be_u32_bytes(0);
        assert(out@ =~= before + p1);
        let reserved_back = encode_u16(0);
        append_bytes(out, &reserved_back);
        let ghost p2 = p1 + be_u16_bytes(0);
        assert(out@ =~= before + p2);
        let index = encode_u16(self.data_reference_index);
        append_bytes(out, &index);
        let ghost p3 = p2 + be_u16_bytes(self.data_reference_index);
        assert(out@ =~= before + p3);

        match self.config.write_box(out) {
            Ok(_) => {},
            Err(e) => { return Err(e); },
        }
        let ghost p4 = p3 + self.config.encoding();
        assert(out@ =~= before + p4);
        if let Some(ref label) = self.label {
            match label.write_box(out) {
                Ok(_) => {},
                Err(e) => { return Err(e); },
            }
        }
        proof {
            assert(out@ =~= before + (p4 + opt_bytes_vlab(self.label)));
            self.lemma_encoding_len();
        }
        Ok(size)
    }

    /// The record takes as many bytes as its size says.
    proof fn lemma_encoding_len(&self) {
        lemma_header_len(BoxType::WvttBox, self.encoded_size() as u32);
        lemma_be_u32_round_trip(0);
        lemma_be_u16_round_trip(0);
        lemma_be_u16_round_trip(self.data_reference_index);
        lemma_text_box_len(BoxType::VttCBox, self.config.config@);
        if let Some(b) = self.label {
            lemma_text_box_len(BoxType::VlabBox, b.source_label@);
        }
    }

    /// A sample entry whose texts hold no zero byte is read back as it was
    /// written: wherever its bytes lie in `data`, the header there gives its
    /// type and its size, and decoding the body gives its index and its
    /// children, each in its slot, and ends where the record ends.
    proof fn lemma_round_trip(&self, data: Seq<u8>, pos: int) {
        let n = self.encoded_size() as int;
        let size = n as u64;
        let end = pos + n;
        self.lemma_layout(data, pos);
        lemma_text_box_len(BoxType::VttCBox, self.config.config@);
        let o1 = pos + 16;
        let o2 = o1 + self.config.encoded_size();
        lemma_header_round_trip(data, pos, BoxType::WvttBox, n as u32);
        lemma_be_u16_located(data, pos + 14, self.data_reference_index);

        let a0 = no_entry_children();
        let a1 = entry_slots(Some(self.config), None);
        let a2 = entry_slots(Some(self.config), self.label);
        assert(scan_entry(data, o1, end, size, a0) == scan_entry(data, o2, end, size, a1)) by {
            self.config.lemma_round_trip(data, o1);
            lemma_scan_entry_step(data, o1, end, size, a0);
        }
        assert(scan_entry(data, o2, end, size, a1) == scan_entry(data, end, end, size, a2)) by {
            if let Some(b) = self.label {
                lemma_text_box_len(BoxType::VlabBox, b.source_label@);
                b.lemma_round_trip(data, o2);
                lemma_scan_entry_step(data, o2, end, size, a1);
            }
        }
        assert(scan_entry(data, end, end, size, a2) == Ok::<EntryChildren, Error>(a2));
    }
}

} // verus!
