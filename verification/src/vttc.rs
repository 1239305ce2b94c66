//! The cue record, `vttc`: a container of one cue's parts.
//!
//! Its body is a sequence of child records. Four kinds are optional (source
//! identifier, cue identifier, cue time, cue settings) and one, the payload,
//! is mandatory. A decoder keeps the last child of each kind and passes over
//! children of any other type.

use crate::ctim::CtimBox;
use crate::header::decode_skip;
use crate::header::header_at;
use crate::header::header_bytes;
use crate::header::lemma_header_len;
use crate::header::lemma_header_round_trip;
use crate::header::lemma_split;
use crate::header::skip_box;
use crate::header::BoxHeader;
use crate::mp4box::Mp4Box;
use crate::iden::IdenBox;
use crate::payl::PaylBox;
use crate::reader::Reader;
use crate::sttg::SttgBox;
use crate::text::checked_text_size;
use crate::text::decode_text;
use crate::text::lemma_decode_text_end;
use crate::text::lemma_text_box_len;
use crate::types::BoxType;
use crate::types::Error;
use crate::types::HEADER_SIZE;
use crate::vsid::decode_source_id;
use crate::vsid::VsidBox;
use vstd::prelude::*;

verus! {

/// One cue: its payload and what else is known of it.
#[derive(Debug, Clone, PartialEq, Eq)]
pub struct VttcBox {
    pub source_id: Option<VsidBox>,
    pub cue_id: Option<IdenBox>,
    pub cue_time: Option<CtimBox>,
    pub cue_settings: Option<SttgBox>,
    pub payload: PaylBox,
}

/// What a cue's children hold, each kind in its slot.
pub struct CueChildren {
    pub source_id: Option<u32>,
    pub cue_id: Option<Seq<char>>,
    pub cue_time: Option<Seq<char>>,
    pub cue_settings: Option<Seq<char>>,
    pub payload: Option<Seq<char>>,
}

/// The slots before any child was read.
pub open spec fn no_cue_children() -> CueChildren {
    CueChildren { source_id: None, cue_id: None, cue_time: None, cue_settings: None, payload: None }
}

/// The slots after the child with header `h`, whose body starts at `pos`,
/// was read into `acc`: a child of a known kind takes its slot, over what
/// was there, and a child of another type changes nothing.
pub open spec fn cue_child(acc: CueChildren, data: Seq<u8>, pos: int, h: BoxHeader) -> Result<
    CueChildren,
    Error,
> {
    match h.name {
        BoxType::PaylBox => match decode_text(data, pos, h.size) {
            Ok((t, _)) => Ok(CueChildren { payload: Some(t), ..acc }),
            Err(e) => Err(e),
        },
        BoxType::VsidBox => match decode_source_id(data, pos, h.size) {
            Ok((v, _)) => Ok(CueChildren { source_id: Some(v), ..acc }),
            Err(e) => Err(e),
        },
        BoxType::IdenBox => match decode_text(data, pos, h.size) {
            Ok((t, _)) => Ok(CueChildren { cue_id: Some(t), ..acc }),
            Err(e) => Err(e),
        },
        BoxType::CtimBox => match decode_text(data, pos, h.size) {
            Ok((t, _)) => Ok(CueChildren { cue_time: Some(t), ..acc }),
            Err(e) => Err(e),
        },
        BoxType::SttgBox => match decode_text(data, pos, h.size) {
            Ok((t, _)) => Ok(CueChildren { cue_settings: Some(t), ..acc }),
            Err(e) => Err(e),
        },
        _ => match decode_skip(data, pos, h.size) {
            Ok(_) => Ok(acc),
            Err(e) => Err(e),
        },
    }
}

/// The slots after all the children between `pos` and `end` were read into
/// `acc`, one behind the other; `parent` is the container's declared size,
/// which no child's declared size may exceed.
pub open spec fn scan_cue(data: Seq<u8>, pos: int, end: int, parent: u64, acc: CueChildren) -> Result<
    CueChildren,
    Error,
>
    decreases
        (if pos < end {
            end - pos
        } else {
            0
        }),
{
    if pos >= end {
        Ok(acc)
    } else if pos + HEADER_SIZE > data.len() {
        Err(Error::UnexpectedEof)
    } else {
        let h = header_at(data, pos);
        if h.size > parent {
            Err(Error::ChildLargerThanParent)
        } else if h.size < HEADER_SIZE {
            Err(Error::SizeTooSmall)
        } else {
            match cue_child(acc, data, pos + HEADER_SIZE, h) {
                Ok(next) => scan_cue(data, pos + h.size, end, parent, next),
                Err(e) => Err(e),
            }
        }
    }
}

/// Reading one well-formed child moves a scan from that child's header to
/// the header of the next, with the child in its slot.
pub proof fn lemma_scan_cue_step(data: Seq<u8>, pos: int, end: int, parent: u64, acc: CueChildren)
    requires
        0 <= pos < end,
        pos + HEADER_SIZE <= data.len(),
        HEADER_SIZE <= header_at(data, pos).size <= parent,
        cue_child(acc, data, pos + HEADER_SIZE, header_at(data, pos)) is Ok,
    ensures
        scan_cue(data, pos, end, parent, acc) == scan_cue(
            data,
            pos + header_at(data, pos).size,
            end,
            parent,
            cue_child(acc, data, pos + HEADER_SIZE, header_at(data, pos))->Ok_0,
        ),
{
}

/// What decoding a cue gives when the position is `pos`, just behind its
/// header, and its declared size is `size`: the children and the position
/// behind the record, or the reason why there is none.
pub open spec fn decode_cue(data: Seq<u8>, pos: int, size: u64) -> Result<(CueChildren, int), Error> {
    if size < HEADER_SIZE {
        Err(Error::SizeTooSmall)
    } else if pos + size - HEADER_SIZE > data.len() {
        Err(Error::UnexpectedEof)
    } else {
        match scan_cue(data, pos, pos + size - HEADER_SIZE, size, no_cue_children()) {
            Ok(c) => if c.payload is Some {
                Ok((c, pos + size - HEADER_SIZE))
            } else {
                Err(Error::MissingRequiredChild(BoxType::PaylBox))
            },
            Err(e) => Err(e),
        }
    }
}

/// A child of a type that a cue does not hold is passed over: the scan goes
/// on behind it with the slots as they were.
pub proof fn lemma_cue_passes_over(data: Seq<u8>, pos: int, end: int, parent: u64, acc: CueChildren)
    requires
        0 <= pos < end,
        pos + HEADER_SIZE <= data.len(),
        HEADER_SIZE <= header_at(data, pos).size <= parent,
        pos + header_at(data, pos).size <= data.len(),
        header_at(data, pos).name != BoxType::PaylBox,
        header_at(data, pos).name != BoxType::VsidBox,
        header_at(data, pos).name != BoxType::IdenBox,
        header_at(data, pos).name != BoxType::CtimBox,
        header_at(data, pos).name != BoxType::SttgBox,
    ensures
        scan_cue(data, pos, end, parent, acc) == scan_cue(
            data,
            pos + header_at(data, pos).size,
            end,
            parent,
            acc,
        ),
{
}

/// A child that declares a larger size than the cue's is refused, whatever
/// its type and whatever was read before it.
pub proof fn lemma_cue_child_too_large(
    data: Seq<u8>,
    pos: int,
    end: int,
    parent: u64,
    acc: CueChildren,
)
    requires
        0 <= pos < end,
        pos + HEADER_SIZE <= data.len(),
        header_at(data, pos).size > parent,
    ensures
        scan_cue(data, pos, end, parent, acc) == Err::<CueChildren, Error>(
            Error::ChildLargerThanParent,
        ),
{
}

/// A cue whose children were all read and gave no payload is refused, and
/// a cue that decodes has a payload.
pub proof fn lemma_cue_needs_payload(data: Seq<u8>, pos: int, size: u64)
    requires
        size >= HEADER_SIZE,
        pos + size - HEADER_SIZE <= data.len(),
    ensures
        scan_cue(data, pos, pos + size - HEADER_SIZE, size, no_cue_children()) matches Ok(c)
            && c.payload is None ==> decode_cue(data, pos, size) == Err::<
            (CueChildren, int),
            Error,
        >(Error::MissingRequiredChild(BoxType::PaylBox)),
        decode_cue(data, pos, size) matches Ok((c, _)) ==> c.payload is Some,
{
}

/// The slots that hold what these records hold.
pub open spec fn cue_slots(
    vsid: Option<VsidBox>,
    iden: Option<IdenBox>,
    ctim: Option<CtimBox>,
    sttg: Option<SttgBox>,
    payl: Option<PaylBox>,
) -> CueChildren {
    CueChildren {
        source_id: match vsid {
            Some(b) => Some(b.source_id),
            None => None,
        },
        cue_id: match iden {
            Some(b) => Some(b.cue_id@),
            None => None,
        },
        cue_time: match ctim {
            Some(b) => Some(b.current_time@),
            None => None,
        },
        cue_settings: match sttg {
            Some(b) => Some(b.settings@),
            None => None,
        },
        payload: match payl {
            Some(b) => Some(b.cue_text@),
            None => None,
        },
    }
}

/// The bytes of a source identifier, or none where there is no record.
pub open spec fn opt_bytes_vsid(b: Option<VsidBox>) -> Seq<u8> {
    match b {
        Some(b) => b.encoding(),
        None => Seq::empty(),
    }
}

/// The bytes of a cue identifier, or none where there is no record.
pub open spec fn opt_bytes_iden(b: Option<IdenBox>) -> Seq<u8> {
    match b {
        Some(b) => b.encoding(),
        None => Seq::empty(),
    }
}

/// The bytes of a cue time, or none where there is no record.
pub open spec fn opt_bytes_ctim(b: Option<CtimBox>) -> Seq<u8> {
    match b {
        Some(b) => b.encoding(),
        None => Seq::empty(),
    }
}

/// The bytes of cue settings, or none where there is no record.
pub open spec fn opt_bytes_sttg(b: Option<SttgBox>) -> Seq<u8> {
    match b {
        Some(b) => b.encoding(),
        None => Seq::empty(),
    }
}

impl Default for VttcBox {
    fn default() -> (r: Self)
        ensures
            r.model() == (CueChildren {
                payload: Some(Seq::<char>::empty()),
                ..no_cue_children()
            }),
    {
        VttcBox {
            source_id: None,
            cue_id: None,
            cue_time: None,
            cue_settings: None,
            payload: PaylBox::default(),
        }
    }
}

impl VttcBox {
    /// The children on the wire: the optional ones that are present, in the
    /// order source identifier, cue identifier, cue time, cue settings, then
    /// the payload.
    pub open spec fn children_bytes(&self) -> Seq<u8> {
        opt_bytes_vsid(self.source_id) + opt_bytes_iden(self.cue_id) + opt_bytes_ctim(
            self.cue_time,
        ) + opt_bytes_sttg(self.cue_settings) + self.payload.encoding()
    }

    /// Appends the children to `out`, where each is of a size that its
    /// header can hold.
    fn write_children(&self, out: &mut Vec<u8>) -> (r: Result<(), Error>)
        requires
            self.encoded_size() <= u32::MAX,
        ensures
            r is Ok,
            final(out)@ == old(out)@ + self.children_bytes(),
    {
        let ghost before = old(out)@;
        if let Some(ref source_id) = self.source_id {
            match source_id.write_box(out) {
                Ok(_) => {},
                Err(e) => { return Err(e); },
            }
        }
        let ghost p1 = opt_bytes_vsid(self.source_id);
        assert(out@ =~= before + p1);
        if let Some(ref cue_id) = self.cue_id {
            match cue_id.write_box(out) {
                Ok(_) => {},
                Err(e) => { return Err(e); },
            }
        }
        let ghost p2 = p1 + opt_bytes_iden(self.cue_id);
        assert(out@ =~= before + p2);
        if let Some(ref cue_time) = self.cue_time {
            match cue_time.write_box(out) {
                Ok(_) => {},
                Err(e) => { return Err(e); },
            }
        }
        let ghost p3 = p2 + opt_bytes_ctim(self.cue_time);
        assert(out@ =~= before + p3);
        if let Some(ref cue_settings) = self.cue_settings {
            match cue_settings.write_box(out) {
                Ok(_) => {},
                Err(e) => { return Err(e); },
            }
        }
        let ghost p4 = p3 + opt_bytes_sttg(self.cue_settings);
        assert(out@ =~= before + p4);
        match self.payload.write_box(out) {
            Ok(_) => {},
            Err(e) => { return Err(e); },
        }
        assert(out@ =~= before + (p4 + self.payload.encoding()));
        Ok(())
    }

    /// The record's type.
    pub fn get_type(&self) -> (t: BoxType)
        ensures
            t == BoxType::VttcBox,
    {
        BoxType::VttcBox
    }

    /// The record's size on the wire, header included.
    pub fn get_size(&self) -> (n: u64)
        requires
            self.encoded_size() <= u64::MAX,
        ensures
            n == self.encoded_size(),
    {
        let mut size: u64 = HEADER_SIZE;
        if let Some(ref source_id) = self.source_id {
            size += source_id.box_size();
        }
        if let Some(ref cue_id) = self.cue_id {
            size += cue_id.box_size();
        }
        if let Some(ref cue_time) = self.cue_time {
            size += cue_time.box_size();
        }
        if let Some(ref cue_settings) = self.cue_settings {
            size += cue_settings.box_size();
        }
        size += self.payload.box_size();
        size
    }

    /// The record's size, where it fits the header's 32-bit size field.
    pub fn checked_size(&self) -> (r: Option<u64>)
        ensures
            match r {
                Some(n) => n == self.encoded_size() && n <= u32::MAX,
                None => self.encoded_size() > u32::MAX,
            },
    {
        let mut size: u64 = HEADER_SIZE;
        if let Some(ref source_id) = self.source_id {
            size += source_id.box_size();
        }
        if let Some(ref cue_id) = self.cue_id {
            match checked_text_size(cue_id.cue_id.as_str()) {
                Some(n) => { size += n; },
                None => { return None; },
            }
        }
        if let Some(ref cue_time) = self.cue_time {
            match checked_text_size(cue_time.current_time.as_str()) {
                Some(n) => { size += n; },
                None => { return None; },
            }
        }
        if let Some(ref cue_settings) = self.cue_settings {
            match checked_text_size(cue_settings.settings.as_str()) {
                Some(n) => { size += n; },
                None => { return None; },
            }
        }
        match checked_text_size(self.payload.cue_text.as_str()) {
            Some(n) => { size += n; },
            None => { return None; },
        }
        if size > 0xffff_ffff {
            None
        } else {
            Some(size)
        }
    }

    /// Where the record's bytes lie in `data`, the header and each child lie
    /// one behind the other.
    pub proof fn lemma_layout(&self, data: Seq<u8>, pos: int)
        requires
            0 <= pos,
            pos + self.encoded_size() <= data.len(),
            data.subrange(pos, pos + self.encoded_size()) == self.encoding(),
        ensures
            ({
                let o1 = pos + 8;
                let o2 = o1 + opt_bytes_vsid(self.source_id).len();
                let o3 = o2 + opt_bytes_iden(self.cue_id).len();
                let o4 = o3 + opt_bytes_ctim(self.cue_time).len();
                let o5 = o4 + opt_bytes_sttg(self.cue_settings).len();
                &&& data.subrange(pos, o1) == header_bytes(
                    BoxType::VttcBox,
                    self.encoded_size() as u32,
                )
                &&& data.subrange(o1, o2) == opt_bytes_vsid(self.source_id)
                &&& data.subrange(o2, o3) == opt_bytes_iden(self.cue_id)
                &&& data.subrange(o3, o4) == opt_bytes_ctim(self.cue_time)
                &&& data.subrange(o4, o5) == opt_bytes_sttg(self.cue_settings)
                &&& data.subrange(o5, pos + self.encoded_size()) == self.payload.encoding()
                &&& o5 + self.payload.encoded_size() == pos + self.encoded_size()
            }),
    {
        let n = self.encoded_size() as int;
        let end = pos + n;
        let h = header_bytes(BoxType::VttcBox, n as u32);
        let b1 = opt_bytes_vsid(self.source_id);
        let b2 = opt_bytes_iden(self.cue_id);
        let b3 = opt_bytes_ctim(self.cue_time);
        let b4 = opt_bytes_sttg(self.cue_settings);
        let b5 = self.payload.encoding();
        lemma_header_len(BoxType::VttcBox, n as u32);
        lemma_text_box_len(BoxType::PaylBox, self.payload.cue_text@);
        let o1 = pos + 8;
        let o2 = o1 + b1.len();
        let o3 = o2 + b2.len();
        let o4 = o3 + b3.len();
        let o5 = o4 + b4.len();
        lemma_split(data, pos, end, h, self.children_bytes());
        lemma_split(data, o1, end, b1 + b2 + b3 + b4, b5);
        lemma_split(data, o1, o5, b1 + b2 + b3, b4);
        lemma_split(data, o1, o4, b1 + b2, b3);
        lemma_split(data, o1, o3, b1, b2);
    }
}

impl Mp4Box for VttcBox {
    type Model = CueChildren;

    open spec fn record_type() -> BoxType {
        BoxType::VttcBox
    }

    /// What the cue's children hold.
    open spec fn model(&self) -> CueChildren {
        cue_slots(self.source_id, self.cue_id, self.cue_time, self.cue_settings, Some(self.payload))
    }

    /// The record's size on the wire: the header and every child present.
    open spec fn encoded_size(&self) -> nat {
        HEADER_SIZE as nat + (match self.source_id {
            Some(b) => b.encoded_size(),
            None => 0,
        }) + (match self.cue_id {
            Some(b) => b.encoded_size(),
            None => 0,
        }) + (match self.cue_time {
            Some(b) => b.encoded_size(),
            None => 0,
        }) + (match self.cue_settings {
            Some(b) => b.encoded_size(),
            None => 0,
        }) + self.payload.encoded_size()
    }

    /// The header, then the children.
    open spec fn encoding(&self) -> Seq<u8> {
        header_bytes(BoxType::VttcBox, self.encoded_size() as u32) + self.children_bytes()
    }

    /// No text of the cue holds a zero byte.
    open spec fn is_nul_free(&self) -> bool {
        &&& self.cue_id matches Some(b) ==> b.is_nul_free()
        &&& self.cue_time matches Some(b) ==> b.is_nul_free()
        &&& self.cue_settings matches Some(b) ==> b.is_nul_free()
        &&& self.payload.is_nul_free()
    }

    open spec fn decoded(data: Seq<u8>, pos: int, size: u64) -> Result<(CueChildren, int), Error> {
        decode_cue(data, pos, size)
    }

    fn box_type(&self) -> (t: BoxType) {
        self.get_type()
    }

    fn box_size(&self) -> (n: u64) {
        self.get_size()
    }

    /// A line for diagnostics: there is nothing to say of the container
    /// itself.
    fn summary(&self) -> (r: Result<String, Error>)
        ensures
            r->Ok_0@ == Seq::<char>::empty(),
    {
        Ok(String::new())
    }

    /// Decodes the record's body; `size` is the size that its header
    /// declared, and the position is just behind that header.
    ///
    /// The children are read one behind the other up to the record's end. A
    /// child that declares a larger size than `size` is refused, a child of a
    /// type that a cue does not hold is passed over, and of two children of
    /// one kind the later one stays. A cue without a payload is refused. On
    /// success the position is at the record's end; on failure it has not
    /// moved.
    fn read_box(reader: &mut Reader, size: u64) -> (r: Result<Self, Error>) {
        if size < HEADER_SIZE {
            return Err(Error::SizeTooSmall);
        }
        let start = reader.pos;
        let len = reader.data.len();
        if start > len || size - HEADER_SIZE > (len - start) as u64 {
            return Err(Error::UnexpectedEof);
        }
        let end: usize = start + (size - HEADER_SIZE) as usize;

        let mut vsid: Option<VsidBox> = None;
        let mut iden: Option<IdenBox> = None;
        let mut ctim: Option<CtimBox> = None;
        let mut sttg: Option<SttgBox> = None;
        let mut payl: Option<PaylBox> = None;

        while reader.pos < end
            invariant
                reader.data == old(reader).data,
                len == reader.data@.len(),
                start == old(reader).pos,
                size >= HEADER_SIZE,
                end == start + size - HEADER_SIZE,
                start <= reader.pos <= len,
                end <= len,
                scan_cue(reader.data@, reader.pos as int, end as int, size, cue_slots(vsid, iden, ctim, sttg, payl))
                    == scan_cue(reader.data@, start as int, end as int, size, no_cue_children()),
            decreases len - reader.pos,
        {
            let header = match BoxHeader::read(reader) {
                Ok(h) => h,
                Err(e) => {
                    reader.pos = start;
                    return Err(e);
                },
            };
            let BoxHeader { name, size: s } = header;
            if s > size {
                reader.pos = start;
                return Err(Error::ChildLargerThanParent);
            }
            proof {
                lemma_decode_text_end(reader.data@, reader.pos as int, s);
            }
            match name {
                BoxType::PaylBox => {
                    match PaylBox::read_box(reader, s) {
                        Ok(b) => { payl = Some(b); },
                        Err(e) => {
                            reader.pos = start;
                            return Err(e);
                        },
                    }
                },
                BoxType::VsidBox => {
                    match VsidBox::read_box(reader, s) {
                        Ok(b) => { vsid = Some(b); },
                        Err(e) => {
                            reader.pos = start;
                            return Err(e);
                        },
                    }
                },
                BoxType::IdenBox => {
                    match IdenBox::read_box(reader, s) {
                        Ok(b) => { iden = Some(b); },
                        Err(e) => {
                            reader.pos = start;
                            return Err(e);
                        },
                    }
                },
                BoxType::CtimBox => {
                    match CtimBox::read_box(reader, s) {
                        Ok(b) => { ctim = Some(b); },
                        Err(e) => {
                            reader.pos = start;
                            return Err(e);
                        },
                    }
                },
                BoxType::SttgBox => {
                    match SttgBox::read_box(reader, s) {
                        Ok(b) => { sttg = Some(b); },
                        Err(e) => {
                            reader.pos = start;
                            return Err(e);
                        },
                    }
                },
                _ => {
                    match skip_box(reader, s) {
                        Ok(_) => {},
                        Err(e) => {
                            reader.pos = start;
                            return Err(e);
                        },
                    }
                },
            }
        }

        match payl {
            Some(payload) => {
                reader.pos = end;
                Ok(VttcBox { source_id: vsid, cue_id: iden, cue_time: ctim, cue_settings: sttg, payload })
            },
            None => {
                reader.pos = start;
                Err(Error::MissingRequiredChild(BoxType::PaylBox))
            },
        }
    }

    /// Appends the record to `out` and returns the number of bytes written,
    /// which is the record's size.
    ///
    /// Fails with `SizeTooLarge`, writing nothing, when the size does not
    /// fit the header's 32-bit size field.
    fn write_box(&self, out: &mut Vec<u8>) -> (r: Result<u64, Error>) {
        let size = match self.checked_size() {
            Some(n) => n,
            None => { return Err(Error::SizeTooLarge); },
        };
        let header = BoxHeader::new(self.box_type(), size);
        match header.write(out) {
            Ok(_) => {},
            Err(e) => { return Err(e); },
        }
        match self.write_children(out) {
            Ok(_) => {},
            Err(e) => { return Err(e); },
        }
        proof {
            let h = header_bytes(BoxType::VttcBox, size as u32);
            assert(out@ =~= old(out)@ + (h + self.children_bytes()));
            self.lemma_encoding_len();
        }
        Ok(size)
    }

    /// The record takes as many bytes as its size says.
    proof fn lemma_encoding_len(&self) {
        lemma_header_len(BoxType::VttcBox, self.encoded_size() as u32);
        if let Some(b) = self.source_id {
            b.lemma_encoding_len();
        }
        if let Some(b) = self.cue_id {
            lemma_text_box_len(BoxType::IdenBox, b.cue_id@);
        }
        if let Some(b) = self.cue_time {
            lemma_text_box_len(BoxType::CtimBox, b.current_time@);
        }
        if let Some(b) = self.cue_settings {
            lemma_text_box_len(BoxType::SttgBox, b.settings@);
        }
        lemma_text_box_len(BoxType::PaylBox, self.payload.cue_text@);
    }

    /// A cue whose texts hold no zero byte is read back as it was written:
    /// wherever its bytes lie in `data`, the header there gives its type
    /// and its size, and decoding the body gives its children, each in its
    /// slot, and ends where the record ends.
    proof fn lemma_round_trip(&self, data: Seq<u8>, pos: int) {
        let n = self.encoded_size() as int;
        let size = n as u64;
        let end = pos + n;
        self.lemma_layout(data, pos);
        lemma_text_box_len(BoxType::PaylBox, self.payload.cue_text@);
        let o1 = pos + 8;
        let o2 = o1 + opt_bytes_vsid(self.source_id).len();
        let o3 = o2 + opt_bytes_iden(self.cue_id).len();
        let o4 = o3 + opt_bytes_ctim(self.cue_time).len();
        let o5 = o4 + opt_bytes_sttg(self.cue_settings).len();
        lemma_header_round_trip(data, pos, BoxType::VttcBox, n as u32);

        let a0 = no_cue_children();
        let a1 = cue_slots(self.source_id, None, None, None, None);
        let a2 = cue_slots(self.source_id, self.cue_id, None, None, None);
        let a3 = cue_slots(self.source_id, self.cue_id, self.cue_time, None, None);
        let a4 = cue_slots(self.source_id, self.cue_id, self.cue_time, self.cue_settings, None);
        let a5 = self.model();
        assert(scan_cue(data, o1, end, size, a0) == scan_cue(data, o2, end, size, a1)) by {
            if let Some(b) = self.source_id {
                b.lemma_encoding_len();
                b.lemma_round_trip(data, o1);
                lemma_scan_cue_step(data, o1, end, size, a0);
            }
        }
        assert(scan_cue(data, o2, end, size, a1) == scan_cue(data, o3, end, size, a2)) by {
            if let Some(b) = self.cue_id {
                lemma_text_box_len(BoxType::IdenBox, b.cue_id@);
                b.lemma_round_trip(data, o2);
                lemma_scan_cue_step(data, o2, end, size, a1);
            }
        }
        assert(scan_cue(data, o3, end, size, a2) == scan_cue(data, o4, end, size, a3)) by {
            if let Some(b) = self.cue_time {
                lemma_text_box_len(BoxType::CtimBox, b.current_time@);
                b.lemma_round_trip(data, o3);
                lemma_scan_cue_step(data, o3, end, size, a2);
            }
        }
        assert(scan_cue(data, o4, end, size, a3) == scan_cue(data, o5, end, size, a4)) by {
            if let Some(b) = self.cue_settings {
                lemma_text_box_len(BoxType::SttgBox, b.settings@);
                b.lemma_round_trip(data, o4);
                lemma_scan_cue_step(data, o4, end, size, a3);
            }
        }
        assert(scan_cue(data, o5, end, size, a4) == scan_cue(data, end, end, size, a5)) by {
            self.payload.lemma_round_trip(data, o5);
            lemma_scan_cue_step(data, o5, end, size, a4);
        }
        assert(scan_cue(data, end, end, size, a5) == Ok::<CueChildren, Error>(a5));
    }
}

} // verus!
