//! Type tags, error kinds and the size of the shared record header.

use vstd::prelude::*;

verus! {

/// Bytes taken by the size field and the type tag in front of every record.
pub const HEADER_SIZE: u64 = 8;

pub const TAG_VSID: u32 = 0x7673_6964;

pub const TAG_IDEN: u32 = 0x6964_656e;

pub const TAG_CTIM: u32 = 0x6374_696d;

pub const TAG_STTG: u32 = 0x7374_7467;

pub const TAG_PAYL: u32 = 0x7061_796c;

pub const TAG_VLAB: u32 = 0x766c_6162;

pub const TAG_VTTC_CONFIG: u32 = 0x7674_7443;

pub const TAG_VTTA: u32 = 0x7674_7461;

pub const TAG_VTTE: u32 = 0x7674_7465;

pub const TAG_VTTC: u32 = 0x7674_7463;

pub const TAG_WVTT: u32 = 0x7776_7474;

/// The record variants of this family, and a fallback for every other tag.
#[derive(Debug, Clone, Copy, PartialEq, Eq, Structural)]
pub enum BoxType {
    VsidBox,
    IdenBox,
    CtimBox,
    SttgBox,
    PaylBox,
    VlabBox,
    VttCBox,
    VttaBox,
    VtteBox,
    VttcBox,
    WvttBox,
    UnknownBox(u32),
}

/// Why a record could not be decoded or encoded.
#[derive(Debug, Clone, Copy, PartialEq, Eq, Structural)]
pub enum Error {
    /// The declared size cannot hold the header and the fixed part of the body.
    SizeTooSmall,
    /// A text body is not valid UTF-8.
    InvalidText,
    /// A child declares a size larger than its parent's.
    ChildLargerThanParent,
    /// A container was scanned to its end without its mandatory child.
    MissingRequiredChild(BoxType),
    /// The bytes at hand end before the record does.
    UnexpectedEof,
    /// The record's size does not fit the 32-bit size field.
    SizeTooLarge,
}

/// The variant that a four-byte tag stands for.
pub open spec fn tag_type(tag: u32) -> BoxType {
    if tag == TAG_VSID {
        BoxType::VsidBox
    } else if tag == TAG_IDEN {
        BoxType::IdenBox
    } else if tag == TAG_CTIM {
        BoxType::CtimBox
    } else if tag == TAG_STTG {
        BoxType::SttgBox
    } else if tag == TAG_PAYL {
        BoxType::PaylBox
    } else if tag == TAG_VLAB {
        BoxType::VlabBox
    } else if tag == TAG_VTTC_CONFIG {
        BoxType::VttCBox
    } else if tag == TAG_VTTA {
        BoxType::VttaBox
    } else if tag == TAG_VTTE {
        BoxType::VtteBox
    } else if tag == TAG_VTTC {
        BoxType::VttcBox
    } else if tag == TAG_WVTT {
        BoxType::WvttBox
    } else {
        BoxType::UnknownBox(tag)
    }
}

/// The four-byte tag that a variant is written with.
pub open spec fn type_tag(t: BoxType) -> u32 {
    match t {
        BoxType::VsidBox => TAG_VSID,
        BoxType::IdenBox => TAG_IDEN,
        BoxType::CtimBox => TAG_CTIM,
        BoxType::SttgBox => TAG_STTG,
        BoxType::PaylBox => TAG_PAYL,
        BoxType::VlabBox => TAG_VLAB,
        BoxType::VttCBox => TAG_VTTC_CONFIG,
        BoxType::VttaBox => TAG_VTTA,
        BoxType::VtteBox => TAG_VTTE,
        BoxType::VttcBox => TAG_VTTC,
        BoxType::WvttBox => TAG_WVTT,
        BoxType::UnknownBox(tag) => tag,
    }
}

impl BoxType {
    /// A fallback variant is canonical when its tag names no known variant.
    pub open spec fn canonical(self) -> bool {
        match self {
            BoxType::UnknownBox(tag) => tag_type(tag) == self,
            _ => true,
        }
    }

    /// Maps a tag to its variant; tags outside the family are kept as they are.
    pub fn from_u32(tag: u32) -> (t: BoxType)
        ensures
            t == tag_type(tag),
            t.canonical(),
            type_tag(t) == tag,
    {
        if tag == TAG_VSID {
            BoxType::VsidBox
        } else if tag == TAG_IDEN {
            BoxType::IdenBox
        } else if tag == TAG_CTIM {
            BoxType::CtimBox
        } else if tag == TAG_STTG {
            BoxType::SttgBox
        } else if tag == TAG_PAYL {
            BoxType::PaylBox
        } else if tag == TAG_VLAB {
            BoxType::VlabBox
        } else if tag == TAG_VTTC_CONFIG {
            BoxType::VttCBox
        } else if tag == TAG_VTTA {
            BoxType::VttaBox
        } else if tag == TAG_VTTE {
            BoxType::VtteBox
        } else if tag == TAG_VTTC {
            BoxType::VttcBox
        } else if tag == TAG_WVTT {
            BoxType::WvttBox
        } else {
            BoxType::UnknownBox(tag)
        }
    }

    /// The tag this variant is written with.
    pub fn to_u32(self) -> (tag: u32)
        ensures
            tag == type_tag(self),
            self.canonical() ==> tag_type(tag) == self,
    {
        match self {
            BoxType::VsidBox => TAG_VSID,
            BoxType::IdenBox => TAG_IDEN,
            BoxType::CtimBox => TAG_CTIM,
            BoxType::SttgBox => TAG_STTG,
            BoxType::PaylBox => TAG_PAYL,
            BoxType::VlabBox => TAG_VLAB,
            BoxType::VttCBox => TAG_VTTC_CONFIG,
            BoxType::VttaBox => TAG_VTTA,
            BoxType::VtteBox => TAG_VTTE,
            BoxType::VttcBox => TAG_VTTC,
            BoxType::WvttBox => TAG_WVTT,
            BoxType::UnknownBox(tag) => tag,
        }
    }
}

} // verus!
