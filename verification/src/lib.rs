//! A codec for the WebVTT family of ISO base media boxes.
//!
//! Every record is a length-prefixed, self-describing unit: a four-byte
//! big-endian total size, a four-byte type tag, then the body. Decoders read
//! from a [`Reader`] over a byte slice, encoders append to a `Vec<u8>`, and
//! every function states its wire behaviour over sequences of bytes.

pub mod types;
pub mod endian;
pub mod reader;
pub mod header;
pub mod mp4box;
pub mod text;
pub mod ctim;
pub mod iden;
pub mod payl;
pub mod sttg;
pub mod vlab;
pub mod vtt_c;
pub mod vtta;
pub mod vsid;
pub mod vtte;
pub mod vttc;
pub mod wvtt;

pub use crate::header::BoxHeader;
pub use crate::mp4box::Mp4Box;
pub use crate::reader::Reader;
pub use crate::types::BoxType;
pub use crate::types::Error;
pub use crate::types::HEADER_SIZE;
pub use crate::ctim::CtimBox;
pub use crate::iden::IdenBox;
pub use crate::payl::PaylBox;
pub use crate::sttg::SttgBox;
pub use crate::vlab::VlabBox;
pub use crate::vtt_c::VttCBox;
pub use crate::vtta::VttaBox;
pub use crate::vsid::VsidBox;
pub use crate::vtte::VtteBox;
pub use crate::vttc::VttcBox;
pub use crate::wvtt::WvttBox;
