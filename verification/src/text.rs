//! The codec shared by the records whose body is one piece of text.
//!
//! On the wire the body is the text's UTF-8 bytes, with no terminator and no
//! padding. A decoder ends the text at the first zero byte of the body, if
//! there is one, and drops what follows it.

use crate::header::append_bytes;
use crate::header::header_at;
use crate::header::header_bytes;
use crate::header::lemma_header_len;
use crate::header::lemma_header_round_trip;
use crate::header::BoxHeader;
use crate::reader::Reader;
use crate::types::BoxType;
use crate::types::Error;
use crate::types::HEADER_SIZE;
use vstd::prelude::*;
use vstd::slice::slice_subrange;
use vstd::slice::slice_to_vec;
use vstd::string::StringExecFns;
use vstd::string::StringSliceAdditionalSpecFns;
use vstd::utf8::decode_utf8;
use vstd::utf8::encode_utf8;
use vstd::utf8::encode_utf8_decode_utf8;
use vstd::utf8::encode_utf8_valid_utf8;
use vstd::utf8::valid_utf8;

verus! {

/// No byte of `b` is zero.
pub open spec fn nul_free(b: Seq<u8>) -> bool {
    forall|i: int| 0 <= i < b.len() ==> b[i] != 0
}

/// `n` is where the text of `body` ends: at its first zero byte, or at its
/// end when it has none.
pub open spec fn is_text_end(body: Seq<u8>, n: int) -> bool {
    &&& 0 <= n <= body.len()
    &&& forall|i: int| 0 <= i < n ==> body[i] != 0
    &&& n < body.len() ==> body[n] == 0
}

/// Where the text of `body` ends.
pub open spec fn text_end(body: Seq<u8>) -> int {
    choose|n: int| is_text_end(body, n)
}

/// The bytes of `body` in front of its first zero byte.
pub open spec fn text_bytes(body: Seq<u8>) -> Seq<u8> {
    body.subrange(0, text_end(body))
}

/// A body has one text end only, and its text is what lies in front of
/// that: nothing behind the first zero byte is kept.
pub proof fn lemma_text_end_unique(body: Seq<u8>, n: int)
    requires
        is_text_end(body, n),
    ensures
        text_end(body) == n,
        text_bytes(body) == body.subrange(0, n),
{
    let m = text_end(body);
    assert(is_text_end(body, m));
    if m < n {
        assert(body[m] == 0);
    } else if n < m {
        assert(body[n] == 0);
    }
}

/// A body without a zero byte is its own text.
pub proof fn lemma_text_bytes_nul_free(body: Seq<u8>)
    requires
        nul_free(body),
    ensures
        text_bytes(body) == body,
{
    lemma_text_end_unique(body, body.len() as int);
    assert(body.subrange(0, body.len() as int) =~= body);
}

/// What decoding a text record gives when the position is `pos`, just behind
/// its header, and its declared size is `size`: the text and the position
/// behind the record, or the reason why there is none.
#[verifier::opaque]
pub open spec fn decode_text(data: Seq<u8>, pos: int, size: u64) -> Result<(Seq<char>, int), Error> {
    if size < HEADER_SIZE {
        Err(Error::SizeTooSmall)
    } else if pos + size - HEADER_SIZE > data.len() {
        Err(Error::UnexpectedEof)
    } else {
        let t = text_bytes(data.subrange(pos, pos + size - HEADER_SIZE));
        if valid_utf8(t) {
            Ok((decode_utf8(t), pos + size - HEADER_SIZE))
        } else {
            Err(Error::InvalidText)
        }
    }
}

/// A text record that decodes holds its header at least, lies within the
/// data, and ends where its declared size says.
pub proof fn lemma_decode_text_end(data: Seq<u8>, pos: int, size: u64)
    ensures
        size < HEADER_SIZE ==> decode_text(data, pos, size) == Err::<(Seq<char>, int), Error>(
            Error::SizeTooSmall,
        ),
        decode_text(data, pos, size) matches Ok((_, p)) ==> size >= HEADER_SIZE && p == pos + size
            - HEADER_SIZE && p <= data.len(),
{
    reveal(decode_text);
}

/// The encoded size of a text record.
pub open spec fn text_box_size(text: Seq<char>) -> nat {
    HEADER_SIZE as nat + encode_utf8(text).len()
}

/// The bytes of a text record: its header, then the text in UTF-8.
#[verifier::opaque]
pub open spec fn text_box_bytes(name: BoxType, text: Seq<char>) -> Seq<u8> {
    header_bytes(name, text_box_size(text) as u32) + encode_utf8(text)
}

/// A text record without a zero byte that lies at `pos` in `data` is read
/// back as it was written: its header gives its type and size, and its body
/// gives its text and ends where the record ends.
pub proof fn lemma_text_round_trip(data: Seq<u8>, pos: int, name: BoxType, text: Seq<char>)
    requires
        name.canonical(),
        nul_free(encode_utf8(text)),
        text_box_size(text) <= u32::MAX,
        0 <= pos,
        pos + text_box_size(text) <= data.len(),
        data.subrange(pos, pos + text_box_size(text)) == text_box_bytes(name, text),
    ensures
        header_at(data, pos) == (BoxHeader { name, size: text_box_size(text) as u64 }),
        decode_text(data, pos + 8, text_box_size(text) as u64) == Ok::<(Seq<char>, int), Error>(
            (text, pos + text_box_size(text)),
        ),
{
    reveal(text_box_bytes);
    reveal(decode_text);
    let n = text_box_size(text) as int;
    lemma_header_len(name, n as u32);
    let whole = data.subrange(pos, pos + n);
    let body = encode_utf8(text);
    assert(data.subrange(pos, pos + 8) =~= whole.subrange(0, 8));
    assert(whole.subrange(0, 8) =~= header_bytes(name, n as u32));
    lemma_header_round_trip(data, pos, name, n as u32);
    assert(data.subrange(pos + 8, pos + 8 + n - 8) =~= whole.subrange(8, n));
    assert(whole.subrange(8, n) =~= body);
    lemma_text_bytes_nul_free(body);
    encode_utf8_valid_utf8(text);
    encode_utf8_decode_utf8(text);
}

/// `String::from_utf8`: the string made of these bytes, where they are valid
/// UTF-8, and nothing where they are not.
#[verifier::external_body]
pub(crate) fn string_from_utf8(bytes: Vec<u8>) -> (r: Option<String>)
    ensures
        r is Some <==> valid_utf8(bytes@),
        r matches Some(s) ==> encode_utf8(s@) == bytes@,
{
    match String::from_utf8(bytes) {
        Ok(s) => Some(s),
        Err(_) => None,
    }
}

/// Decodes the body of a text record of declared size `size`; the position
/// is just behind the record's header.
///
/// On success the position is behind the record. On failure it has not moved.
pub fn read_text(reader: &mut Reader, size: u64) -> (r: Result<String, Error>)
    ensures
        final(reader).data == old(reader).data,
        size < HEADER_SIZE ==> r == Err::<String, Error>(Error::SizeTooSmall),
        r is Ok ==> final(reader).pos == old(reader).pos + size - HEADER_SIZE,
        r is Err ==> final(reader).pos == old(reader).pos,
        match decode_text(old(reader).data@, old(reader).pos as int, size) {
            Ok((t, p)) => r is Ok && r->Ok_0@ == t && final(reader).pos == p,
            Err(e) => r == Err::<String, Error>(e) && final(reader).pos == old(reader).pos,
        },
{
    proof {
        reveal(decode_text);
    }
    if size < HEADER_SIZE {
        return Err(Error::SizeTooSmall);
    }
    let start = reader.pos;
    let body = match reader.take(size - HEADER_SIZE) {
        Ok(b) => b,
        Err(e) => { return Err(e); },
    };
    let mut n: usize = 0;
    while n < body.len() && body[n] != 0
        invariant
            n <= body@.len(),
            forall|i: int| 0 <= i < n ==> body@[i] != 0,
        decreases body@.len() - n,
    {
        n += 1;
    }
    proof {
        lemma_text_end_unique(body@, n as int);
    }
    let bytes = slice_to_vec(slice_subrange(body, 0, n));
    match string_from_utf8(bytes) {
        Some(s) => {
            proof {
                encode_utf8_decode_utf8(s@);
            }
            Ok(s)
        },
        None => {
            reader.pos = start;
            Err(Error::InvalidText)
        },
    }
}

/// A label followed by a text.
pub fn labelled(label: &str, text: &str) -> (r: String)
    ensures
        r@ == label@ + text@,
{
    let mut r = label.to_owned();
    r.append(text);
    r
}

/// The character of a decimal digit.
pub open spec fn digit_char(d: nat) -> char
    recommends
        d < 10,
{
    (0x30 + d) as u8 as char
}

/// A number in decimal, without leading zeros.
pub open spec fn decimal(v: nat) -> Seq<char>
    decreases v,
{
    if v < 10 {
        seq![digit_char(v)]
    } else {
        decimal(v / 10).push(digit_char(v % 10))
    }
}

/// `u64::to_string`: the number's decimal digits, the most significant
/// first, with no sign and no leading zero.
#[verifier::external_body]
pub(crate) fn decimal_string(v: u64) -> (s: String)
    ensures
        s@ == decimal(v as nat),
{
    v.to_string()
}

/// A label followed by a number in decimal.
pub fn labelled_number(label: &str, v: u64) -> (r: String)
    ensures
        r@ == label@ + decimal(v as nat),
{
    let digits = decimal_string(v);
    labelled(label, digits.as_str())
}

/// The encoded size of a text record, where it fits the header's 32-bit
/// size field.
pub fn checked_text_size(text: &str) -> (r: Option<u64>)
    ensures
        match r {
            Some(n) => n == text_box_size(text@) && n <= u32::MAX,
            None => text_box_size(text@) > u32::MAX,
        },
{
    let len = text.as_bytes().len();
    if len > 0xffff_fff7 {
        None
    } else {
        Some(HEADER_SIZE + len as u64)
    }
}

/// A text record takes as many bytes as its size says, eight at least.
pub proof fn lemma_text_box_len(name: BoxType, text: Seq<char>)
    ensures
        text_box_bytes(name, text).len() == text_box_size(text),
        text_box_size(text) >= 8,
{
    reveal(text_box_bytes);
    lemma_header_len(name, text_box_size(text) as u32);
}

/// The encoded size of a text record.
pub fn text_size(text: &str) -> (n: u64)
    requires
        text_box_size(text@) <= u64::MAX,
    ensures
        n == text_box_size(text@),
{
    HEADER_SIZE + text.as_bytes().len() as u64
}

/// Appends a text record to `out` and returns the number of bytes written,
/// which is the record's size.
///
/// Fails with `SizeTooLarge`, writing nothing, when that size does not fit
/// the 32-bit size field.
pub fn write_text(out: &mut Vec<u8>, name: BoxType, text: &str) -> (r: Result<u64, Error>)
    ensures
        text_box_size(text@) <= u32::MAX ==> r == Ok::<u64, Error>(text_box_size(text@) as u64)
            && final(out)@ == old(out)@ + text_box_bytes(name, text@) && final(out)@.len() == old(out)@.len() + text_box_size(text@),
        text_box_size(text@) > u32::MAX ==> r == Err::<u64, Error>(Error::SizeTooLarge) && final(out)@ == old(out)@,
{
    let body = text.as_bytes();
    if body.len() > 0xffff_fff7 {
        return Err(Error::SizeTooLarge);
    }
    let size: u64 = HEADER_SIZE + body.len() as u64;
    let header = BoxHeader::new(name, size);
    match header.write(out) {
        Ok(_) => {},
        Err(e) => { return Err(e); },
    }
    append_bytes(out, body);
    proof {
        reveal(text_box_bytes);
        lemma_text_box_len(name, text@);
        assert(final(out)@ =~= old(out)@ + text_box_bytes(name, text@));
    }
    Ok(size)
}

} // verus!
