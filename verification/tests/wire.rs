use vttbox::BoxHeader;
use vttbox::BoxType;
use vttbox::CtimBox;
use vttbox::Error;
use vttbox::IdenBox;
use vttbox::Mp4Box;
use vttbox::PaylBox;
use vttbox::Reader;
use vttbox::SttgBox;
use vttbox::VlabBox;
use vttbox::VsidBox;
use vttbox::VttCBox;
use vttbox::VttaBox;
use vttbox::VttcBox;
use vttbox::VtteBox;
use vttbox::WvttBox;
use vttbox::HEADER_SIZE;

fn record(tag: &[u8; 4], body: &[u8]) -> Vec<u8> {
    let mut v = Vec::new();
    v.extend_from_slice(&((body.len() as u32 + 8).to_be_bytes()));
    v.extend_from_slice(tag);
    v.extend_from_slice(body);
    v
}

fn with_header(tag: &[u8; 4], size: u32, body: &[u8]) -> Vec<u8> {
    let mut v = Vec::new();
    v.extend_from_slice(&size.to_be_bytes());
    v.extend_from_slice(tag);
    v.extend_from_slice(body);
    v
}

#[test]
fn header_size_is_eight() {
    assert_eq!(HEADER_SIZE, 8);
}

#[test]
fn tags_map_both_ways() {
    let known = [
        (BoxType::VsidBox, *b"vsid"),
        (BoxType::IdenBox, *b"iden"),
        (BoxType::CtimBox, *b"ctim"),
        (BoxType::SttgBox, *b"sttg"),
        (BoxType::PaylBox, *b"payl"),
        (BoxType::VlabBox, *b"vlab"),
        (BoxType::VttCBox, *b"vttC"),
        (BoxType::VttaBox, *b"vtta"),
        (BoxType::VtteBox, *b"vtte"),
        (BoxType::VttcBox, *b"vttc"),
        (BoxType::WvttBox, *b"wvtt"),
    ];
    for (t, tag) in known {
        let n = u32::from_be_bytes(tag);
        assert_eq!(t.to_u32(), n);
        assert_eq!(BoxType::from_u32(n), t);
    }
    let other = u32::from_be_bytes(*b"free");
    assert_eq!(BoxType::from_u32(other), BoxType::UnknownBox(other));
    assert_eq!(BoxType::UnknownBox(other).to_u32(), other);
}

#[test]
fn header_bytes_are_size_then_tag() {
    let mut buf = vec![0xaa];
    let n = BoxHeader::new(BoxType::PaylBox, 0x0102_0304).write(&mut buf).unwrap();
    assert_eq!(n, 8);
    assert_eq!(buf, vec![0xaa, 1, 2, 3, 4, b'p', b'a', b'y', b'l']);
}

#[test]
fn header_is_read_at_the_position() {
    let data = [9, 9, 0, 0, 1, 0, b'v', b't', b't', b'e', 7];
    let mut reader = Reader::new(&data);
    reader.skip(2).unwrap();
    let h = BoxHeader::read(&mut reader).unwrap();
    assert_eq!(h, BoxHeader { name: BoxType::VtteBox, size: 256 });
    assert_eq!(reader.position(), 10);
    assert_eq!(BoxHeader::read(&mut reader), Err(Error::UnexpectedEof));
    assert_eq!(reader.position(), 10);
}

#[test]
fn header_size_beyond_32_bits_is_refused() {
    let mut buf = vec![1, 2];
    let r = BoxHeader::new(BoxType::PaylBox, 0x1_0000_0000).write(&mut buf);
    assert_eq!(r, Err(Error::SizeTooLarge));
    assert_eq!(buf, vec![1, 2]);
    let mut buf = Vec::new();
    assert_eq!(BoxHeader::new(BoxType::PaylBox, 0xffff_ffff).write(&mut buf), Ok(8));
    assert_eq!(buf, vec![0xff, 0xff, 0xff, 0xff, b'p', b'a', b'y', b'l']);
}

#[test]
fn reader_takes_skips_and_reads_numbers() {
    let data = [1, 2, 3, 4, 5, 6, 7];
    let mut reader = Reader::new(&data);
    assert_eq!(reader.position(), 0);
    assert_eq!(reader.read_u16(), Ok(0x0102));
    assert_eq!(reader.take(1).unwrap(), &[3][..]);
    assert_eq!(reader.read_u32(), Ok(0x0405_0607));
    assert_eq!(reader.position(), 7);
    assert_eq!(reader.read_u16(), Err(Error::UnexpectedEof));
    assert_eq!(reader.take(0).unwrap(), &[][..]);
    assert_eq!(reader.skip(1), Err(Error::UnexpectedEof));
    assert_eq!(reader.position(), 7);
}

#[test]
fn text_record_bytes() {
    let b = IdenBox { cue_id: "id".into() };
    let mut buf = Vec::new();
    assert_eq!(b.write_box(&mut buf), Ok(10));
    assert_eq!(buf, vec![0, 0, 0, 10, b'i', b'd', b'e', b'n', b'i', b'd']);
    assert_eq!(b.get_size(), 10);
    assert_eq!(b.get_type(), BoxType::IdenBox);
    assert_eq!(b.box_type(), BoxType::IdenBox);
}

#[test]
fn text_size_counts_utf8_bytes() {
    let b = PaylBox { cue_text: "h\u{e9}\u{4e16}".into() };
    assert_eq!(b.box_size(), 8 + 1 + 2 + 3);
    let mut buf = Vec::new();
    assert_eq!(b.write_box(&mut buf), Ok(14));
    assert_eq!(&buf[8..], "h\u{e9}\u{4e16}".as_bytes());
    let mut reader = Reader::new(&buf);
    let h = BoxHeader::read(&mut reader).unwrap();
    assert_eq!(PaylBox::read_box(&mut reader, h.size), Ok(b));
}

#[test]
fn source_id_record_bytes() {
    let b = VsidBox { source_id: 0x0a0b_0c0d };
    let mut buf = Vec::new();
    assert_eq!(b.write_box(&mut buf), Ok(12));
    assert_eq!(buf, vec![0, 0, 0, 12, b'v', b's', b'i', b'd', 0x0a, 0x0b, 0x0c, 0x0d]);
    assert_eq!(b.get_size(), 12);
    assert_eq!(b.get_type(), BoxType::VsidBox);
}

#[test]
fn empty_cue_record_bytes() {
    let b = VtteBox {};
    let mut buf = Vec::new();
    assert_eq!(b.write_box(&mut buf), Ok(8));
    assert_eq!(buf, vec![0, 0, 0, 8, b'v', b't', b't', b'e']);
    assert_eq!(b.get_size(), 8);
    assert_eq!(b.get_type(), BoxType::VtteBox);
}

#[test]
fn text_ends_at_the_first_zero_byte() {
    let data = record(b"payl", b"ab\0cd");
    let mut reader = Reader::new(&data);
    let h = BoxHeader::read(&mut reader).unwrap();
    assert_eq!(h.size, 13);
    let b = PaylBox::read_box(&mut reader, h.size).unwrap();
    assert_eq!(b.cue_text, "ab");
    assert_eq!(reader.position(), 13);
    let mut again = Vec::new();
    assert_eq!(b.write_box(&mut again), Ok(10));
}

#[test]
fn text_with_a_leading_zero_byte_is_empty() {
    let data = record(b"iden", b"\0\xff\xff");
    let mut reader = Reader::new(&data);
    let h = BoxHeader::read(&mut reader).unwrap();
    assert_eq!(IdenBox::read_box(&mut reader, h.size), Ok(IdenBox { cue_id: String::new() }));
    assert_eq!(reader.position(), 11);
}

#[test]
fn empty_text_body() {
    let data = record(b"sttg", b"");
    let mut reader = Reader::new(&data);
    let h = BoxHeader::read(&mut reader).unwrap();
    assert_eq!(SttgBox::read_box(&mut reader, h.size), Ok(SttgBox::default()));
    assert_eq!(reader.position(), 8);
}

#[test]
fn malformed_text_is_refused() {
    let data = record(b"ctim", b"a\xffb");
    let mut reader = Reader::new(&data);
    let h = BoxHeader::read(&mut reader).unwrap();
    assert_eq!(CtimBox::read_box(&mut reader, h.size), Err(Error::InvalidText));
    assert_eq!(reader.position(), 8);
    let data = record(b"ctim", b"\xe4\xb8");
    let mut reader = Reader::new(&data);
    let h = BoxHeader::read(&mut reader).unwrap();
    assert_eq!(CtimBox::read_box(&mut reader, h.size), Err(Error::InvalidText));
}

#[test]
fn truncated_text_is_refused() {
    let data = with_header(b"vlab", 20, b"short");
    let mut reader = Reader::new(&data);
    let h = BoxHeader::read(&mut reader).unwrap();
    assert_eq!(VlabBox::read_box(&mut reader, h.size), Err(Error::UnexpectedEof));
    assert_eq!(reader.position(), 8);
}

#[test]
fn undersized_records_are_refused_and_nothing_is_consumed() {
    let data = [0u8; 32];
    for size in 0..8u64 {
        let mut reader = Reader::new(&data);
        reader.skip(8).unwrap();
        assert_eq!(IdenBox::read_box(&mut reader, size), Err(Error::SizeTooSmall));
        assert_eq!(CtimBox::read_box(&mut reader, size), Err(Error::SizeTooSmall));
        assert_eq!(PaylBox::read_box(&mut reader, size), Err(Error::SizeTooSmall));
        assert_eq!(SttgBox::read_box(&mut reader, size), Err(Error::SizeTooSmall));
        assert_eq!(VlabBox::read_box(&mut reader, size), Err(Error::SizeTooSmall));
        assert_eq!(VttCBox::read_box(&mut reader, size), Err(Error::SizeTooSmall));
        assert_eq!(VttaBox::read_box(&mut reader, size), Err(Error::SizeTooSmall));
        assert_eq!(VsidBox::read_box(&mut reader, size), Err(Error::SizeTooSmall));
        assert_eq!(VtteBox::read_box(&mut reader, size), Err(Error::SizeTooSmall));
        assert_eq!(VttcBox::read_box(&mut reader, size), Err(Error::SizeTooSmall));
        assert_eq!(WvttBox::read_box(&mut reader, size), Err(Error::SizeTooSmall));
        assert_eq!(reader.position(), 8);
    }
}

#[test]
fn source_id_too_short_for_its_number() {
    let data = with_header(b"vsid", 11, &[0, 0, 1, 2]);
    let mut reader = Reader::new(&data);
    let h = BoxHeader::read(&mut reader).unwrap();
    assert_eq!(VsidBox::read_box(&mut reader, h.size), Err(Error::SizeTooSmall));
    assert_eq!(reader.position(), 8);
}

#[test]
fn oversized_source_id_is_accepted() {
    let mut data = record(b"vsid", &[0, 0, 4, 210, 9, 9, 9]);
    data.push(0x55);
    let mut reader = Reader::new(&data);
    let h = BoxHeader::read(&mut reader).unwrap();
    assert_eq!(h.size, 15);
    assert_eq!(VsidBox::read_box(&mut reader, h.size), Ok(VsidBox { source_id: 1234 }));
    assert_eq!(reader.position(), 15);
}

#[test]
fn truncated_source_id_is_refused() {
    let data = with_header(b"vsid", 12, &[0, 0]);
    let mut reader = Reader::new(&data);
    let h = BoxHeader::read(&mut reader).unwrap();
    assert_eq!(VsidBox::read_box(&mut reader, h.size), Err(Error::UnexpectedEof));
    assert_eq!(reader.position(), 8);
}

#[test]
fn empty_cue_passes_over_padding() {
    let data = record(b"vtte", &[1, 2, 3, 4, 5]);
    let mut reader = Reader::new(&data);
    let h = BoxHeader::read(&mut reader).unwrap();
    assert_eq!(VtteBox::read_box(&mut reader, h.size), Ok(VtteBox {}));
    assert_eq!(reader.position(), 13);
    let data = with_header(b"vtte", 13, &[1, 2]);
    let mut reader = Reader::new(&data);
    let h = BoxHeader::read(&mut reader).unwrap();
    assert_eq!(VtteBox::read_box(&mut reader, h.size), Err(Error::UnexpectedEof));
    assert_eq!(reader.position(), 8);
}

#[test]
fn summaries() {
    assert_eq!(IdenBox { cue_id: "7".into() }.summary().unwrap(), "cue_id=7");
    assert_eq!(
        CtimBox { current_time: "00:01".into() }.summary().unwrap(),
        "current_time=00:01"
    );
    assert_eq!(PaylBox { cue_text: "hi".into() }.summary().unwrap(), "cue_text=hi");
    assert_eq!(SttgBox { settings: "a:b".into() }.summary().unwrap(), "settings=a:b");
    assert_eq!(VlabBox { source_label: "x".into() }.summary().unwrap(), "source_label=x");
    assert_eq!(VttCBox { config: "WEBVTT".into() }.summary().unwrap(), "config=WEBVTT");
    assert_eq!(
        VttaBox { additional_text: "n".into() }.summary().unwrap(),
        "additional_text=n"
    );
    assert_eq!(VsidBox { source_id: 1234 }.summary().unwrap(), "source_id=1234");
    assert_eq!(VsidBox { source_id: 0 }.summary().unwrap(), "source_id=0");
    assert_eq!(
        VsidBox { source_id: u32::MAX }.summary().unwrap(),
        "source_id=4294967295"
    );
    assert_eq!(VtteBox {}.summary().unwrap(), "");
    assert_eq!(VttcBox::default().summary().unwrap(), "");
    assert_eq!(WvttBox::default().summary().unwrap(), "data_reference_index=1");
}

#[test]
fn defaults() {
    assert_eq!(IdenBox::default().cue_id, "");
    assert_eq!(CtimBox::default().current_time, "");
    assert_eq!(PaylBox::default().cue_text, "");
    assert_eq!(SttgBox::default().settings, "");
    assert_eq!(VlabBox::default().source_label, "");
    assert_eq!(VttCBox::default().config, "");
    assert_eq!(VttaBox::default().additional_text, "");
    assert_eq!(VsidBox::default().source_id, 0);
    assert_eq!(VtteBox::default(), VtteBox {});
    let cue = VttcBox::default();
    assert_eq!(cue.source_id, None);
    assert_eq!(cue.cue_id, None);
    assert_eq!(cue.cue_time, None);
    assert_eq!(cue.cue_settings, None);
    assert_eq!(cue.payload, PaylBox::default());
    assert_eq!(cue.box_size(), 16);
    let entry = WvttBox::default();
    assert_eq!(entry.data_reference_index, 1);
    assert_eq!(entry.config, VttCBox::default());
    assert_eq!(entry.label, None);
    assert_eq!(entry.box_size(), 24);
}
