use vttbox::BoxHeader;
use vttbox::BoxType;
use vttbox::CtimBox;
use vttbox::IdenBox;
use vttbox::Mp4Box;
use vttbox::PaylBox;
use vttbox::Reader;
use vttbox::SttgBox;
use vttbox::VlabBox;
use vttbox::VsidBox;
use vttbox::VttCBox;
use vttbox::VttaBox;
use vttbox::VttcBox;
use vttbox::VtteBox;

#[test]
fn test_ctim() {
    let src_box = CtimBox {
        current_time: "10:53:24".into(),
    };
    let mut buf = Vec::new();
    src_box.write_box(&mut buf).unwrap();
    assert_eq!(buf.len(), src_box.box_size() as usize);

    let mut reader = Reader::new(&buf);
    let header = BoxHeader::read(&mut reader).unwrap();
    assert_eq!(header.name, BoxType::CtimBox);
    assert_eq!(src_box.box_size(), header.size);

    let dst_box = CtimBox::read_box(&mut reader, header.size).unwrap();
    assert_eq!(src_box, dst_box);
}

#[test]
fn test_iden() {
    let src_box = IdenBox {
        cue_id: "test me".into(),
    };
    let mut buf = Vec::new();
    src_box.write_box(&mut buf).unwrap();
    assert_eq!(buf.len(), src_box.box_size() as usize);

    let mut reader = Reader::new(&buf);
    let header = BoxHeader::read(&mut reader).unwrap();
    assert_eq!(header.name, BoxType::IdenBox);
    assert_eq!(src_box.box_size(), header.size);

    let dst_box = IdenBox::read_box(&mut reader, header.size).unwrap();
    assert_eq!(src_box, dst_box);
}

#[test]
fn test_payl() {
    let src_box = PaylBox {
        cue_text: "test me".into(),
    };
    let mut buf = Vec::new();
    src_box.write_box(&mut buf).unwrap();
    assert_eq!(buf.len(), src_box.box_size() as usize);

    let mut reader = Reader::new(&buf);
    let header = BoxHeader::read(&mut reader).unwrap();
    assert_eq!(header.name, BoxType::PaylBox);
    assert_eq!(src_box.box_size(), header.size);

    let dst_box = PaylBox::read_box(&mut reader, header.size).unwrap();
    assert_eq!(src_box, dst_box);
}

#[test]
fn test_sttg() {
    let src_box = SttgBox {
        settings: "test me".into(),
    };
    let mut buf = Vec::new();
    src_box.write_box(&mut buf).unwrap();
    assert_eq!(buf.len(), src_box.box_size() as usize);

    let mut reader = Reader::new(&buf);
    let header = BoxHeader::read(&mut reader).unwrap();
    assert_eq!(header.name, BoxType::SttgBox);
    assert_eq!(src_box.box_size(), header.size);

    let dst_box = SttgBox::read_box(&mut reader, header.size).unwrap();
    assert_eq!(src_box, dst_box);
}

#[test]
fn test_vlab() {
    let src_box = VlabBox {
        source_label: "source_label".into(),
    };
    let mut buf = Vec::new();
    src_box.write_box(&mut buf).unwrap();
    assert_eq!(buf.len(), src_box.box_size() as usize);

    let mut reader = Reader::new(&buf);
    let header = BoxHeader::read(&mut reader).unwrap();
    assert_eq!(header.name, BoxType::VlabBox);
    assert_eq!(src_box.box_size(), header.size);

    let dst_box = VlabBox::read_box(&mut reader, header.size).unwrap();
    assert_eq!(src_box, dst_box);
}

#[test]
fn test_vtt_c() {
    let src_box = VttCBox {
        config: "WEBVTT".into(),
    };
    let mut buf = Vec::new();
    src_box.write_box(&mut buf).unwrap();
    assert_eq!(buf.len(), src_box.box_size() as usize);

    let mut reader = Reader::new(&buf);
    let header = BoxHeader::read(&mut reader).unwrap();
    assert_eq!(header.name, BoxType::VttCBox);
    assert_eq!(src_box.box_size(), header.size);

    let dst_box = VttCBox::read_box(&mut reader, header.size).unwrap();
    assert_eq!(src_box, dst_box);
}

#[test]
fn test_vtta() {
    let src_box = VttaBox {
        additional_text: "test me".into(),
    };
    let mut buf = Vec::new();
    src_box.write_box(&mut buf).unwrap();
    assert_eq!(buf.len(), src_box.box_size() as usize);

    let mut reader = Reader::new(&buf);
    let header = BoxHeader::read(&mut reader).unwrap();
    assert_eq!(header.name, BoxType::VttaBox);
    assert_eq!(src_box.box_size(), header.size);

    let dst_box = VttaBox::read_box(&mut reader, header.size).unwrap();
    assert_eq!(src_box, dst_box);
}

#[test]
fn test_vsid() {
    let src_box = VsidBox { source_id: 1234 };
    let mut buf = Vec::new();
    src_box.write_box(&mut buf).unwrap();
    assert_eq!(buf.len(), src_box.box_size() as usize);

    let mut reader = Reader::new(&buf);
    let header = BoxHeader::read(&mut reader).unwrap();
    assert_eq!(header.name, BoxType::VsidBox);
    assert_eq!(src_box.box_size(), header.size);

    let dst_box = VsidBox::read_box(&mut reader, header.size).unwrap();
    assert_eq!(src_box, dst_box);
}

#[test]
fn test_vtte() {
    let src_box = VtteBox {};
    let mut buf = Vec::new();
    src_box.write_box(&mut buf).unwrap();
    assert_eq!(buf.len(), src_box.box_size() as usize);

    let mut reader = Reader::new(&buf);
    let header = BoxHeader::read(&mut reader).unwrap();
    assert_eq!(header.name, BoxType::VtteBox);
    assert_eq!(src_box.box_size(), header.size);

    let dst_box = VtteBox::read_box(&mut reader, header.size).unwrap();
    assert_eq!(src_box, dst_box);
}

#[test]
fn test_vttc() {
    let src_box = VttcBox {
        source_id: Some(VsidBox { source_id: 1234 }),
        cue_id: Some(IdenBox { cue_id: "1".into() }),
        cue_time: Some(CtimBox {
            current_time: "10:53:24".into(),
        }),
        cue_settings: Some(SttgBox {
            settings: "align:center".into(),
        }),
        payload: PaylBox {
            cue_text: "test me".into(),
        },
    };
    let mut buf = Vec::new();
    src_box.write_box(&mut buf).unwrap();
    assert_eq!(buf.len(), src_box.box_size() as usize);

    let mut reader = Reader::new(&buf);
    let header = BoxHeader::read(&mut reader).unwrap();
    assert_eq!(header.name, BoxType::VttcBox);
    assert_eq!(src_box.box_size(), header.size);

    let dst_box = VttcBox::read_box(&mut reader, header.size).unwrap();
    assert_eq!(src_box, dst_box);
}
