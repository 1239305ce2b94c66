use vttbox::header::append_bytes;
use vttbox::header::skip_box;
use vttbox::text::checked_text_size;
use vttbox::text::labelled;
use vttbox::text::labelled_number;
use vttbox::text::read_text;
use vttbox::text::text_size;
use vttbox::text::write_text;
use vttbox::BoxType;
use vttbox::Error;
use vttbox::Reader;

#[test]
fn append_bytes_keeps_what_was_there() {
    let mut out = vec![1, 2];
    append_bytes(&mut out, &[3, 4, 5]);
    assert_eq!(out, vec![1, 2, 3, 4, 5]);
    append_bytes(&mut out, &[]);
    assert_eq!(out, vec![1, 2, 3, 4, 5]);
}

#[test]
fn skip_box_moves_to_the_end_of_the_record() {
    let data = [0u8; 20];
    let mut reader = Reader::new(&data);
    reader.skip(8).unwrap();
    assert_eq!(skip_box(&mut reader, 8), Ok(()));
    assert_eq!(reader.position(), 8);
    assert_eq!(skip_box(&mut reader, 20), Ok(()));
    assert_eq!(reader.position(), 20);
    assert_eq!(skip_box(&mut reader, 9), Err(Error::UnexpectedEof));
    assert_eq!(skip_box(&mut reader, 7), Err(Error::SizeTooSmall));
    assert_eq!(reader.position(), 20);
}

#[test]
fn text_sizes() {
    assert_eq!(text_size(""), 8);
    assert_eq!(text_size("abc"), 11);
    assert_eq!(text_size("\u{1f600}"), 12);
    assert_eq!(checked_text_size(""), Some(8));
    assert_eq!(checked_text_size("10:53:24"), Some(16));
}

#[test]
fn labels() {
    assert_eq!(labelled("a=", "b"), "a=b");
    assert_eq!(labelled("", ""), "");
    assert_eq!(labelled_number("n=", 0), "n=0");
    assert_eq!(labelled_number("n=", 10), "n=10");
    assert_eq!(labelled_number("n=", 65535), "n=65535");
    assert_eq!(labelled_number("", u64::MAX), "18446744073709551615");
}

#[test]
fn text_is_written_under_any_tag() {
    let mut out = Vec::new();
    assert_eq!(write_text(&mut out, BoxType::UnknownBox(0x6162_6364), "xy"), Ok(10));
    assert_eq!(out, vec![0, 0, 0, 10, b'a', b'b', b'c', b'd', b'x', b'y']);
}

#[test]
fn text_is_read_up_to_the_declared_size() {
    let data = *b"hello world";
    let mut reader = Reader::new(&data);
    assert_eq!(read_text(&mut reader, 13), Ok(String::from("hello")));
    assert_eq!(reader.position(), 5);
    assert_eq!(read_text(&mut reader, 8), Ok(String::new()));
    assert_eq!(reader.position(), 5);
    assert_eq!(read_text(&mut reader, 14), Ok(String::from(" world")));
    assert_eq!(reader.position(), 11);
    assert_eq!(read_text(&mut reader, 9), Err(Error::UnexpectedEof));
    assert_eq!(read_text(&mut reader, 3), Err(Error::SizeTooSmall));
}
