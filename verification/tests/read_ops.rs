use simpleio::FailSource;
use simpleio::MemSource;
use simpleio::ReadError;
use simpleio::SimpleIO;

#[test]
fn read_string_returns_the_text() {
    let mut src = MemSource::new(b"hello world".to_vec());
    assert_eq!(src.read_string(), Ok(String::from("hello world")));
}

#[test]
fn read_string_empty_source() {
    let mut src = MemSource::new(Vec::new());
    assert_eq!(src.read_string(), Ok(String::new()));
}

#[test]
fn read_string_multibyte_text() {
    let mut src = MemSource::new("gr\u{fc}ne \u{1f600}".as_bytes().to_vec());
    assert_eq!(src.read_string(), Ok(String::from("gr\u{fc}ne \u{1f600}")));
}

#[test]
fn read_string_invalid_utf8_is_a_decode_error() {
    let mut src = MemSource::new(vec![0xFF, 0xFE]);
    assert_eq!(src.read_string(), Err(ReadError::Decode));
}

#[test]
fn read_chars_returns_the_scalar_values_in_order() {
    let mut src = MemSource::new(b"abc".to_vec());
    assert_eq!(src.read_chars(), Ok(vec!['a', 'b', 'c']));
}

#[test]
fn read_chars_multibyte_text() {
    let mut src = MemSource::new("\u{e9}t\u{e9}".as_bytes().to_vec());
    assert_eq!(src.read_chars(), Ok(vec!['\u{e9}', 't', '\u{e9}']));
}

#[test]
fn read_chars_empty_source() {
    let mut src = MemSource::new(Vec::new());
    assert_eq!(src.read_chars(), Ok(Vec::new()));
}

#[test]
fn read_chars_invalid_utf8_is_a_decode_error() {
    let mut src = MemSource::new(vec![b'a', 0x80]);
    assert_eq!(src.read_chars(), Err(ReadError::Decode));
}

#[test]
fn read_lines_splits_on_newlines() {
    let mut src = MemSource::new(b"hi\nbye".to_vec());
    assert_eq!(
        src.read_lines(),
        Ok(vec![String::from("hi"), String::from("bye")])
    );
}

#[test]
fn read_lines_strips_crlf_and_final_terminator() {
    let mut src = MemSource::new(b"hi\r\nbye\n".to_vec());
    assert_eq!(
        src.read_lines(),
        Ok(vec![String::from("hi"), String::from("bye")])
    );
}

#[test]
fn read_lines_keeps_interior_empty_lines() {
    let mut src = MemSource::new(b"a\n\nb".to_vec());
    assert_eq!(
        src.read_lines(),
        Ok(vec![String::from("a"), String::new(), String::from("b")])
    );
}

#[test]
fn read_lines_lone_newline_is_one_empty_line() {
    let mut src = MemSource::new(b"\n".to_vec());
    assert_eq!(src.read_lines(), Ok(vec![String::new()]));
}

#[test]
fn read_lines_bare_carriage_return_is_kept() {
    let mut src = MemSource::new(b"a\rb\nc\r".to_vec());
    assert_eq!(
        src.read_lines(),
        Ok(vec![String::from("a\rb"), String::from("c\r")])
    );
}

#[test]
fn read_lines_empty_source_has_no_lines() {
    let mut src = MemSource::new(Vec::new());
    assert_eq!(src.read_lines(), Ok(Vec::new()));
}

#[test]
fn read_lines_invalid_utf8_is_a_decode_error() {
    let mut src = MemSource::new(vec![b'h', b'i', b'\n', 0xC0]);
    assert_eq!(src.read_lines(), Err(ReadError::Decode));
}

#[test]
fn read_vec_returns_the_bytes_exactly() {
    let mut src = MemSource::new(vec![1, 2, 3, 255]);
    assert_eq!(src.read_vec(), Ok(vec![1, 2, 3, 255]));
}

#[test]
fn read_vec_accepts_invalid_utf8() {
    let mut src = MemSource::new(vec![0xFF, 0xFE]);
    assert_eq!(src.read_vec(), Ok(vec![0xFF, 0xFE]));
}

#[test]
fn read_vec_drains_the_source() {
    let mut src = MemSource::new(b"once".to_vec());
    assert_eq!(src.read_vec(), Ok(b"once".to_vec()));
    assert_eq!(src.read_vec(), Ok(Vec::new()));
}

#[test]
fn failing_source_reports_io_errors() {
    let mut src = FailSource::new();
    assert_eq!(src.read_string(), Err(ReadError::Io));
    assert_eq!(src.read_chars(), Err(ReadError::Io));
    assert_eq!(src.read_lines(), Err(ReadError::Io));
    assert_eq!(src.read_vec(), Err(ReadError::Io));
}
