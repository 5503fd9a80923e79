use wasm_interp::parser::varint::{read_i32, read_i64, read_s33, read_u32};
use wasm_interp::parser::{Cursor, Module, Parsable, ParseError};

fn decode_module(bytes: &[u8]) -> Result<Module, ParseError> {
    let mut stack = Vec::new();
    let mut cursor = Cursor::new(bytes);
    Module::parse(&mut cursor, &mut stack)
}

#[test]
fn u32_single_byte() {
    let bytes = [0x7f];
    let mut c = Cursor::new(&bytes);
    assert_eq!(read_u32(&mut c), Ok(127));
    assert_eq!(c.pos, 1);
}

#[test]
fn u32_multi_byte() {
    let bytes = [0xE5, 0x8E, 0x26, 0xAA];
    let mut c = Cursor::new(&bytes);
    assert_eq!(read_u32(&mut c), Ok(624485));
    assert_eq!(c.pos, 3);
}

#[test]
fn u32_max() {
    let bytes = [0xFF, 0xFF, 0xFF, 0xFF, 0x0F];
    let mut c = Cursor::new(&bytes);
    assert_eq!(read_u32(&mut c), Ok(u32::MAX));
}

#[test]
fn u32_too_large_is_overflow() {
    let bytes = [0xFF, 0xFF, 0xFF, 0xFF, 0x1F];
    let mut c = Cursor::new(&bytes);
    assert_eq!(read_u32(&mut c), Err(ParseError::Leb128Overflow));
}

#[test]
fn u32_too_long_is_overflow() {
    let bytes = [0x80, 0x80, 0x80, 0x80, 0x80, 0x00];
    let mut c = Cursor::new(&bytes);
    assert_eq!(read_u32(&mut c), Err(ParseError::Leb128Overflow));
}

#[test]
fn u32_cut_short_is_eof() {
    let bytes = [0x80, 0x80];
    let mut c = Cursor::new(&bytes);
    assert_eq!(read_u32(&mut c), Err(ParseError::UnexpectedEof));
}

#[test]
fn i32_negative() {
    let bytes = [0xC0, 0xBB, 0x78];
    let mut c = Cursor::new(&bytes);
    assert_eq!(read_i32(&mut c), Ok(-123456));
    let bytes = [0x7f];
    let mut c = Cursor::new(&bytes);
    assert_eq!(read_i32(&mut c), Ok(-1));
}

#[test]
fn i32_min_and_overflow() {
    let bytes = [0x80, 0x80, 0x80, 0x80, 0x78];
    let mut c = Cursor::new(&bytes);
    assert_eq!(read_i32(&mut c), Ok(i32::MIN));
    let bytes = [0x80, 0x80, 0x80, 0x80, 0x70];
    let mut c = Cursor::new(&bytes);
    assert_eq!(read_i32(&mut c), Err(ParseError::Leb128Overflow));
}

#[test]
fn i64_ten_bytes() {
    let bytes = [0x80, 0x80, 0x80, 0x80, 0x80, 0x80, 0x80, 0x80, 0x80, 0x7f];
    let mut c = Cursor::new(&bytes);
    assert_eq!(read_i64(&mut c), Ok(i64::MIN));
    let bytes = [0x80, 0x80, 0x80, 0x80, 0x80, 0x80, 0x80, 0x80, 0x80, 0x01];
    let mut c = Cursor::new(&bytes);
    assert_eq!(read_i64(&mut c), Err(ParseError::Leb128Overflow));
}

#[test]
fn s33_range() {
    let bytes = [0xFF, 0xFF, 0xFF, 0xFF, 0x0F];
    let mut c = Cursor::new(&bytes);
    assert_eq!(read_s33(&mut c), Ok(0xFFFF_FFFF));
    let bytes = [0xFF, 0xFF, 0xFF, 0xFF, 0x1F];
    let mut c = Cursor::new(&bytes);
    assert_eq!(read_s33(&mut c), Err(ParseError::Leb128Overflow));
}

#[test]
fn empty_module_decodes() {
    let m = decode_module(&[0x00, 0x61, 0x73, 0x6D, 0x01, 0x00, 0x00, 0x00]).unwrap();
    assert_eq!(m.types.function_types.len(), 0);
    assert_eq!(m.code.code.len(), 0);
}

#[test]
fn bad_header_and_version() {
    assert_eq!(
        decode_module(&[0x00, 0x61, 0x73, 0x6E, 0x01, 0x00, 0x00, 0x00]),
        Err(ParseError::InvalidHeader)
    );
    assert_eq!(
        decode_module(&[0x00, 0x61, 0x73, 0x6D, 0x02, 0x00, 0x00, 0x00]),
        Err(ParseError::InvalidVersion)
    );
    assert_eq!(decode_module(&[0x00, 0x61, 0x73]), Err(ParseError::UnexpectedEof));
}

#[test]
fn start_section_is_unsupported() {
    let bytes = [0x00, 0x61, 0x73, 0x6D, 0x01, 0x00, 0x00, 0x00, 0x08, 0x01, 0x00];
    assert_eq!(decode_module(&bytes), Err(ParseError::UnimplementedSection(8)));
}

#[test]
fn data_count_section_is_unsupported() {
    let bytes = [0x00, 0x61, 0x73, 0x6D, 0x01, 0x00, 0x00, 0x00, 0x0C, 0x01, 0x00];
    assert_eq!(decode_module(&bytes), Err(ParseError::UnimplementedSection(12)));
}

#[test]
fn unknown_section_is_an_error() {
    let bytes = [0x00, 0x61, 0x73, 0x6D, 0x01, 0x00, 0x00, 0x00, 0x0D, 0x00];
    assert_eq!(decode_module(&bytes), Err(ParseError::UnknownSection(13)));
}
