use legion_prof::decode::{parse_array, parse_point, parse_proc_id, parse_task_id};
use legion_prof::prims::{
    parse_bool, parse_i32, parse_i64, parse_string, parse_u32, parse_u64, parse_u8, parse_words,
};
use legion_prof::{is_nul, Array, FormatError, MemID, NodeID, Point, ProcID, TaskID};

fn words(values: &[u64]) -> Vec<u8> {
    let mut bytes = Vec::new();
    for v in values {
        bytes.extend_from_slice(&v.to_le_bytes());
    }
    bytes
}

#[test]
fn u8_reads_one_byte() {
    assert_eq!(parse_u8(&[7, 9], 1), Ok((9, 2)));
    assert_eq!(parse_u8(&[7, 9], 2), Err(FormatError::ShortRead));
}

#[test]
fn u32_is_little_endian() {
    assert_eq!(parse_u32(&[0x78, 0x56, 0x34, 0x12, 0xff], 0), Ok((0x1234_5678, 4)));
    assert_eq!(parse_u32(&[0, 0x78, 0x56, 0x34, 0x12], 1), Ok((0x1234_5678, 5)));
}

#[test]
fn u32_needs_four_bytes() {
    assert_eq!(parse_u32(&[1, 2, 3], 0), Err(FormatError::ShortRead));
    assert_eq!(parse_u32(&[1, 2, 3, 4], 1), Err(FormatError::ShortRead));
    assert_eq!(parse_u32(&[], 0), Err(FormatError::ShortRead));
}

#[test]
fn u64_is_little_endian() {
    let bytes = [0xef, 0xcd, 0xab, 0x89, 0x67, 0x45, 0x23, 0x01];
    assert_eq!(parse_u64(&bytes, 0), Ok((0x0123_4567_89ab_cdef, 8)));
    assert_eq!(parse_u64(&bytes[..7], 0), Err(FormatError::ShortRead));
    assert_eq!(parse_u64(&[0xff; 8], 0), Ok((u64::MAX, 8)));
}

#[test]
fn i32_is_twos_complement() {
    assert_eq!(parse_i32(&[0xff, 0xff, 0xff, 0xff], 0), Ok((-1, 4)));
    assert_eq!(parse_i32(&[0x00, 0x00, 0x00, 0x80], 0), Ok((i32::MIN, 4)));
    assert_eq!(parse_i32(&[0xff, 0xff, 0xff, 0x7f], 0), Ok((i32::MAX, 4)));
    assert_eq!(parse_i32(&[3, 0, 0, 0], 0), Ok((3, 4)));
    assert_eq!(parse_i32(&[3, 0, 0], 0), Err(FormatError::ShortRead));
}

#[test]
fn i64_is_twos_complement() {
    assert_eq!(parse_i64(&[0xfe, 0xff, 0xff, 0xff, 0xff, 0xff, 0xff, 0xff], 0), Ok((-2, 8)));
    assert_eq!(parse_i64(&1234i64.to_le_bytes(), 0), Ok((1234, 8)));
    assert_eq!(parse_i64(&i64::MIN.to_le_bytes(), 0), Ok((i64::MIN, 8)));
    assert_eq!(parse_i64(&[0; 7], 0), Err(FormatError::ShortRead));
}

#[test]
fn bool_is_nonzero_byte() {
    assert_eq!(parse_bool(&[0], 0), Ok((false, 1)));
    assert_eq!(parse_bool(&[1], 0), Ok((true, 1)));
    assert_eq!(parse_bool(&[0x80], 0), Ok((true, 1)));
    assert_eq!(parse_bool(&[], 0), Err(FormatError::ShortRead));
}

#[test]
fn nul_is_zero_only() {
    assert!(is_nul(0));
    assert!(!is_nul(1));
    assert!(!is_nul(b'0'));
}

#[test]
fn string_decodes_up_to_terminator() {
    assert_eq!(parse_string(b"abc\0", 0), Ok((String::from("abc"), 4)));
    assert_eq!(parse_string(b"abc\0def\0", 4), Ok((String::from("def"), 8)));
    assert_eq!(parse_string(b"\0rest", 0), Ok((String::new(), 1)));
}

#[test]
fn string_keeps_multibyte_characters() {
    let bytes = "h\u{e9}llo \u{4e16}\0".as_bytes();
    assert_eq!(parse_string(bytes, 0), Ok((String::from("h\u{e9}llo \u{4e16}"), bytes.len())));
}

#[test]
fn string_rejects_bytes_that_are_not_utf8() {
    assert_eq!(parse_string(&[b'a', 0xff, b'b', 0], 0), Err(FormatError::BadUtf8));
    assert_eq!(parse_string(&[0xc3, 0], 0), Err(FormatError::BadUtf8));
    assert_eq!(parse_string(&[0xff], 0), Err(FormatError::BadUtf8));
}

#[test]
fn string_needs_its_terminator() {
    assert_eq!(parse_string(b"abc", 0), Err(FormatError::ShortRead));
    assert_eq!(parse_string(b"", 0), Err(FormatError::ShortRead));
}

#[test]
fn words_read_in_order() {
    let bytes = words(&[5, 6, 7]);
    assert_eq!(parse_words(&bytes, 0, 3), Ok((vec![5, 6, 7], 24)));
    assert_eq!(parse_words(&bytes, 8, 2), Ok((vec![6, 7], 24)));
    assert_eq!(parse_words(&bytes, 8, 3), Err(FormatError::ShortRead));
    assert_eq!(parse_words(&bytes, 24, 0), Ok((vec![], 24)));
    assert_eq!(parse_words(&bytes, 0, u64::MAX), Err(FormatError::ShortRead));
}

#[test]
fn array_takes_two_values_per_dimension() {
    let mut bytes = words(&[1, 2, 3, 4, 5, 6]);
    bytes.push(0xaa);
    assert_eq!(parse_array(&bytes, 0, 3), Ok((Array(vec![1, 2, 3, 4, 5, 6]), 48)));
    assert_eq!(parse_array(&bytes, 0, 0), Ok((Array(vec![]), 0)));
    assert_eq!(parse_array(&bytes, 16, 2), Ok((Array(vec![3, 4, 5, 6]), 48)));
    assert_eq!(parse_array(&bytes, 8, 3), Err(FormatError::ShortRead));
}

#[test]
fn point_takes_one_value_per_dimension() {
    let mut bytes = words(&[1, 2, 3]);
    bytes.push(0xaa);
    assert_eq!(parse_point(&bytes, 0, 3), Ok((Point(vec![1, 2, 3]), 24)));
    assert_eq!(parse_point(&bytes, 0, 0), Ok((Point(vec![]), 0)));
    assert_eq!(parse_point(&bytes, 0, 4), Err(FormatError::ShortRead));
}

#[test]
fn composites_need_a_known_dimensionality() {
    let bytes = words(&[1, 2, 3, 4]);
    assert_eq!(parse_array(&bytes, 0, -1), Err(FormatError::DimensionUnknown));
    assert_eq!(parse_point(&bytes, 0, -1), Err(FormatError::DimensionUnknown));
    assert_eq!(parse_point(&bytes, 0, i32::MIN), Err(FormatError::DimensionUnknown));
    assert_eq!(parse_array(&bytes, 0, i32::MAX), Err(FormatError::ShortRead));
}

#[test]
fn identifiers_wrap_the_raw_value() {
    assert_eq!(parse_proc_id(&words(&[0x1d00_0000_0000_0003]), 0), Ok((ProcID(0x1d00_0000_0000_0003), 8)));
    assert_eq!(parse_task_id(&[9, 0, 0, 0], 0), Ok((TaskID(9), 4)));
    assert_eq!(parse_task_id(&[9, 0, 0], 0), Err(FormatError::ShortRead));
}

#[test]
fn owner_node_is_bits_40_to_55() {
    assert_eq!(ProcID(0x1d00_0200_0000_0003).node_id(), NodeID(2));
    assert_eq!(MemID(0x1e00_0000_0000_0001).node_id(), NodeID(0));
    assert_eq!(MemID(0x1eff_ff00_0000_0001).node_id(), NodeID(0xffff));
    assert_eq!(ProcID(u64::MAX).node_id(), NodeID(0xffff));
    assert_eq!(ProcID((7u64 << 40) | 0xff_ffff_ffff).node_id(), NodeID(7));
}

#[test]
fn error_messages_differ() {
    assert_eq!(FormatError::ShortRead.message(), "input ends inside a field");
    assert_eq!(FormatError::TrailingBytes.message(), "bytes remain after the last record");
    assert_ne!(FormatError::BadGrammar.message(), FormatError::BadVersion.message());
}

#[test]
fn position_beyond_the_input_is_a_short_read() {
    assert_eq!(parse_u8(&[1, 2], 5), Err(FormatError::ShortRead));
    assert_eq!(parse_u32(&[1, 2, 3, 4], 9), Err(FormatError::ShortRead));
    assert_eq!(parse_u64(&[0; 8], usize::MAX), Err(FormatError::ShortRead));
    assert_eq!(parse_i32(&[], 1), Err(FormatError::ShortRead));
    assert_eq!(parse_i64(&[0; 8], 9), Err(FormatError::ShortRead));
    assert_eq!(parse_bool(&[1], 2), Err(FormatError::ShortRead));
    assert_eq!(parse_string(b"a\0", 3), Err(FormatError::ShortRead));
    assert_eq!(parse_words(&[0; 8], 9, 0), Err(FormatError::ShortRead));
    assert_eq!(parse_point(&[0; 8], 9, 0), Err(FormatError::ShortRead));
    assert_eq!(parse_array(&[0; 8], 9, -1), Err(FormatError::DimensionUnknown));
    assert_eq!(parse_proc_id(&[0; 8], 1), Err(FormatError::ShortRead));
}
