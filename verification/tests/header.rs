use legion_prof::header::{
    expect, newline, parse_field_format, parse_fields, parse_filetype, parse_header,
    parse_record_format, parse_text_i32, parse_text_name, parse_text_type, parse_text_u32,
    parse_value_format, scan, CharClass,
};
use legion_prof::{
    convert_value_format, is_alphanumeric_space, is_alphanumeric_underscore, FieldFormat,
    FormatError, RecordFormat, ValueFormat,
};

fn field(name: &str, value: ValueFormat, size: i32) -> FieldFormat {
    FieldFormat { name: String::from(name), value, size }
}

#[test]
fn vocabulary_of_type_tokens() {
    let table = [
        ("array", ValueFormat::Array),
        ("bool", ValueFormat::Bool),
        ("DepPartOpKind", ValueFormat::DepPartOpKind),
        ("IDType", ValueFormat::IDType),
        ("InstID", ValueFormat::InstID),
        ("MappingCallKind", ValueFormat::MappingCallKind),
        ("maxdim", ValueFormat::MaxDim),
        ("MemID", ValueFormat::MemID),
        ("MemKind", ValueFormat::MemKind),
        ("MessageKind", ValueFormat::MessageKind),
        ("point", ValueFormat::Point),
        ("ProcID", ValueFormat::ProcID),
        ("ProcKind", ValueFormat::ProcKind),
        ("RuntimeCallKind", ValueFormat::RuntimeCallKind),
        ("string", ValueFormat::String),
        ("TaskID", ValueFormat::TaskID),
        ("timestamp_t", ValueFormat::Timestamp),
        ("unsigned", ValueFormat::U32),
        ("unsigned long long", ValueFormat::U64),
        ("long long", ValueFormat::I64),
        ("UniqueID", ValueFormat::UniqueID),
        ("VariantID", ValueFormat::VariantID),
    ];
    for (token, value) in table {
        assert_eq!(convert_value_format(String::from(token)), Some(value));
    }
}

#[test]
fn type_tokens_are_matched_exactly() {
    assert_eq!(convert_value_format(String::from("Array")), None);
    assert_eq!(convert_value_format(String::from("unsigned long")), None);
    assert_eq!(convert_value_format(String::from("unsigned  long long")), None);
    assert_eq!(convert_value_format(String::from("timestamp")), None);
    assert_eq!(convert_value_format(String::from("")), None);
    assert_eq!(convert_value_format(String::from("bool ")), None);
}

#[test]
fn character_classes() {
    for chr in 0..=255u8 {
        let alnum = chr.is_ascii_alphanumeric();
        assert_eq!(is_alphanumeric_underscore(chr), alnum || chr == b'_');
        assert_eq!(is_alphanumeric_space(chr), alnum || chr == b'_' || chr == b' ');
        assert_eq!(CharClass::Digit.accepts(chr), chr.is_ascii_digit());
        assert_eq!(CharClass::Name.accepts(chr), alnum || chr == b'_');
        assert_eq!(CharClass::Type.accepts(chr), alnum || chr == b'_' || chr == b' ');
    }
}

#[test]
fn scan_stops_at_first_byte_outside_class() {
    assert_eq!(scan(b"123abc", 0, CharClass::Digit), 3);
    assert_eq!(scan(b"123abc", 3, CharClass::Digit), 3);
    assert_eq!(scan(b"ab_1 c:", 0, CharClass::Name), 4);
    assert_eq!(scan(b"ab_1 c:", 0, CharClass::Type), 6);
    assert_eq!(scan(b"abc", 0, CharClass::Name), 3);
    assert_eq!(scan(b"abc", 3, CharClass::Name), 3);
}

#[test]
fn expect_matches_literal_bytes() {
    assert_eq!(expect(b"ab, cd", 2, ", "), Ok(((), 4)));
    assert_eq!(expect(b"ab, cd", 2, ","), Ok(((), 3)));
    assert_eq!(expect(b"ab, cd", 2, ",c"), Err(FormatError::BadGrammar));
    assert_eq!(expect(b"ab,", 2, ", "), Err(FormatError::BadGrammar));
    assert_eq!(newline(b"a\n", 1), Ok(((), 2)));
    assert_eq!(newline(b"a\n", 0), Err(FormatError::BadGrammar));
    assert_eq!(newline(b"a\n", 2), Err(FormatError::BadGrammar));
}

#[test]
fn unsigned_numbers() {
    assert_eq!(parse_text_u32(b"0,", 0), Ok((0, 1)));
    assert_eq!(parse_text_u32(b"42}", 0), Ok((42, 2)));
    assert_eq!(parse_text_u32(b"007", 0), Ok((7, 3)));
    assert_eq!(parse_text_u32(b"4294967295", 0), Ok((u32::MAX, 10)));
    assert_eq!(parse_text_u32(b"00000000004294967295", 0), Ok((u32::MAX, 20)));
}

#[test]
fn unsigned_numbers_out_of_range() {
    assert_eq!(parse_text_u32(b"4294967296", 0), Err(FormatError::NumberOutOfRange));
    assert_eq!(parse_text_u32(b"99999999999999999999999999", 0), Err(FormatError::NumberOutOfRange));
}

#[test]
fn unsigned_numbers_need_a_digit() {
    assert_eq!(parse_text_u32(b"", 0), Err(FormatError::BadGrammar));
    assert_eq!(parse_text_u32(b"-1", 0), Err(FormatError::BadGrammar));
    assert_eq!(parse_text_u32(b"x1", 0), Err(FormatError::BadGrammar));
}

#[test]
fn signed_numbers() {
    assert_eq!(parse_text_i32(b"8}", 0), Ok((8, 1)));
    assert_eq!(parse_text_i32(b"-1,", 0), Ok((-1, 2)));
    assert_eq!(parse_text_i32(b"-0", 0), Ok((0, 2)));
    assert_eq!(parse_text_i32(b"2147483647", 0), Ok((i32::MAX, 10)));
    assert_eq!(parse_text_i32(b"-2147483647", 0), Ok((-i32::MAX, 11)));
    assert_eq!(parse_text_i32(b"2147483648", 0), Err(FormatError::NumberOutOfRange));
    assert_eq!(parse_text_i32(b"-2147483648", 0), Err(FormatError::NumberOutOfRange));
    assert_eq!(parse_text_i32(b"-", 0), Err(FormatError::BadGrammar));
    assert_eq!(parse_text_i32(b"--1", 0), Err(FormatError::BadGrammar));
    assert_eq!(parse_text_i32(b"+1", 0), Err(FormatError::BadGrammar));
}

#[test]
fn names_and_type_words() {
    assert_eq!(parse_text_name(b"Task_Info2 {", 0), Ok((String::from("Task_Info2"), 10)));
    assert_eq!(parse_text_name(b" x", 0), Err(FormatError::BadGrammar));
    assert_eq!(parse_text_type(b"unsigned long long:8", 0), Ok((String::from("unsigned long long"), 18)));
    assert_eq!(parse_text_type(b":8", 0), Err(FormatError::BadGrammar));
}

#[test]
fn file_type_line() {
    assert_eq!(parse_filetype(b"FileType: BinaryLegionProf v: 1.0\n", 0), Ok(((1, 0), 34)));
    assert_eq!(parse_filetype(b"FileType: BinaryLegionProf v: 12.345\nX", 0), Ok(((12, 345), 37)));
    assert_eq!(parse_filetype(b"FileType: BinaryLegionProf v: 1.0", 0), Err(FormatError::BadGrammar));
    assert_eq!(parse_filetype(b"FileType: BinaryLegionProf v:1.0\n", 0), Err(FormatError::BadGrammar));
    assert_eq!(parse_filetype(b"FileType: binarylegionprof v: 1.0\n", 0), Err(FormatError::BadGrammar));
    assert_eq!(parse_filetype(b"FileType: BinaryLegionProf v: 1\n", 0), Err(FormatError::BadGrammar));
    assert_eq!(parse_filetype(b"", 0), Err(FormatError::BadGrammar));
}

#[test]
fn value_format_of_a_field() {
    assert_eq!(parse_value_format(b"timestamp_t:8", 0), Ok((ValueFormat::Timestamp, 11)));
    assert_eq!(parse_value_format(b"long long:8", 0), Ok((ValueFormat::I64, 9)));
    assert_eq!(parse_value_format(b"short:2", 0), Err(FormatError::UnknownTypeToken));
    assert_eq!(parse_value_format(b":2", 0), Err(FormatError::BadGrammar));
}

#[test]
fn field_declaration() {
    assert_eq!(
        parse_field_format(b"op_id:UniqueID:8, x", 0),
        Ok((field("op_id", ValueFormat::UniqueID, 8), 16))
    );
    assert_eq!(
        parse_field_format(b"name:string:-1}", 0),
        Ok((field("name", ValueFormat::String, -1), 14))
    );
    assert_eq!(parse_field_format(b"name:strings:-1}", 0), Err(FormatError::UnknownTypeToken));
    assert_eq!(parse_field_format(b"name string:-1}", 0), Err(FormatError::BadGrammar));
    assert_eq!(parse_field_format(b"name:string:}", 0), Err(FormatError::BadGrammar));
    assert_eq!(parse_field_format(b"name:string-1}", 0), Err(FormatError::BadGrammar));
}

#[test]
fn field_list_goes_on_while_separator_follows() {
    assert_eq!(
        parse_fields(b"a:bool:1, b:unsigned:4}", 0),
        Ok((vec![field("a", ValueFormat::Bool, 1), field("b", ValueFormat::U32, 4)], 22))
    );
    assert_eq!(parse_fields(b"a:bool:1}", 0), Ok((vec![field("a", ValueFormat::Bool, 1)], 8)));
    assert_eq!(parse_fields(b"a:bool:1,b:bool:1}", 0), Ok((vec![field("a", ValueFormat::Bool, 1)], 8)));
    assert_eq!(parse_fields(b"a:bool:1, }", 0), Err(FormatError::BadGrammar));
    assert_eq!(parse_fields(b"a:bool:1, b:byte:1}", 0), Err(FormatError::UnknownTypeToken));
}

#[test]
fn record_format_line() {
    let line = b"MemDesc {id:9, mem_id:MemID:8, kind:MemKind:4, capacity:unsigned long long:8}\n";
    let expected = RecordFormat {
        id: 9,
        name: String::from("MemDesc"),
        fields: vec![
            field("mem_id", ValueFormat::MemID, 8),
            field("kind", ValueFormat::MemKind, 4),
            field("capacity", ValueFormat::U64, 8),
        ],
    };
    assert_eq!(parse_record_format(line, 0), Ok((expected, line.len())));
}

#[test]
fn record_format_line_errors() {
    assert_eq!(parse_record_format(b"A {id:1}\n", 0), Err(FormatError::BadGrammar));
    assert_eq!(parse_record_format(b"A {id:1, a:bool:1}", 0), Err(FormatError::BadGrammar));
    assert_eq!(parse_record_format(b"A {id:1, a:bool:1\n", 0), Err(FormatError::BadGrammar));
    assert_eq!(parse_record_format(b"A{id:1, a:bool:1}\n", 0), Err(FormatError::BadGrammar));
    assert_eq!(parse_record_format(b"A {id:-1, a:bool:1}\n", 0), Err(FormatError::BadGrammar));
    assert_eq!(parse_record_format(b"A {id:1, a:bool:1,b:bool:1}\n", 0), Err(FormatError::BadGrammar));
    assert_eq!(parse_record_format(b"A {id:1, a:void:1}\n", 0), Err(FormatError::UnknownTypeToken));
    assert_eq!(
        parse_record_format(b"A {id:4294967296, a:bool:1}\n", 0),
        Err(FormatError::NumberOutOfRange)
    );
    assert_eq!(parse_record_format(b"\n", 0), Err(FormatError::BadGrammar));
}

#[test]
fn header_gives_formats_in_declaration_order() {
    let text = b"FileType: BinaryLegionProf v: 1.0\n\
        ZeroTime {id:3, zero_time:long long:8}\n\
        MaxDimDesc {id:1, max_dim:maxdim:4}\n\
        OpDesc {id:2, kind:unsigned:4, name:string:-1}\n\
        \nrest";
    let (formats, end) = parse_header(text).unwrap();
    assert_eq!(end, text.len() - 4);
    assert_eq!(
        formats,
        vec![
            RecordFormat {
                id: 3,
                name: String::from("ZeroTime"),
                fields: vec![field("zero_time", ValueFormat::I64, 8)],
            },
            RecordFormat {
                id: 1,
                name: String::from("MaxDimDesc"),
                fields: vec![field("max_dim", ValueFormat::MaxDim, 4)],
            },
            RecordFormat {
                id: 2,
                name: String::from("OpDesc"),
                fields: vec![
                    field("kind", ValueFormat::U32, 4),
                    field("name", ValueFormat::String, -1),
                ],
            },
        ]
    );
}

#[test]
fn header_with_many_formats_keeps_each() {
    let mut text = String::from("FileType: BinaryLegionProf v: 1.0\n");
    for i in 0..100u32 {
        text.push_str(&format!("Kind_{} {{id:{}, a:unsigned:4, b:bool:1}}\n", i, 1000 - i));
    }
    text.push('\n');
    let (formats, end) = parse_header(text.as_bytes()).unwrap();
    assert_eq!(end, text.len());
    assert_eq!(formats.len(), 100);
    for (i, format) in formats.iter().enumerate() {
        assert_eq!(format.name, format!("Kind_{}", i));
        assert_eq!(format.id, 1000 - i as u32);
        assert_eq!(
            format.fields,
            vec![field("a", ValueFormat::U32, 4), field("b", ValueFormat::Bool, 1)]
        );
    }
}

#[test]
fn header_accepts_version_one_zero_only() {
    let body = "ZeroTime {id:0, zero_time:long long:8}\n\n";
    let ok = format!("FileType: BinaryLegionProf v: 1.0\n{}", body);
    assert!(parse_header(ok.as_bytes()).is_ok());
    for version in ["1.1", "0.0", "2.0", "0.1", "10.0", "1.00000000001", "11.0"] {
        let text = format!("FileType: BinaryLegionProf v: {}\n{}", version, body);
        assert_eq!(parse_header(text.as_bytes()), Err(FormatError::BadVersion));
    }
    let padded = format!("FileType: BinaryLegionProf v: 01.00\n{}", body);
    assert!(parse_header(padded.as_bytes()).is_ok());
}

#[test]
fn header_rejects_unknown_type_token() {
    let text = b"FileType: BinaryLegionProf v: 1.0\n\
        ZeroTime {id:0, zero_time:long long:8}\n\
        Other {id:1, a:unsigned:4, b:short:2}\n\n";
    assert_eq!(parse_header(text), Err(FormatError::UnknownTypeToken));
    let first = b"FileType: BinaryLegionProf v: 1.0\nZeroTime {id:0, zero_time:int64:8}\n\n";
    assert_eq!(parse_header(first), Err(FormatError::UnknownTypeToken));
}

#[test]
fn header_needs_a_format_and_an_empty_line() {
    assert_eq!(parse_header(b"FileType: BinaryLegionProf v: 1.0\n\n"), Err(FormatError::BadGrammar));
    assert_eq!(
        parse_header(b"FileType: BinaryLegionProf v: 1.0\nZeroTime {id:0, zero_time:long long:8}\n"),
        Err(FormatError::BadGrammar)
    );
    assert_eq!(parse_header(b""), Err(FormatError::BadGrammar));
}

#[test]
fn position_beyond_the_text_matches_nothing() {
    assert_eq!(scan(b"ab", 9, CharClass::Name), 9);
    assert_eq!(expect(b"a", 4, "a"), Err(FormatError::BadGrammar));
    assert_eq!(expect(b"a", 1, ""), Ok(((), 1)));
    assert_eq!(parse_text_u32(b"12", 3), Err(FormatError::BadGrammar));
    assert_eq!(parse_text_i32(b"12", 3), Err(FormatError::BadGrammar));
    assert_eq!(parse_text_name(b"ab", 3), Err(FormatError::BadGrammar));
    assert_eq!(parse_fields(b"a:bool:1}", 10), Err(FormatError::BadGrammar));
    assert_eq!(parse_record_format(b"A {id:1, a:bool:1}\n", 40), Err(FormatError::BadGrammar));
    assert_eq!(parse_filetype(b"FileType: BinaryLegionProf v: 1.0\n", 1), Err(FormatError::BadGrammar));
}
