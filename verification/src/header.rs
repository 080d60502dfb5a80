//! The textual header of a log: the file type line and the declarations of
//! the record formats, one per line, ended by an empty line.

use crate::error::FormatError;
use crate::prims::{lemma_len_fits, same, same_view, string_from_utf8, Parsed};
use vstd::prelude::*;
use vstd::string::*;
use vstd::utf8::{
    decode_utf8, encode_utf8, is_leading_byte_width_1, partial_valid_utf8,
    partial_valid_utf8_extend_ascii_block, valid_utf8,
};

verus! {

/// The kinds of value that a field declaration can name.
#[derive(Debug, Copy, Clone, PartialEq, Eq)]
pub enum ValueFormat {
    Array,
    Bool,
    DepPartOpKind,
    IDType,
    InstID,
    MappingCallKind,
    MaxDim,
    MemID,
    MemKind,
    MessageKind,
    Point,
    ProcID,
    ProcKind,
    RuntimeCallKind,
    String,
    TaskID,
    Timestamp,
    U32,
    U64,
    I64,
    UniqueID,
    VariantID,
}

/// One declared field of a record format.
#[derive(Debug, Clone, PartialEq, Eq)]
pub struct FieldFormat {
    pub name: String,
    pub value: ValueFormat,
    pub size: i32,
}

/// One declared record format: the tag that stands for the kind in this
/// file, the kind's name and its fields.
#[derive(Debug, Clone, PartialEq, Eq)]
pub struct RecordFormat {
    pub id: u32,
    pub name: String,
    pub fields: Vec<FieldFormat>,
}

/// What a field declaration holds, the name as its characters.
pub struct FieldFormatView {
    pub name: Seq<char>,
    pub value: ValueFormat,
    pub size: i32,
}

/// What a record format holds, the name as its characters.
pub struct RecordFormatView {
    pub id: u32,
    pub name: Seq<char>,
    pub fields: Seq<FieldFormatView>,
}

impl View for FieldFormat {
    type V = FieldFormatView;

    open spec fn view(&self) -> FieldFormatView {
        FieldFormatView { name: self.name@, value: self.value, size: self.size }
    }
}

/// The views of the items of a sequence, in order.
pub open spec fn views<T: View>(items: Seq<T>) -> Seq<T::V> {
    Seq::new(items.len(), |i: int| items[i]@)
}

impl View for RecordFormat {
    type V = RecordFormatView;

    open spec fn view(&self) -> RecordFormatView {
        RecordFormatView { id: self.id, name: self.name@, fields: views(self.fields@) }
    }
}

/// The value kind that a type token of the header stands for.
pub open spec fn token_format(token: Seq<char>) -> Option<ValueFormat> {
    if token == "array"@ {
        Some(ValueFormat::Array)
    } else if token == "bool"@ {
        Some(ValueFormat::Bool)
    } else if token == "DepPartOpKind"@ {
        Some(ValueFormat::DepPartOpKind)
    } else if token == "IDType"@ {
        Some(ValueFormat::IDType)
    } else if token == "InstID"@ {
        Some(ValueFormat::InstID)
    } else if token == "MappingCallKind"@ {
        Some(ValueFormat::MappingCallKind)
    } else if token == "maxdim"@ {
        Some(ValueFormat::MaxDim)
    } else if token == "MemID"@ {
        Some(ValueFormat::MemID)
    } else if token == "MemKind"@ {
        Some(ValueFormat::MemKind)
    } else if token == "MessageKind"@ {
        Some(ValueFormat::MessageKind)
    } else if token == "point"@ {
        Some(ValueFormat::Point)
    } else if token == "ProcID"@ {
        Some(ValueFormat::ProcID)
    } else if token == "ProcKind"@ {
        Some(ValueFormat::ProcKind)
    } else if token == "RuntimeCallKind"@ {
        Some(ValueFormat::RuntimeCallKind)
    } else if token == "string"@ {
        Some(ValueFormat::String)
    } else if token == "TaskID"@ {
        Some(ValueFormat::TaskID)
    } else if token == "timestamp_t"@ {
        Some(ValueFormat::Timestamp)
    } else if token == "unsigned"@ {
        Some(ValueFormat::U32)
    } else if token == "unsigned long long"@ {
        Some(ValueFormat::U64)
    } else if token == "long long"@ {
        Some(ValueFormat::I64)
    } else if token == "UniqueID"@ {
        Some(ValueFormat::UniqueID)
    } else if token == "VariantID"@ {
        Some(ValueFormat::VariantID)
    } else {
        None
    }
}

/// True when the text is exactly the given literal.
pub fn text_is(text: &String, literal: &str) -> (res: bool)
    ensures
        res == (text@ == literal@),
{
    let other = String::from_str(literal);
    *text == other
}

/// Looks a type token up in the vocabulary of the header.
pub fn convert_value_format(name: String) -> (res: Option<ValueFormat>)
    ensures
        res == token_format(name@),
{
    if text_is(&name, "array") {
        Some(ValueFormat::Array)
    } else if text_is(&name, "bool") {
        Some(ValueFormat::Bool)
    } else if text_is(&name, "DepPartOpKind") {
        Some(ValueFormat::DepPartOpKind)
    } else if text_is(&name, "IDType") {
        Some(ValueFormat::IDType)
    } else if text_is(&name, "InstID") {
        Some(ValueFormat::InstID)
    } else if text_is(&name, "MappingCallKind") {
        Some(ValueFormat::MappingCallKind)
    } else if text_is(&name, "maxdim") {
        Some(ValueFormat::MaxDim)
    } else if text_is(&name, "MemID") {
        Some(ValueFormat::MemID)
    } else if text_is(&name, "MemKind") {
        Some(ValueFormat::MemKind)
    } else if text_is(&name, "MessageKind") {
        Some(ValueFormat::MessageKind)
    } else if text_is(&name, "point") {
        Some(ValueFormat::Point)
    } else if text_is(&name, "ProcID") {
        Some(ValueFormat::ProcID)
    } else if text_is(&name, "ProcKind") {
        Some(ValueFormat::ProcKind)
    } else if text_is(&name, "RuntimeCallKind") {
        Some(ValueFormat::RuntimeCallKind)
    } else if text_is(&name, "string") {
        Some(ValueFormat::String)
    } else if text_is(&name, "TaskID") {
        Some(ValueFormat::TaskID)
    } else if text_is(&name, "timestamp_t") {
        Some(ValueFormat::Timestamp)
    } else if text_is(&name, "unsigned") {
        Some(ValueFormat::U32)
    } else if text_is(&name, "unsigned long long") {
        Some(ValueFormat::U64)
    } else if text_is(&name, "long long") {
        Some(ValueFormat::I64)
    } else if text_is(&name, "UniqueID") {
        Some(ValueFormat::UniqueID)
    } else if text_is(&name, "VariantID") {
        Some(ValueFormat::VariantID)
    } else {
        None
    }
}

/// `nom::character::is_digit`: true for the ASCII digits.
pub assume_specification[ nom::character::is_digit ](chr: u8) -> (res: bool)
    ensures
        res == (0x30 <= chr <= 0x39),
;

/// `nom::character::is_alphanumeric`: true for the ASCII letters and digits.
pub assume_specification[ nom::character::is_alphanumeric ](chr: u8) -> (res: bool)
    ensures
        res == ((0x41 <= chr <= 0x5a) || (0x61 <= chr <= 0x7a) || (0x30 <= chr <= 0x39)),
;

/// The ASCII digits.
pub open spec fn digit_char(chr: u8) -> bool {
    0x30 <= chr <= 0x39
}

/// The ASCII letters and digits, and the underscore.
pub open spec fn name_char(chr: u8) -> bool {
    (0x41 <= chr <= 0x5a) || (0x61 <= chr <= 0x7a) || digit_char(chr) || chr == 95
}

/// The characters of a name, and the space.
pub open spec fn type_char(chr: u8) -> bool {
    name_char(chr) || chr == 32
}

/// True for the characters of a name: ASCII letters, digits and the underscore.
pub fn is_alphanumeric_underscore(chr: u8) -> (res: bool)
    ensures
        res == name_char(chr),
{
    nom::character::is_alphanumeric(chr) || chr == 95
}

/// True for the characters of a type token: those of a name, and the space.
pub fn is_alphanumeric_space(chr: u8) -> (res: bool)
    ensures
        res == type_char(chr),
{
    is_alphanumeric_underscore(chr) || chr == 32
}

/// The classes of character that the words of the header are made of.
#[derive(Debug, Clone, Copy, PartialEq, Eq)]
pub enum CharClass {
    Digit,
    Name,
    Type,
}

impl CharClass {
    /// True when the byte belongs to the class.
    pub open spec fn holds(self, chr: u8) -> bool {
        match self {
            CharClass::Digit => digit_char(chr),
            CharClass::Name => name_char(chr),
            CharClass::Type => type_char(chr),
        }
    }

    /// True when the byte belongs to the class.
    pub fn accepts(self, chr: u8) -> (res: bool)
        ensures
            res == self.holds(chr),
    {
        match self {
            CharClass::Digit => nom::character::is_digit(chr),
            CharClass::Name => is_alphanumeric_underscore(chr),
            CharClass::Type => is_alphanumeric_space(chr),
        }
    }
}

/// Where the longest run of bytes of the class that starts at `p` ends.
pub open spec fn span_end(s: Seq<u8>, p: int, class: CharClass) -> int
    decreases s.len() - p,
{
    if 0 <= p < s.len() && class.holds(s[p]) {
        span_end(s, p + 1, class)
    } else {
        p
    }
}

/// A run that starts inside the input ends inside it, holds bytes of its
/// class only, and is not followed by another byte of the class.
pub proof fn lemma_span(s: Seq<u8>, p: int, class: CharClass)
    ensures
        p <= span_end(s, p, class),
        p <= s.len() ==> span_end(s, p, class) <= s.len(),
        forall|i: int| p <= i < span_end(s, p, class) ==> class.holds(s[i]),
        0 <= p && span_end(s, p, class) < s.len() ==> !class.holds(s[span_end(s, p, class)]),
    decreases s.len() - p,
{
    if 0 <= p < s.len() && class.holds(s[p]) {
        lemma_span(s, p + 1, class);
    }
}

/// Finds where the run of bytes of the class that starts at `pos` ends.
pub fn scan(input: &[u8], pos: usize, class: CharClass) -> (end: usize)
    ensures
        end == span_end(input@, pos as int, class),
        pos <= end,
        pos <= input@.len() ==> end <= input@.len(),
{
    let mut end: usize = pos;
    while end < input.len() && class.accepts(input[end])
        invariant
            pos <= end,
            pos <= input@.len() ==> end <= input@.len(),
            span_end(input@, pos as int, class) == span_end(input@, end as int, class),
        decreases input@.len() - end,
    {
        end = end + 1;
    }
    end
}

/// A fixed piece of text at `p`: its UTF-8 bytes must stand there.
pub open spec fn tag_at(s: Seq<u8>, p: int, literal: Seq<char>) -> Parsed<()> {
    let bytes = encode_utf8(literal);
    if p + bytes.len() <= s.len() && s.subrange(p, p + bytes.len()) == bytes {
        Ok(((), p + bytes.len()))
    } else {
        Err(FormatError::BadGrammar)
    }
}

/// Matches a fixed piece of text.
pub fn expect(input: &[u8], pos: usize, literal: &str) -> (res: Result<((), usize), FormatError>)
    ensures
        same(res, tag_at(input@, pos as int, literal@)),
        res matches Ok((_, end)) ==> pos <= end <= input@.len(),
{
    let bytes = literal.as_bytes();
    let n = bytes.len();
    if pos > input.len() || input.len() - pos < n {
        return Err(FormatError::BadGrammar);
    }
    proof {
        lemma_len_fits(input);
    }
    let mut i: usize = 0;
    while i < n
        invariant
            i <= n,
            input@.len() <= usize::MAX,
            n == bytes@.len(),
            pos + n <= input@.len(),
            bytes@ == encode_utf8(literal@),
            forall|j: int| 0 <= j < i ==> input@[pos + j] == bytes@[j],
        decreases n - i,
    {
        if input[pos + i] != bytes[i] {
            assert(input@.subrange(pos as int, pos + n)[i as int] != bytes@[i as int]);
            return Err(FormatError::BadGrammar);
        }
        i = i + 1;
    }
    assert(input@.subrange(pos as int, pos + n) =~= bytes@);
    Ok(((), pos + n))
}

/// Matches the end of a line.
pub fn newline(input: &[u8], pos: usize) -> (res: Result<((), usize), FormatError>)
    ensures
        same(res, tag_at(input@, pos as int, "\n"@)),
        res matches Ok((_, end)) ==> pos <= end <= input@.len(),
{
    expect(input, pos, "\n")
}

/// The value of a digit; zero for any other byte.
pub open spec fn digit_value(chr: u8) -> nat {
    if chr >= 48 {
        (chr - 48) as nat
    } else {
        0
    }
}

/// The number that a run of digits writes in base ten.
pub open spec fn decimal(digits: Seq<u8>) -> nat
    decreases digits.len(),
{
    if digits.len() == 0 {
        0
    } else {
        10 * decimal(digits.drop_last()) + digit_value(digits.last())
    }
}

/// More digits never write a smaller number.
pub proof fn lemma_decimal_prefix(digits: Seq<u8>, k: int)
    requires
        0 <= k <= digits.len(),
    ensures
        decimal(digits.subrange(0, k)) <= decimal(digits),
    decreases digits.len(),
{
    if k < digits.len() {
        assert(digits.drop_last().subrange(0, k) =~= digits.subrange(0, k));
        lemma_decimal_prefix(digits.drop_last(), k);
    } else {
        assert(digits.subrange(0, k) =~= digits);
    }
}

/// A run of one or more digits at `p` whose value is at most `max`.
pub open spec fn number_at(s: Seq<u8>, p: int, max: int) -> Parsed<nat> {
    let end = span_end(s, p, CharClass::Digit);
    let value = decimal(s.subrange(p, end));
    if end == p {
        Err(FormatError::BadGrammar)
    } else if value > max {
        Err(FormatError::NumberOutOfRange)
    } else {
        Ok((value, end))
    }
}

/// Reads a run of digits as a number that is at most `max`.
pub fn parse_number(input: &[u8], pos: usize, max: u32) -> (res: Result<(u32, usize), FormatError>)
    ensures
        match number_at(input@, pos as int, max as int) {
            Ok((value, end)) => res matches Ok((v, q)) && v as nat == value && q as int == end,
            Err(e) => res == Err::<(u32, usize), FormatError>(e),
        },
        res matches Ok((_, end)) ==> pos <= end <= input@.len(),
{
    let end = scan(input, pos, CharClass::Digit);
    if end == pos {
        return Err(FormatError::BadGrammar);
    }
    proof {
        lemma_span(input@, pos as int, CharClass::Digit);
    }
    let ghost digits = input@.subrange(pos as int, end as int);
    let mut value: u64 = 0;
    let mut i: usize = pos;
    while i < end
        invariant
            pos <= i <= end <= input@.len(),
            pos < end,
            end == span_end(input@, pos as int, CharClass::Digit),
            digits == input@.subrange(pos as int, end as int),
            forall|j: int| pos <= j < end ==> digit_char(input@[j]),
            value == decimal(input@.subrange(pos as int, i as int)),
            value <= max,
        decreases end - i,
    {
        let digit: u64 = (input[i] - 48) as u64;
        let next: u64 = value * 10 + digit;
        proof {
            let longer = input@.subrange(pos as int, i + 1);
            assert(longer.drop_last() =~= input@.subrange(pos as int, i as int));
            assert(longer.last() == input@[i as int]);
            assert(next == decimal(longer));
            assert(digits.subrange(0, i + 1 - pos) =~= longer);
            lemma_decimal_prefix(digits, i + 1 - pos);
        }
        if next > max as u64 {
            return Err(FormatError::NumberOutOfRange);
        }
        value = next;
        i = i + 1;
    }
    assert(input@.subrange(pos as int, i as int) =~= digits);
    Ok((value as u32, end))
}

/// An unsigned decimal number.
pub open spec fn text_u32_at(s: Seq<u8>, p: int) -> Parsed<u32> {
    match number_at(s, p, u32::MAX as int) {
        Ok((value, end)) => Ok((value as u32, end)),
        Err(e) => Err(e),
    }
}

/// A decimal number with an optional minus sign in front.
pub open spec fn text_i32_at(s: Seq<u8>, p: int) -> Parsed<i32> {
    let negative = 0 <= p < s.len() && s[p] == 45;
    let start = if negative {
        p + 1
    } else {
        p
    };
    match number_at(s, start, i32::MAX as int) {
        Ok((value, end)) => Ok(
            (
                (if negative {
                    -(value as int)
                } else {
                    value as int
                }) as i32,
                end,
            ),
        ),
        Err(e) => Err(e),
    }
}

/// Reads an unsigned decimal number.
pub fn parse_text_u32(input: &[u8], pos: usize) -> (res: Result<(u32, usize), FormatError>)
    ensures
        same(res, text_u32_at(input@, pos as int)),
        res matches Ok((_, end)) ==> pos <= end <= input@.len(),
{
    parse_number(input, pos, u32::MAX)
}

/// Reads a decimal number with an optional minus sign.
pub fn parse_text_i32(input: &[u8], pos: usize) -> (res: Result<(i32, usize), FormatError>)
    ensures
        same(res, text_i32_at(input@, pos as int)),
        res matches Ok((_, end)) ==> pos <= end <= input@.len(),
{
    let negative = pos < input.len() && input[pos] == 45;
    let start = if negative {
        pos + 1
    } else {
        pos
    };
    let (value, end) = parse_number(input, start, 0x7fff_ffff)?;
    let signed: i32 = value as i32;
    if negative {
        Ok((-signed, end))
    } else {
        Ok((signed, end))
    }
}

/// A word at `p`: one or more bytes of the class, as text.
pub open spec fn word_at(s: Seq<u8>, p: int, class: CharClass) -> Parsed<Seq<char>> {
    let end = span_end(s, p, class);
    if end == p {
        Err(FormatError::BadGrammar)
    } else {
        Ok((decode_utf8(s.subrange(p, end)), end))
    }
}

/// Bytes of the three classes are all below 128, and such bytes are UTF-8.
pub proof fn lemma_word_is_utf8(bytes: Seq<u8>, class: CharClass)
    requires
        forall|i: int| 0 <= i < bytes.len() ==> class.holds(bytes[i]),
    ensures
        valid_utf8(bytes),
{
    assert forall|i: int| 0 <= i < bytes.len() implies #[trigger] is_leading_byte_width_1(
        bytes[i],
    ) by {
        assert(class.holds(bytes[i]));
    }
    assert(bytes.subrange(0, 0) =~= Seq::<u8>::empty());
    assert(partial_valid_utf8(bytes, 0));
    partial_valid_utf8_extend_ascii_block(bytes, 0, bytes.len() as int);
    assert(bytes.subrange(0, bytes.len() as int) =~= bytes);
}

/// Reads a word made of the bytes of the class.
pub fn parse_word(input: &[u8], pos: usize, class: CharClass) -> (res: Result<
    (String, usize),
    FormatError,
>)
    ensures
        same_view(res, word_at(input@, pos as int, class)),
        res matches Ok((_, end)) ==> pos < end <= input@.len(),
{
    let end = scan(input, pos, class);
    if end == pos {
        return Err(FormatError::BadGrammar);
    }
    proof {
        lemma_span(input@, pos as int, class);
        lemma_word_is_utf8(input@.subrange(pos as int, end as int), class);
    }
    match string_from_utf8(vstd::slice::slice_subrange(input, pos, end)) {
        Some(text) => Ok((text, end)),
        None => Err(FormatError::BadUtf8),
    }
}

/// Reads the name of a record format or of a field.
pub fn parse_text_name(input: &[u8], pos: usize) -> (res: Result<(String, usize), FormatError>)
    ensures
        same_view(res, word_at(input@, pos as int, CharClass::Name)),
        res matches Ok((_, end)) ==> pos < end <= input@.len(),
{
    parse_word(input, pos, CharClass::Name)
}

/// Reads a type token, which may hold spaces.
pub fn parse_text_type(input: &[u8], pos: usize) -> (res: Result<(String, usize), FormatError>)
    ensures
        same_view(res, word_at(input@, pos as int, CharClass::Type)),
        res matches Ok((_, end)) ==> pos < end <= input@.len(),
{
    parse_word(input, pos, CharClass::Type)
}

/// The first line of a log: the file type and the version as a pair.
pub open spec fn filetype_at(s: Seq<u8>, p: int) -> Parsed<(u32, u32)> {
    match tag_at(s, p, "FileType: BinaryLegionProf v: "@) {
        Err(e) => Err(e),
        Ok((_, q1)) => match text_u32_at(s, q1) {
            Err(e) => Err(e),
            Ok((major, q2)) => match tag_at(s, q2, "."@) {
                Err(e) => Err(e),
                Ok((_, q3)) => match text_u32_at(s, q3) {
                    Err(e) => Err(e),
                    Ok((minor, q4)) => match tag_at(s, q4, "\n"@) {
                        Err(e) => Err(e),
                        Ok((_, q5)) => Ok(((major, minor), q5)),
                    },
                },
            },
        },
    }
}

/// Reads the first line of a log.
pub fn parse_filetype(input: &[u8], pos: usize) -> (res: Result<((u32, u32), usize), FormatError>)
    ensures
        same(res, filetype_at(input@, pos as int)),
        res matches Ok((_, end)) ==> pos <= end <= input@.len(),
{
    let (_, pos) = expect(input, pos, "FileType: BinaryLegionProf v: ")?;
    let (major, pos) = parse_text_u32(input, pos)?;
    let (_, pos) = expect(input, pos, ".")?;
    let (minor, pos) = parse_text_u32(input, pos)?;
    let (_, pos) = newline(input, pos)?;
    Ok(((major, minor), pos))
}

/// A type token at `p` that belongs to the vocabulary.
pub open spec fn value_format_at(s: Seq<u8>, p: int) -> Parsed<ValueFormat> {
    match word_at(s, p, CharClass::Type) {
        Err(e) => Err(e),
        Ok((token, end)) => match token_format(token) {
            None => Err(FormatError::UnknownTypeToken),
            Some(value) => Ok((value, end)),
        },
    }
}

/// Reads a type token and looks it up.
pub fn parse_value_format(input: &[u8], pos: usize) -> (res: Result<
    (ValueFormat, usize),
    FormatError,
>)
    ensures
        same(res, value_format_at(input@, pos as int)),
        res matches Ok((_, end)) ==> pos <= end <= input@.len(),
{
    let (token, end) = parse_text_type(input, pos)?;
    match convert_value_format(token) {
        Some(value) => Ok((value, end)),
        None => Err(FormatError::UnknownTypeToken),
    }
}

/// A field declaration at `p`: name, type token and size, with colons between.
pub open spec fn field_at(s: Seq<u8>, p: int) -> Parsed<FieldFormatView> {
    match word_at(s, p, CharClass::Name) {
        Err(e) => Err(e),
        Ok((name, q1)) => match tag_at(s, q1, ":"@) {
            Err(e) => Err(e),
            Ok((_, q2)) => match value_format_at(s, q2) {
                Err(e) => Err(e),
                Ok((value, q3)) => match tag_at(s, q3, ":"@) {
                    Err(e) => Err(e),
                    Ok((_, q4)) => match text_i32_at(s, q4) {
                        Err(e) => Err(e),
                        Ok((size, q5)) => Ok((FieldFormatView { name, value, size }, q5)),
                    },
                },
            },
        },
    }
}

/// Reads one field declaration.
pub fn parse_field_format(input: &[u8], pos: usize) -> (res: Result<
    (FieldFormat, usize),
    FormatError,
>)
    ensures
        same_view(res, field_at(input@, pos as int)),
        res matches Ok((_, end)) ==> pos < end <= input@.len(),
{
    let (name, pos) = parse_text_name(input, pos)?;
    let (_, pos) = expect(input, pos, ":")?;
    let (value, pos) = parse_value_format(input, pos)?;
    let (_, pos) = expect(input, pos, ":")?;
    let (size, pos) = parse_text_i32(input, pos)?;
    Ok((FieldFormat { name, value, size }, pos))
}

/// One or more field declarations at `p`, with a comma and a space between:
/// the list goes on for as long as that separator follows.
pub open spec fn fields_at(s: Seq<u8>, p: int) -> Parsed<Seq<FieldFormatView>>
    decreases s.len() - p,
    via fields_at_decreases
{
    match field_at(s, p) {
        Err(e) => Err(e),
        Ok((field, q)) => match tag_at(s, q, ", "@) {
            Err(_) => Ok((seq![field], q)),
            Ok((_, next)) => match fields_at(s, next) {
                Err(e) => Err(e),
                Ok((rest, end)) => Ok((seq![field] + rest, end)),
            },
        },
    }
}

#[via_fn]
proof fn fields_at_decreases(s: Seq<u8>, p: int) {
    lemma_field_advances(s, p);
}

/// A field declaration is not empty and ends inside the input.
pub proof fn lemma_field_advances(s: Seq<u8>, p: int)
    ensures
        field_at(s, p) matches Ok((_, end)) ==> p < end <= s.len(),
{
    if field_at(s, p) is Ok {
        lemma_span(s, p, CharClass::Name);
        let q1 = word_at(s, p, CharClass::Name)->Ok_0.1;
        let q2 = tag_at(s, q1, ":"@)->Ok_0.1;
        lemma_span(s, q2, CharClass::Type);
        let q3 = word_at(s, q2, CharClass::Type)->Ok_0.1;
        let q4 = tag_at(s, q3, ":"@)->Ok_0.1;
        lemma_span(s, q4, CharClass::Digit);
        if q4 < s.len() {
            lemma_span(s, q4 + 1, CharClass::Digit);
        }
    }
}

/// A list of field declarations is not empty and ends inside the input.
pub proof fn lemma_fields_advance(s: Seq<u8>, p: int)
    ensures
        fields_at(s, p) matches Ok((_, end)) ==> p < end <= s.len(),
    decreases s.len() - p,
{
    lemma_field_advances(s, p);
    match field_at(s, p) {
        Err(_) => {},
        Ok((_, q)) => match tag_at(s, q, ", "@) {
            Err(_) => {},
            Ok((_, next)) => {
                lemma_fields_advance(s, next);
            },
        },
    }
}

/// Reads the field declarations of one record format.
pub fn parse_fields(input: &[u8], pos: usize) -> (res: Result<(Vec<FieldFormat>, usize), FormatError>)
    ensures
        match fields_at(input@, pos as int) {
            Ok((fields, end)) => res is Ok && views(res->Ok_0.0@) == fields && res->Ok_0.1 == end,
            Err(e) => res == Err::<(Vec<FieldFormat>, usize), FormatError>(e),
        },
        res matches Ok((_, end)) ==> pos <= end <= input@.len(),
{
    if pos > input.len() {
        return Err(FormatError::BadGrammar);
    }
    let mut fields: Vec<FieldFormat> = Vec::new();
    let mut at: usize = pos;
    loop
        invariant
            pos <= at <= input@.len(),
            match fields_at(input@, at as int) {
                Ok((rest, end)) => fields_at(input@, pos as int) == Ok::<
                    (Seq<FieldFormatView>, int),
                    FormatError,
                >((views(fields@) + rest, end)),
                Err(e) => fields_at(input@, pos as int) == Err::<
                    (Seq<FieldFormatView>, int),
                    FormatError,
                >(e),
            },
        decreases input@.len() - at,
    {
        let ghost before = views(fields@);
        let (field, after) = parse_field_format(input, at)?;
        let ghost shown = field@;
        fields.push(field);
        assert(views(fields@) =~= before + seq![shown]);
        match expect(input, after, ", ") {
            Err(_) => {
                assert(before + seq![shown] =~= views(fields@));
                return Ok((fields, after));
            },
            Ok((_, next)) => {
                proof {
                    match fields_at(input@, next as int) {
                        Ok((rest, end)) => {
                            assert(before + (seq![shown] + rest) =~= views(fields@) + rest);
                        },
                        Err(_) => {},
                    }
                }
                at = next;
            },
        }
    }
}

/// A record format line at `p`: the name, the tag after ` {id:`, the field
/// declarations, a closing brace and the end of the line.
#[verifier::opaque]
pub open spec fn format_at(s: Seq<u8>, p: int) -> Parsed<RecordFormatView> {
    match word_at(s, p, CharClass::Name) {
        Err(e) => Err(e),
        Ok((name, q1)) => match tag_at(s, q1, " {id:"@) {
            Err(e) => Err(e),
            Ok((_, q2)) => match text_u32_at(s, q2) {
                Err(e) => Err(e),
                Ok((id, q3)) => match tag_at(s, q3, ", "@) {
                    Err(e) => Err(e),
                    Ok((_, q4)) => match fields_at(s, q4) {
                        Err(e) => Err(e),
                        Ok((fields, q5)) => match tag_at(s, q5, "}"@) {
                            Err(e) => Err(e),
                            Ok((_, q6)) => match tag_at(s, q6, "\n"@) {
                                Err(e) => Err(e),
                                Ok((_, q7)) => Ok((RecordFormatView { id, name, fields }, q7)),
                            },
                        },
                    },
                },
            },
        },
    }
}

/// Reads one record format line.
pub fn parse_record_format(input: &[u8], pos: usize) -> (res: Result<
    (RecordFormat, usize),
    FormatError,
>)
    ensures
        same_view(res, format_at(input@, pos as int)),
        res matches Ok((_, end)) ==> pos < end <= input@.len(),
{
    reveal(format_at);
    let (name, pos) = parse_text_name(input, pos)?;
    let (_, pos) = expect(input, pos, " {id:")?;
    let (id, pos) = parse_text_u32(input, pos)?;
    let (_, pos) = expect(input, pos, ", ")?;
    let (fields, pos) = parse_fields(input, pos)?;
    let (_, pos) = expect(input, pos, "}")?;
    let (_, pos) = newline(input, pos)?;
    Ok((RecordFormat { id, name, fields }, pos))
}

/// One or more record format lines at `p`, up to the empty line that ends
/// the header, and the position after that line.
pub open spec fn formats_at(s: Seq<u8>, p: int) -> Parsed<Seq<RecordFormatView>>
    decreases s.len() - p,
    via formats_at_decreases
{
    match format_at(s, p) {
        Err(e) => Err(e),
        Ok((format, q)) => match tag_at(s, q, "\n"@) {
            Ok((_, end)) => Ok((seq![format], end)),
            Err(_) => match formats_at(s, q) {
                Err(e) => Err(e),
                Ok((rest, end)) => Ok((seq![format] + rest, end)),
            },
        },
    }
}

#[via_fn]
proof fn formats_at_decreases(s: Seq<u8>, p: int) {
    lemma_format_advances(s, p);
}

/// A record format line is not empty and ends inside the input.
pub proof fn lemma_format_advances(s: Seq<u8>, p: int)
    ensures
        format_at(s, p) matches Ok((_, end)) ==> p < end <= s.len(),
{
    reveal(format_at);
    if format_at(s, p) is Ok {
        lemma_span(s, p, CharClass::Name);
        let q1 = word_at(s, p, CharClass::Name)->Ok_0.1;
        let q2 = tag_at(s, q1, " {id:"@)->Ok_0.1;
        lemma_span(s, q2, CharClass::Digit);
        let q3 = text_u32_at(s, q2)->Ok_0.1;
        let q4 = tag_at(s, q3, ", "@)->Ok_0.1;
        lemma_fields_advance(s, q4);
    }
}

/// The header of a log: the file type line, which must give version 1.0,
/// and the record formats.
pub open spec fn header_at(s: Seq<u8>) -> Parsed<Seq<RecordFormatView>> {
    match filetype_at(s, 0) {
        Err(e) => Err(e),
        Ok((version, p)) => if version != (1u32, 0u32) {
            Err(FormatError::BadVersion)
        } else {
            formats_at(s, p)
        },
    }
}

/// Reads the header of a log and returns the declared record formats, in
/// the order of their lines, and the position at which the records start.
pub fn parse_header(input: &[u8]) -> (res: Result<(Vec<RecordFormat>, usize), FormatError>)
    ensures
        match header_at(input@) {
            Ok((formats, end)) => res is Ok && views(res->Ok_0.0@) == formats && res->Ok_0.1
                == end,
            Err(e) => res == Err::<(Vec<RecordFormat>, usize), FormatError>(e),
        },
        res matches Ok((_, end)) ==> end <= input@.len(),
{
    let ((major, minor), start) = parse_filetype(input, 0)?;
    if major != 1 || minor != 0 {
        return Err(FormatError::BadVersion);
    }
    let mut formats: Vec<RecordFormat> = Vec::new();
    let mut at: usize = start;
    loop
        invariant
            start <= at <= input@.len(),
            header_at(input@) == formats_at(input@, start as int),
            match formats_at(input@, at as int) {
                Ok((rest, end)) => formats_at(input@, start as int) == Ok::<
                    (Seq<RecordFormatView>, int),
                    FormatError,
                >((views(formats@) + rest, end)),
                Err(e) => formats_at(input@, start as int) == Err::<
                    (Seq<RecordFormatView>, int),
                    FormatError,
                >(e),
            },
        decreases input@.len() - at,
    {
        let ghost before = views(formats@);
        let (format, after) = parse_record_format(input, at)?;
        let ghost shown = format@;
        formats.push(format);
        assert(views(formats@) =~= before + seq![shown]);
        match newline(input, after) {
            Ok((_, end)) => {
                return Ok((formats, end));
            },
            Err(_) => {
                proof {
                    match formats_at(input@, after as int) {
                        Ok((rest, end)) => {
                            assert(before + (seq![shown] + rest) =~= views(formats@) + rest);
                        },
                        Err(_) => {},
                    }
                }
                at = after;
            },
        }
    }
}

} // verus!
