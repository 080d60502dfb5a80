//! Decoders for the primitive fields of the binary body: little-endian
//! integers, booleans, NUL-terminated strings and the two composites whose
//! length is the dimensionality of the file.

use crate::error::FormatError;
use vstd::prelude::*;
use vstd::utf8::{decode_utf8, valid_utf8};

verus! {

/// What a decoder yields in the model: a value and the position after it.
pub type Parsed<T> = Result<(T, int), FormatError>;

/// True when an executable result and a modelled one are the same outcome.
pub open spec fn same<T>(got: Result<(T, usize), FormatError>, want: Parsed<T>) -> bool {
    match (got, want) {
        (Ok((v, q)), Ok((w, e))) => v == w && q as int == e,
        (Err(a), Err(b)) => a == b,
        _ => false,
    }
}

/// The unsigned value of the four bytes at `p`, least significant first.
pub open spec fn u32_at(s: Seq<u8>, p: int) -> u32 {
    (s[p] as int + s[p + 1] as int * 0x100 + s[p + 2] as int * 0x1_0000 + s[p + 3] as int
        * 0x100_0000) as u32
}

/// The unsigned value of the eight bytes at `p`, least significant first.
pub open spec fn u64_at(s: Seq<u8>, p: int) -> u64 {
    (u32_at(s, p) as int + u32_at(s, p + 4) as int * 0x1_0000_0000) as u64
}

/// The four bytes at `p` read as a two's complement number.
pub open spec fn i32_at(s: Seq<u8>, p: int) -> i32 {
    let v = u32_at(s, p) as int;
    (if v >= 0x8000_0000 {
        v - 0x1_0000_0000
    } else {
        v
    }) as i32
}

/// The eight bytes at `p` read as a two's complement number.
pub open spec fn i64_at(s: Seq<u8>, p: int) -> i64 {
    let v = u64_at(s, p) as int;
    (if v >= 0x8000_0000_0000_0000 {
        v - 0x1_0000_0000_0000_0000
    } else {
        v
    }) as i64
}

/// Calls `nom::number::complete::le_u8` on the input from `pos` on: the byte
/// there, or nothing when the input ends at `pos`.
#[verifier::external_body]
fn le_u8_from(input: &[u8], pos: usize) -> (res: Option<u8>)
    requires
        pos <= input@.len(),
    ensures
        res == (if pos + 1 <= input@.len() {
            Some(input@[pos as int])
        } else {
            None
        }),
{
    match nom::number::complete::le_u8::<&[u8], nom::error::Error<&[u8]>>(&input[pos..]) {
        Ok((_, v)) => Some(v),
        Err(_) => None,
    }
}

/// Calls `nom::number::complete::le_u32` on the input from `pos` on: the
/// little-endian value of the next four bytes, or nothing when fewer are left.
#[verifier::external_body]
fn le_u32_from(input: &[u8], pos: usize) -> (res: Option<u32>)
    requires
        pos <= input@.len(),
    ensures
        res == (if pos + 4 <= input@.len() {
            Some(u32_at(input@, pos as int))
        } else {
            None
        }),
{
    match nom::number::complete::le_u32::<&[u8], nom::error::Error<&[u8]>>(&input[pos..]) {
        Ok((_, v)) => Some(v),
        Err(_) => None,
    }
}

/// Calls `nom::number::complete::le_u64` on the input from `pos` on: the
/// little-endian value of the next eight bytes, or nothing when fewer are left.
#[verifier::external_body]
fn le_u64_from(input: &[u8], pos: usize) -> (res: Option<u64>)
    requires
        pos <= input@.len(),
    ensures
        res == (if pos + 8 <= input@.len() {
            Some(u64_at(input@, pos as int))
        } else {
            None
        }),
{
    match nom::number::complete::le_u64::<&[u8], nom::error::Error<&[u8]>>(&input[pos..]) {
        Ok((_, v)) => Some(v),
        Err(_) => None,
    }
}

/// Calls `nom::number::complete::le_i32` on the input from `pos` on: the next
/// four bytes as a little-endian two's complement number, or nothing when
/// fewer are left.
#[verifier::external_body]
fn le_i32_from(input: &[u8], pos: usize) -> (res: Option<i32>)
    requires
        pos <= input@.len(),
    ensures
        res == (if pos + 4 <= input@.len() {
            Some(i32_at(input@, pos as int))
        } else {
            None
        }),
{
    match nom::number::complete::le_i32::<&[u8], nom::error::Error<&[u8]>>(&input[pos..]) {
        Ok((_, v)) => Some(v),
        Err(_) => None,
    }
}

/// Calls `nom::number::complete::le_i64` on the input from `pos` on: the next
/// eight bytes as a little-endian two's complement number, or nothing when
/// fewer are left.
#[verifier::external_body]
fn le_i64_from(input: &[u8], pos: usize) -> (res: Option<i64>)
    requires
        pos <= input@.len(),
    ensures
        res == (if pos + 8 <= input@.len() {
            Some(i64_at(input@, pos as int))
        } else {
            None
        }),
{
    match nom::number::complete::le_i64::<&[u8], nom::error::Error<&[u8]>>(&input[pos..]) {
        Ok((_, v)) => Some(v),
        Err(_) => None,
    }
}

/// Calls `String::from_utf8` on a copy of the bytes: the string they encode,
/// or nothing when they are not UTF-8.
#[verifier::external_body]
pub(crate) fn string_from_utf8(bytes: &[u8]) -> (res: Option<String>)
    ensures
        res is Some <==> valid_utf8(bytes@),
        res matches Some(text) ==> text@ == decode_utf8(bytes@),
{
    match String::from_utf8(bytes.to_vec()) {
        Ok(text) => Some(text),
        Err(_) => None,
    }
}

/// The length of a slice fits the machine word.
pub proof fn lemma_len_fits(input: &[u8])
    ensures
        input@.len() <= usize::MAX,
{
    assert(input.len() == input@.len());
}

/// A fixed-width field of `width` bytes at `p`, whose value is `value`.
pub open spec fn fixed_at<T>(s: Seq<u8>, p: int, width: int, value: T) -> Parsed<T> {
    if p + width <= s.len() {
        Ok((value, p + width))
    } else {
        Err(FormatError::ShortRead)
    }
}

/// One byte.
pub fn parse_u8(input: &[u8], pos: usize) -> (res: Result<(u8, usize), FormatError>)
    ensures
        same(res, fixed_at(input@, pos as int, 1, input@[pos as int])),
{
    if pos > input.len() {
        return Err(FormatError::ShortRead);
    }
    match le_u8_from(input, pos) {
        Some(v) => Ok((v, pos + 1)),
        None => Err(FormatError::ShortRead),
    }
}

/// A little-endian unsigned 32-bit integer.
pub fn parse_u32(input: &[u8], pos: usize) -> (res: Result<(u32, usize), FormatError>)
    ensures
        same(res, fixed_at(input@, pos as int, 4, u32_at(input@, pos as int))),
{
    if pos > input.len() {
        return Err(FormatError::ShortRead);
    }
    match le_u32_from(input, pos) {
        Some(v) => Ok((v, pos + 4)),
        None => Err(FormatError::ShortRead),
    }
}

/// A little-endian unsigned 64-bit integer.
pub fn parse_u64(input: &[u8], pos: usize) -> (res: Result<(u64, usize), FormatError>)
    ensures
        same(res, fixed_at(input@, pos as int, 8, u64_at(input@, pos as int))),
{
    if pos > input.len() {
        return Err(FormatError::ShortRead);
    }
    match le_u64_from(input, pos) {
        Some(v) => Ok((v, pos + 8)),
        None => Err(FormatError::ShortRead),
    }
}

/// A little-endian signed 32-bit integer.
pub fn parse_i32(input: &[u8], pos: usize) -> (res: Result<(i32, usize), FormatError>)
    ensures
        same(res, fixed_at(input@, pos as int, 4, i32_at(input@, pos as int))),
{
    if pos > input.len() {
        return Err(FormatError::ShortRead);
    }
    match le_i32_from(input, pos) {
        Some(v) => Ok((v, pos + 4)),
        None => Err(FormatError::ShortRead),
    }
}

/// A little-endian signed 64-bit integer.
pub fn parse_i64(input: &[u8], pos: usize) -> (res: Result<(i64, usize), FormatError>)
    ensures
        same(res, fixed_at(input@, pos as int, 8, i64_at(input@, pos as int))),
{
    if pos > input.len() {
        return Err(FormatError::ShortRead);
    }
    match le_i64_from(input, pos) {
        Some(v) => Ok((v, pos + 8)),
        None => Err(FormatError::ShortRead),
    }
}

/// The flag that the byte at `p` stands for: zero is false, all else true.
pub open spec fn bool_at(s: Seq<u8>, p: int) -> bool {
    s[p] != 0
}

/// A one-byte flag.
pub fn parse_bool(input: &[u8], pos: usize) -> (res: Result<(bool, usize), FormatError>)
    ensures
        same(res, fixed_at(input@, pos as int, 1, bool_at(input@, pos as int))),
{
    if pos > input.len() {
        return Err(FormatError::ShortRead);
    }
    match le_u8_from(input, pos) {
        Some(v) => Ok((v != 0, pos + 1)),
        None => Err(FormatError::ShortRead),
    }
}

/// True for the byte that ends a string field.
pub fn is_nul(chr: u8) -> (res: bool)
    ensures
        res == (chr == 0),
{
    chr == 0
}

/// The position of the first zero byte at or after `p`, or the end of the
/// input when there is none.
pub open spec fn nul_from(s: Seq<u8>, p: int) -> int
    decreases s.len() - p,
{
    if 0 <= p < s.len() && s[p] != 0 {
        nul_from(s, p + 1)
    } else {
        p
    }
}

/// A string field at `p`: the bytes up to the first zero byte, which must be
/// UTF-8, and then the zero byte itself.
pub open spec fn text_at(s: Seq<u8>, p: int) -> Parsed<Seq<char>> {
    let n = nul_from(s, p);
    let body = s.subrange(p, n);
    if p > s.len() {
        Err(FormatError::ShortRead)
    } else if !valid_utf8(body) {
        Err(FormatError::BadUtf8)
    } else if n >= s.len() {
        Err(FormatError::ShortRead)
    } else {
        Ok((decode_utf8(body), n + 1))
    }
}

/// The search for a zero byte ends inside the input, at a zero byte unless
/// it reaches the end, and passes over no zero byte.
pub proof fn lemma_nul_from_bounds(s: Seq<u8>, p: int)
    requires
        0 <= p <= s.len(),
    ensures
        p <= nul_from(s, p) <= s.len(),
        nul_from(s, p) < s.len() ==> s[nul_from(s, p)] == 0,
        forall|i: int| p <= i < nul_from(s, p) ==> s[i] != 0,
    decreases s.len() - p,
{
    if p < s.len() && s[p] != 0 {
        lemma_nul_from_bounds(s, p + 1);
    }
}

/// True when an executable result and a modelled one are the same outcome,
/// the value taken by its view.
pub open spec fn same_view<T: View>(
    got: Result<(T, usize), FormatError>,
    want: Parsed<T::V>,
) -> bool {
    match (got, want) {
        (Ok((v, q)), Ok((w, e))) => v@ == w && q as int == e,
        (Err(a), Err(b)) => a == b,
        _ => false,
    }
}

/// A NUL-terminated UTF-8 string.
pub fn parse_string(input: &[u8], pos: usize) -> (res: Result<(String, usize), FormatError>)
    ensures
        same_view(res, text_at(input@, pos as int)),
        res matches Ok((_, end)) ==> pos <= end <= input@.len(),
{
    if pos > input.len() {
        return Err(FormatError::ShortRead);
    }
    let mut end: usize = pos;
    while end < input.len() && !is_nul(input[end])
        invariant
            pos <= end <= input@.len(),
            nul_from(input@, pos as int) == nul_from(input@, end as int),
        decreases input@.len() - end,
    {
        end = end + 1;
    }
    let body = vstd::slice::slice_subrange(input, pos, end);
    match string_from_utf8(body) {
        None => Err(FormatError::BadUtf8),
        Some(text) => {
            if end >= input.len() {
                Err(FormatError::ShortRead)
            } else {
                Ok((text, end + 1))
            }
        },
    }
}

/// `count` consecutive 64-bit values at `p`; a negative count stands for a
/// dimensionality that is not known.
pub open spec fn words_at(s: Seq<u8>, p: int, count: int) -> Parsed<Seq<u64>> {
    if count < 0 {
        Err(FormatError::DimensionUnknown)
    } else if p + 8 * count > s.len() {
        Err(FormatError::ShortRead)
    } else {
        Ok((Seq::new(count as nat, |i: int| u64_at(s, p + 8 * i)), p + 8 * count))
    }
}

/// Reads `count` consecutive little-endian 64-bit values.
pub fn parse_words(input: &[u8], pos: usize, count: u64) -> (res: Result<
    (Vec<u64>, usize),
    FormatError,
>)
    ensures
        same_view(res, words_at(input@, pos as int, count as int)),
        res matches Ok((_, end)) ==> pos <= end <= input@.len(),
{
    if pos > input.len() {
        return Err(FormatError::ShortRead);
    }
    if count > ((input.len() - pos) / 8) as u64 {
        return Err(FormatError::ShortRead);
    }
    let mut values: Vec<u64> = Vec::new();
    let mut at: usize = pos;
    let mut done: u64 = 0;
    while done < count
        invariant
            done <= count,
            pos + 8 * count <= input@.len(),
            at == pos + 8 * done,
            values@ == Seq::new(done as nat, |i: int| u64_at(input@, pos + 8 * i)),
        decreases count - done,
    {
        match parse_u64(input, at) {
            Ok((v, next)) => {
                values.push(v);
                at = next;
                done = done + 1;
                assert(values@ =~= Seq::new(done as nat, |i: int| u64_at(input@, pos + 8 * i)));
            },
            Err(e) => {
                return Err(e);
            },
        }
    }
    Ok((values, at))
}

} // verus!
