//! What was decoded from an input is decoded from every longer input that
//! starts with it, and a stray byte after the last record is never taken
//! for a record.

use crate::decode::record_at;
use crate::driver::{payload_records, payload_result, records_from, tagged_record_at, Context};
use crate::error::FormatError;
use crate::header::{
    field_at, fields_at, filetype_at, format_at, formats_at, header_at, lemma_span, number_at,
    span_end, tag_at, text_i32_at, text_u32_at, word_at, CharClass,
};
use crate::ids::NodeID;
use crate::prims::{lemma_nul_from_bounds, nul_from, text_at, u32_at, words_at};
use crate::record::{RecordKind, RecordView};
use crate::registry::{bound_kind, tags_of, KINDS};
use vstd::prelude::*;
use vstd::utf8::{encode_utf8, is_ascii_chars_encode_utf8};

verus! {

/// True when `t` starts with the bytes of `s`.
pub open spec fn is_prefix(s: Seq<u8>, t: Seq<u8>) -> bool {
    s.len() <= t.len() && forall|i: int| 0 <= i < s.len() ==> s[i] == t[i]
}

proof fn lemma_same_range(s: Seq<u8>, t: Seq<u8>, a: int, b: int)
    requires
        is_prefix(s, t),
        0 <= a <= b <= s.len(),
    ensures
        t.subrange(a, b) == s.subrange(a, b),
{
    assert(t.subrange(a, b) =~= s.subrange(a, b));
}

proof fn lemma_encoding_nonempty(literal: Seq<char>)
    requires
        literal.len() > 0,
    ensures
        encode_utf8(literal).len() > 0,
{
}

proof fn lemma_span_stable(s: Seq<u8>, t: Seq<u8>, p: int, class: CharClass)
    requires
        is_prefix(s, t),
        0 <= p <= s.len(),
        span_end(s, p, class) < s.len(),
    ensures
        span_end(t, p, class) == span_end(s, p, class),
    decreases s.len() - p,
{
    if p < s.len() && class.holds(s[p]) {
        lemma_span_stable(s, t, p + 1, class);
    }
}

proof fn lemma_tag_stable(s: Seq<u8>, t: Seq<u8>, p: int, literal: Seq<char>)
    requires
        is_prefix(s, t),
        0 <= p,
        tag_at(s, p, literal) is Ok,
    ensures
        tag_at(t, p, literal) == tag_at(s, p, literal),
{
    lemma_same_range(s, t, p, p + encode_utf8(literal).len());
}

proof fn lemma_number_stable(s: Seq<u8>, t: Seq<u8>, p: int, max: int)
    requires
        is_prefix(s, t),
        0 <= p <= s.len(),
        number_at(s, p, max) matches Ok((_, end)) && end < s.len(),
    ensures
        number_at(t, p, max) == number_at(s, p, max),
        p <= number_at(s, p, max)->Ok_0.1,
{
    lemma_span(s, p, CharClass::Digit);
    lemma_span_stable(s, t, p, CharClass::Digit);
    lemma_same_range(s, t, p, span_end(s, p, CharClass::Digit));
}

proof fn lemma_word_stable(s: Seq<u8>, t: Seq<u8>, p: int, class: CharClass)
    requires
        is_prefix(s, t),
        0 <= p <= s.len(),
        word_at(s, p, class) matches Ok((_, end)) && end < s.len(),
    ensures
        word_at(t, p, class) == word_at(s, p, class),
        p < word_at(s, p, class)->Ok_0.1,
{
    lemma_span(s, p, class);
    lemma_span_stable(s, t, p, class);
    lemma_same_range(s, t, p, span_end(s, p, class));
}

proof fn lemma_signed_stable(s: Seq<u8>, t: Seq<u8>, p: int)
    requires
        is_prefix(s, t),
        0 <= p <= s.len(),
        text_i32_at(s, p) matches Ok((_, end)) && end < s.len(),
    ensures
        text_i32_at(t, p) == text_i32_at(s, p),
        p <= text_i32_at(s, p)->Ok_0.1,
{
    let negative = 0 <= p < s.len() && s[p] == 45;
    let start = if negative {
        p + 1
    } else {
        p
    };
    lemma_number_stable(s, t, start, i32::MAX as int);
}

proof fn lemma_filetype_stable(s: Seq<u8>, t: Seq<u8>, p: int)
    requires
        is_prefix(s, t),
        0 <= p <= s.len(),
        filetype_at(s, p) is Ok,
    ensures
        filetype_at(t, p) == filetype_at(s, p),
        p <= filetype_at(s, p)->Ok_0.1 <= s.len(),
{
    reveal_strlit(".");
    reveal_strlit("\n");
    lemma_encoding_nonempty("."@);
    lemma_encoding_nonempty("\n"@);
    let q1 = tag_at(s, p, "FileType: BinaryLegionProf v: "@)->Ok_0.1;
    lemma_tag_stable(s, t, p, "FileType: BinaryLegionProf v: "@);
    let q2 = text_u32_at(s, q1)->Ok_0.1;
    lemma_number_stable(s, t, q1, u32::MAX as int);
    lemma_tag_stable(s, t, q2, "."@);
    let q3 = tag_at(s, q2, "."@)->Ok_0.1;
    let q4 = text_u32_at(s, q3)->Ok_0.1;
    lemma_number_stable(s, t, q3, u32::MAX as int);
    lemma_tag_stable(s, t, q4, "\n"@);
}

proof fn lemma_field_stable(s: Seq<u8>, t: Seq<u8>, p: int)
    requires
        is_prefix(s, t),
        0 <= p <= s.len(),
        field_at(s, p) matches Ok((_, end)) && end < s.len(),
    ensures
        field_at(t, p) == field_at(s, p),
        p < field_at(s, p)->Ok_0.1,
{
    reveal_strlit(":");
    lemma_encoding_nonempty(":"@);
    let q1 = word_at(s, p, CharClass::Name)->Ok_0.1;
    lemma_word_stable(s, t, p, CharClass::Name);
    lemma_tag_stable(s, t, q1, ":"@);
    let q2 = tag_at(s, q1, ":"@)->Ok_0.1;
    let q3 = word_at(s, q2, CharClass::Type)->Ok_0.1;
    lemma_word_stable(s, t, q2, CharClass::Type);
    lemma_tag_stable(s, t, q3, ":"@);
    let q4 = tag_at(s, q3, ":"@)->Ok_0.1;
    lemma_signed_stable(s, t, q4);
}

proof fn lemma_fields_stable(s: Seq<u8>, t: Seq<u8>, p: int)
    requires
        is_prefix(s, t),
        0 <= p <= s.len(),
        fields_at(s, p) matches Ok((_, end)) && tag_at(s, end, "}"@) is Ok,
    ensures
        fields_at(t, p) == fields_at(s, p),
        p < fields_at(s, p)->Ok_0.1,
    decreases s.len() - p,
{
    reveal_strlit("}");
    reveal_strlit(", ");
    lemma_encoding_nonempty("}"@);
    lemma_encoding_nonempty(", "@);
    is_ascii_chars_encode_utf8("}"@);
    is_ascii_chars_encode_utf8(", "@);
    let q = field_at(s, p)->Ok_0.1;
    match tag_at(s, q, ", "@) {
        Err(_) => {
            lemma_field_stable(s, t, p);
            let n = encode_utf8("}"@).len() as int;
            assert(s.subrange(q, q + n)[0] == encode_utf8("}"@)[0]);
            assert(s[q] == 125u8);
            if tag_at(t, q, ", "@) is Ok {
                let m = encode_utf8(", "@).len() as int;
                assert(t.subrange(q, q + m)[0] == encode_utf8(", "@)[0]);
                assert(t[q] == 44u8);
            }
        },
        Ok((_, next)) => {
            lemma_field_stable(s, t, p);
            lemma_tag_stable(s, t, q, ", "@);
            lemma_fields_stable(s, t, next);
        },
    }
}

proof fn lemma_format_stable(s: Seq<u8>, t: Seq<u8>, p: int)
    requires
        is_prefix(s, t),
        0 <= p <= s.len(),
        format_at(s, p) is Ok,
    ensures
        format_at(t, p) == format_at(s, p),
        p < format_at(s, p)->Ok_0.1 <= s.len(),
{
    reveal(format_at);
    reveal_strlit(" {id:");
    reveal_strlit(", ");
    lemma_encoding_nonempty(" {id:"@);
    lemma_encoding_nonempty(", "@);
    let q1 = word_at(s, p, CharClass::Name)->Ok_0.1;
    lemma_word_stable(s, t, p, CharClass::Name);
    lemma_tag_stable(s, t, q1, " {id:"@);
    let q2 = tag_at(s, q1, " {id:"@)->Ok_0.1;
    let q3 = text_u32_at(s, q2)->Ok_0.1;
    lemma_number_stable(s, t, q2, u32::MAX as int);
    lemma_tag_stable(s, t, q3, ", "@);
    let q4 = tag_at(s, q3, ", "@)->Ok_0.1;
    let q5 = fields_at(s, q4)->Ok_0.1;
    lemma_fields_stable(s, t, q4);
    lemma_tag_stable(s, t, q5, "}"@);
    let q6 = tag_at(s, q5, "}"@)->Ok_0.1;
    lemma_tag_stable(s, t, q6, "\n"@);
}

proof fn lemma_formats_stable(s: Seq<u8>, t: Seq<u8>, p: int)
    requires
        is_prefix(s, t),
        0 <= p <= s.len(),
        formats_at(s, p) is Ok,
    ensures
        formats_at(t, p) == formats_at(s, p),
        p < formats_at(s, p)->Ok_0.1 <= s.len(),
    decreases s.len() - p,
{
    lemma_format_stable(s, t, p);
    let q = format_at(s, p)->Ok_0.1;
    match tag_at(s, q, "\n"@) {
        Ok(_) => {
            lemma_tag_stable(s, t, q, "\n"@);
        },
        Err(_) => {
            lemma_formats_stable(s, t, q);
            reveal(format_at);
            reveal_strlit("\n");
            is_ascii_chars_encode_utf8("\n"@);
            lemma_span(s, q, CharClass::Name);
            assert(CharClass::Name.holds(s[q]));
            if tag_at(t, q, "\n"@) is Ok {
                let m = encode_utf8("\n"@).len() as int;
                assert(t.subrange(q, q + m)[0] == encode_utf8("\n"@)[0]);
                assert(t[q] == 10u8);
            }
        },
    }
}

/// A header that was accepted is read in the same way from every input
/// that starts with the same bytes.
pub proof fn lemma_header_stable(s: Seq<u8>, t: Seq<u8>)
    requires
        is_prefix(s, t),
        header_at(s) is Ok,
    ensures
        header_at(t) == header_at(s),
        0 <= header_at(s)->Ok_0.1 <= s.len(),
{
    lemma_filetype_stable(s, t, 0);
    let p = filetype_at(s, 0)->Ok_0.1;
    reveal_strlit("\n");
    lemma_formats_stable(s, t, p);
}

proof fn lemma_nul_stable(s: Seq<u8>, t: Seq<u8>, p: int)
    requires
        is_prefix(s, t),
        0 <= p <= s.len(),
        nul_from(s, p) < s.len(),
    ensures
        nul_from(t, p) == nul_from(s, p),
    decreases s.len() - p,
{
    if p < s.len() && s[p] != 0 {
        lemma_nul_stable(s, t, p + 1);
    }
}

proof fn lemma_text_stable(s: Seq<u8>, t: Seq<u8>, p: int)
    requires
        is_prefix(s, t),
        0 <= p <= s.len(),
        text_at(s, p) is Ok,
    ensures
        text_at(t, p) == text_at(s, p),
        p < text_at(s, p)->Ok_0.1 <= s.len(),
{
    lemma_nul_from_bounds(s, p);
    lemma_nul_stable(s, t, p);
    lemma_same_range(s, t, p, nul_from(s, p));
}

proof fn lemma_words_stable(s: Seq<u8>, t: Seq<u8>, p: int, count: int)
    requires
        is_prefix(s, t),
        0 <= p <= s.len(),
        words_at(s, p, count) is Ok,
    ensures
        words_at(t, p, count) == words_at(s, p, count),
{
    assert(words_at(t, p, count)->Ok_0.0 =~= words_at(s, p, count)->Ok_0.0);
}

/// A payload that was decoded is decoded in the same way from every input
/// that starts with the same bytes.
#[verifier::rlimit(60)]
pub proof fn lemma_record_stable(kind: RecordKind, s: Seq<u8>, t: Seq<u8>, p: int, dim: int)
    requires
        is_prefix(s, t),
        0 <= p <= s.len(),
        record_at(kind, s, p, dim) is Ok,
    ensures
        record_at(kind, t, p, dim) == record_at(kind, s, p, dim),
        p <= record_at(kind, s, p, dim)->Ok_0.1 <= s.len(),
{
    reveal(record_at);
    match kind {
        RecordKind::MapperCallDesc | RecordKind::RuntimeCallDesc | RecordKind::OpDesc
        | RecordKind::TaskKind => {
            lemma_text_stable(s, t, p + 4);
        },
        RecordKind::MetaDesc => {
            lemma_text_stable(s, t, p + 6);
        },
        RecordKind::FieldSpaceDesc | RecordKind::PartDesc | RecordKind::IndexSpaceDesc
        | RecordKind::TaskVariant => {
            lemma_text_stable(s, t, p + 8);
        },
        RecordKind::LogicalRegionDesc => {
            lemma_text_stable(s, t, p + 16);
        },
        RecordKind::FieldDesc | RecordKind::OperationInstance => {
            lemma_text_stable(s, t, p + 20);
        },
        RecordKind::IndexSpacePointDesc => {
            lemma_words_stable(s, t, p + 12, dim);
        },
        RecordKind::IndexSpaceRectDesc => {
            lemma_words_stable(s, t, p + 12, 2 * dim);
        },
        _ => {},
    }
}

proof fn lemma_text_bounds(s: Seq<u8>, p: int)
    ensures
        text_at(s, p) matches Ok((_, end)) ==> p < end <= s.len(),
{
    if 0 <= p <= s.len() {
        lemma_nul_from_bounds(s, p);
    }
}

/// A payload ends inside the input and not before its start, wherever it
/// is looked for.
pub proof fn lemma_payload_bounds(kind: RecordKind, s: Seq<u8>, p: int, dim: int)
    ensures
        record_at(kind, s, p, dim) matches Ok((_, end)) ==> p <= end <= s.len(),
{
    reveal(record_at);
    match kind {
        RecordKind::MapperCallDesc | RecordKind::RuntimeCallDesc | RecordKind::OpDesc
        | RecordKind::TaskKind => {
            lemma_text_bounds(s, p + 4);
        },
        RecordKind::MetaDesc => {
            lemma_text_bounds(s, p + 6);
        },
        RecordKind::FieldSpaceDesc | RecordKind::PartDesc | RecordKind::IndexSpaceDesc
        | RecordKind::TaskVariant => {
            lemma_text_bounds(s, p + 8);
        },
        RecordKind::LogicalRegionDesc => {
            lemma_text_bounds(s, p + 16);
        },
        RecordKind::FieldDesc | RecordKind::OperationInstance => {
            lemma_text_bounds(s, p + 20);
        },
        _ => {},
    }
}

/// A record takes at least the four bytes of its tag and ends inside the
/// input, so decoding one record after another always moves on.
pub proof fn lemma_record_advances(s: Seq<u8>, p: int, tags: Seq<u32>, dim: int)
    ensures
        tagged_record_at(s, p, tags, dim) matches Ok((_, end)) ==> p + 4 <= end <= s.len(),
{
    if tagged_record_at(s, p, tags, dim) is Ok {
        let kind = bound_kind(tags, KINDS as int, u32_at(s, p))->0;
        lemma_payload_bounds(kind, s, p + 4, dim);
    }
}

proof fn lemma_records_stable(
    s: Seq<u8>,
    t: Seq<u8>,
    p: int,
    tags: Seq<u32>,
    ctx: Context,
    nodes: Seq<NodeID>,
    filter: bool,
)
    requires
        is_prefix(s, t),
        t.len() < s.len() + 4,
        0 <= p <= s.len(),
        records_from(s, p, tags, ctx, nodes, filter) matches Ok((_, end)) && end == s.len(),
    ensures
        records_from(t, p, tags, ctx, nodes, filter) == records_from(
            s,
            p,
            tags,
            ctx,
            nodes,
            filter,
        ),
    decreases s.len() - p,
{
    match tagged_record_at(s, p, tags, ctx.dim()) {
        Err(_) => {},
        Ok((record, q)) => {
            let kind = bound_kind(tags, KINDS as int, u32_at(s, p))->0;
            lemma_record_stable(kind, s, t, p + 4, ctx.dim());
            lemma_record_advances(s, p, tags, ctx.dim());
            lemma_records_stable(s, t, q, tags, ctx.after(record), nodes, filter);
        },
    }
}

/// A stray byte after the last record makes a well-formed payload fail:
/// where a payload is accepted, the same payload with up to three more
/// bytes at its end is rejected for its trailing bytes.
pub proof fn lemma_stray_bytes_fail(s: Seq<u8>, t: Seq<u8>, nodes: Seq<NodeID>, filter: bool)
    requires
        is_prefix(s, t),
        s.len() < t.len() < s.len() + 4,
        payload_result(s, nodes, filter) is Ok,
    ensures
        payload_result(t, nodes, filter) == Err::<Seq<RecordView>, FormatError>(
            FormatError::TrailingBytes,
        ),
        payload_records(t, nodes, filter) == payload_records(s, nodes, filter),
{
    lemma_header_stable(s, t);
    let (formats, p) = header_at(s)->Ok_0;
    let tags = tags_of(formats)->0;
    lemma_records_stable(s, t, p, tags, Context::start(), nodes, filter);
}

} // verus!
