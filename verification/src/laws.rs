//! Properties of the decoder that hold of every input.

use crate::driver::{payload_records, payload_result, records_from, tagged_record_at, Context};
use crate::error::FormatError;
use crate::filter::retained;
use crate::header::{
    field_at, fields_at, filetype_at, format_at, formats_at, header_at, lemma_field_advances,
    lemma_format_advances, tag_at, RecordFormatView,
};
use crate::ids::NodeID;
use crate::prims::words_at;
use crate::record::RecordView;
use crate::registry::tags_of;
use crate::stability::lemma_record_advances;
use vstd::prelude::*;

verus! {

/// Only version 1.0 passes: a first line that is well formed and gives any
/// other version makes the header, and so the whole payload, fail with
/// `BadVersion`; with version 1.0 the header is what the format lines are.
pub proof fn lemma_version_gate(s: Seq<u8>, nodes: Seq<NodeID>, filter: bool)
    ensures
        filetype_at(s, 0) matches Ok((version, p)) ==> {
            &&& version != (1u32, 0u32) ==> header_at(s) == Err::<
                (Seq<RecordFormatView>, int),
                FormatError,
            >(FormatError::BadVersion)
            &&& version != (1u32, 0u32) ==> payload_result(s, nodes, filter) == Err::<
                Seq<RecordView>,
                FormatError,
            >(FormatError::BadVersion)
            &&& version == (1u32, 0u32) ==> header_at(s) == formats_at(s, p)
        },
{
}

/// A bounding box takes sixteen bytes for each dimension and a point eight,
/// and they hold two values and one value for each dimension.
pub proof fn lemma_composite_sizes(s: Seq<u8>, p: int, dim: int)
    ensures
        words_at(s, p, 2 * dim) matches Ok((values, end)) ==> end == p + 16 * dim && values.len()
            == 2 * dim,
        words_at(s, p, dim) matches Ok((values, end)) ==> end == p + 8 * dim && values.len()
            == dim,
{
}

/// Where the field declaration with the given index starts, when the
/// declarations from `p` on are read one after another.
pub open spec fn field_start(s: Seq<u8>, p: int, index: nat) -> int
    decreases index,
{
    if index == 0 {
        p
    } else {
        match field_at(s, field_start(s, p, (index - 1) as nat)) {
            Ok((_, q)) => match tag_at(s, q, ", "@) {
                Ok((_, next)) => next,
                Err(_) => -1,
            },
            Err(_) => -1,
        }
    }
}

proof fn lemma_field_start_shift(s: Seq<u8>, p: int, next: int, index: nat)
    requires
        field_at(s, p) matches Ok((_, q)) && tag_at(s, q, ", "@) matches Ok((_, after)) && after
            == next,
    ensures
        field_start(s, p, index + 1) == field_start(s, next, index),
    decreases index,
{
    assert(field_start(s, p, 0) == p);
    assert(field_start(s, next, 0) == next);
    if index > 0 {
        lemma_field_start_shift(s, p, next, (index - 1) as nat);
        assert(field_start(s, p, index) == field_start(s, next, (index - 1) as nat));
    }
    assert(((index + 1) - 1) as nat == index);
}

/// The fields of a record format come in the order of their declarations:
/// the one with index i is what declaration i states, and the list has at
/// least one field.
pub proof fn lemma_fields_in_declaration_order(s: Seq<u8>, p: int)
    requires
        fields_at(s, p) is Ok,
    ensures
        fields_at(s, p)->Ok_0.0.len() >= 1,
        forall|i: int|
            #![trigger field_start(s, p, i as nat)]
            0 <= i < fields_at(s, p)->Ok_0.0.len() ==> (field_at(
                s,
                field_start(s, p, i as nat),
            ) matches Ok((field, _)) && field == fields_at(s, p)->Ok_0.0[i]),
    decreases s.len() - p,
{
    let fields = fields_at(s, p)->Ok_0.0;
    let (first, q) = field_at(s, p)->Ok_0;
    assert(field_start(s, p, 0) == p);
    match tag_at(s, q, ", "@) {
        Ok((_, next)) => {
            lemma_field_advances(s, p);
            lemma_fields_in_declaration_order(s, next);
            let rest = fields_at(s, next)->Ok_0.0;
            assert(fields == seq![first] + rest);
            assert forall|i: int|
                #![trigger field_start(s, p, i as nat)]
                0 <= i < fields.len() implies (field_at(s, field_start(s, p, i as nat)) matches Ok(
                (field, _),
            ) && field == fields[i]) by {
                if i > 0 {
                    lemma_field_start_shift(s, p, next, (i - 1) as nat);
                    assert(((i - 1) as nat + 1) as nat == i as nat);
                    assert(fields[i] == rest[i - 1]);
                }
            }
        },
        Err(_) => {
            assert(fields == seq![first]);
        },
    }
}

/// Where the format line with the given index starts, when the lines from
/// `p` on are read one after another.
pub open spec fn line_start(s: Seq<u8>, p: int, index: nat) -> int
    decreases index,
{
    if index == 0 {
        p
    } else {
        match format_at(s, line_start(s, p, (index - 1) as nat)) {
            Ok((_, q)) => q,
            Err(_) => -1,
        }
    }
}

proof fn lemma_line_start_shift(s: Seq<u8>, p: int, q: int, index: nat)
    requires
        format_at(s, p) matches Ok((_, end)) && end == q,
    ensures
        line_start(s, p, index + 1) == line_start(s, q, index),
    decreases index,
{
    assert(line_start(s, p, 0) == p);
    assert(line_start(s, q, 0) == q);
    if index > 0 {
        lemma_line_start_shift(s, p, q, (index - 1) as nat);
        assert(line_start(s, p, index) == line_start(s, q, (index - 1) as nat));
    }
    assert(((index + 1) - 1) as nat == index);
}

/// A header with N format lines gives N record formats, and the one with
/// index i is what line i declares: the formats come in the order of their
/// lines, none is left out and none is added. The header ends with the
/// empty line after line N - 1.
pub proof fn lemma_formats_in_line_order(s: Seq<u8>, p: int)
    requires
        formats_at(s, p) is Ok,
    ensures
        formats_at(s, p)->Ok_0.0.len() >= 1,
        forall|i: int|
            #![trigger line_start(s, p, i as nat)]
            0 <= i < formats_at(s, p)->Ok_0.0.len() ==> (format_at(
                s,
                line_start(s, p, i as nat),
            ) matches Ok((format, _)) && format == formats_at(s, p)->Ok_0.0[i]),
        tag_at(s, line_start(s, p, formats_at(s, p)->Ok_0.0.len()), "\n"@) matches Ok((_, stop))
            && stop == formats_at(s, p)->Ok_0.1,
    decreases s.len() - p,
{
    let formats = formats_at(s, p)->Ok_0.0;
    let (first, q) = format_at(s, p)->Ok_0;
    assert(line_start(s, p, 0) == p);
    assert(line_start(s, p, 1) == q);
    if tag_at(s, q, "\n"@) is Err {
        lemma_format_advances(s, p);
        lemma_formats_in_line_order(s, q);
        let rest = formats_at(s, q)->Ok_0.0;
        assert(formats == seq![first] + rest);
        lemma_line_start_shift(s, p, q, rest.len());
        assert forall|i: int|
            #![trigger line_start(s, p, i as nat)]
            0 <= i < formats.len() implies (format_at(s, line_start(s, p, i as nat)) matches Ok(
            (format, _),
        ) && format == formats[i]) by {
            if i > 0 {
                lemma_line_start_shift(s, p, q, (i - 1) as nat);
                assert(((i - 1) as nat + 1) as nat == i as nat);
                assert(formats[i] == rest[i - 1]);
            }
        }
    } else {
        assert(formats == seq![first]);
    }
}

/// The node that the records from `p` on state to have written the file,
/// if the decoder gets to know one.
pub open spec fn stated_node(s: Seq<u8>, p: int, tags: Seq<u32>, ctx: Context) -> Option<NodeID>
    decreases s.len() - p,
    via stated_node_decreases
{
    match ctx.node_id {
        Some(node) => Some(node),
        None => match tagged_record_at(s, p, tags, ctx.dim()) {
            Err(_) => None,
            Ok((record, q)) => stated_node(s, q, tags, ctx.after(record)),
        },
    }
}

#[via_fn]
proof fn stated_node_decreases(s: Seq<u8>, p: int, tags: Seq<u32>, ctx: Context) {
    lemma_record_advances(s, p, tags, ctx.dim());
}

/// Where the node of the file is visible, or the file never states one, the
/// filter drops nothing: the records from `p` on are the same with and
/// without it.
pub proof fn lemma_visible_stream_unfiltered(
    s: Seq<u8>,
    p: int,
    tags: Seq<u32>,
    ctx: Context,
    nodes: Seq<NodeID>,
)
    requires
        stated_node(s, p, tags, ctx) matches Some(node) ==> nodes.contains(node),
    ensures
        records_from(s, p, tags, ctx, nodes, true) == records_from(s, p, tags, ctx, nodes, false),
    decreases s.len() - p,
{
    match tagged_record_at(s, p, tags, ctx.dim()) {
        Err(_) => {},
        Ok((record, q)) => {
            lemma_record_advances(s, p, tags, ctx.dim());
            let next = ctx.after(record);
            assert(stated_node(s, q, tags, next) == stated_node(s, p, tags, ctx));
            assert(retained(record, nodes, next.node_id));
            lemma_visible_stream_unfiltered(s, q, tags, next, nodes);
        },
    }
}

/// The node that a payload states to have written it, if any.
pub open spec fn payload_node(s: Seq<u8>) -> Option<NodeID> {
    match header_at(s) {
        Err(_) => None,
        Ok((formats, p)) => match tags_of(formats) {
            None => None,
            Some(tags) => stated_node(s, p, tags, Context::start()),
        },
    }
}

/// Filtering passes a local file through: when the node that wrote the
/// payload is one of the visible nodes, decoding with the filter gives what
/// decoding without it gives.
pub proof fn lemma_filter_passthrough(s: Seq<u8>, nodes: Seq<NodeID>)
    requires
        payload_node(s) matches Some(node) ==> nodes.contains(node),
    ensures
        payload_records(s, nodes, true) == payload_records(s, nodes, false),
        payload_result(s, nodes, true) == payload_result(s, nodes, false),
{
    match header_at(s) {
        Err(_) => {},
        Ok((formats, p)) => match tags_of(formats) {
            None => {},
            Some(tags) => {
                lemma_visible_stream_unfiltered(s, p, tags, Context::start(), nodes);
            },
        },
    }
}

/// How many records can be decoded one after another from `p` on.
pub open spec fn decodable(s: Seq<u8>, p: int, tags: Seq<u32>, ctx: Context) -> nat
    decreases s.len() - p,
    via decodable_decreases
{
    match tagged_record_at(s, p, tags, ctx.dim()) {
        Err(_) => 0,
        Ok((record, q)) => 1 + decodable(s, q, tags, ctx.after(record)),
    }
}

#[via_fn]
proof fn decodable_decreases(s: Seq<u8>, p: int, tags: Seq<u32>, ctx: Context) {
    lemma_record_advances(s, p, tags, ctx.dim());
}

/// Without the filter no record is lost: where decoding succeeds, it
/// returns as many records as could be decoded one after another.
pub proof fn lemma_unfiltered_keeps_all(
    s: Seq<u8>,
    p: int,
    tags: Seq<u32>,
    ctx: Context,
    nodes: Seq<NodeID>,
)
    ensures
        records_from(s, p, tags, ctx, nodes, false) matches Ok((records, _)) ==> records.len()
            == decodable(s, p, tags, ctx),
    decreases s.len() - p,
{
    match tagged_record_at(s, p, tags, ctx.dim()) {
        Err(_) => {},
        Ok((record, q)) => {
            lemma_record_advances(s, p, tags, ctx.dim());
            lemma_unfiltered_keeps_all(s, q, tags, ctx.after(record), nodes);
        },
    }
}

/// A payload is accepted only when decoding stops at its very end: where
/// it stops earlier, the bytes that remain make the payload fail.
pub proof fn lemma_full_consumption(s: Seq<u8>, nodes: Seq<NodeID>, filter: bool)
    ensures
        payload_records(s, nodes, filter) matches Ok((records, end)) ==> {
            &&& end == s.len() ==> payload_result(s, nodes, filter) == Ok::<
                Seq<RecordView>,
                FormatError,
            >(records)
            &&& end != s.len() ==> payload_result(s, nodes, filter) == Err::<
                Seq<RecordView>,
                FormatError,
            >(FormatError::TrailingBytes)
        },
{
}

} // verus!
