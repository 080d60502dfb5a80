//! The decoder of a whole log: header, tag binding, then one record after
//! another under the state that two of the record kinds set.

use crate::decode::{parse_payload, record_at};
use crate::error::{DeserializeError, FormatError};
use crate::filter::{filter_record, retained};
use crate::header::{header_at, parse_header, views};
use crate::ids::NodeID;
use crate::prims::{
    lemma_len_fits, parse_u32, same_view, u32_at, Parsed,
};
use crate::record::{Record, RecordView};
use crate::registry::{bound_kind, tags_of, Registry, KINDS};
use crate::stability::lemma_record_advances;
use vstd::prelude::*;

verus! {

/// What the decoder has learnt from the records read so far.
#[derive(Debug, Clone, Copy, PartialEq, Eq)]
pub struct Context {
    /// The dimensionality of the file, once a record has stated it.
    pub max_dim: Option<i32>,
    /// The node that wrote the file, once a record has stated it.
    pub node_id: Option<NodeID>,
}

impl Context {
    /// The state before the first record: nothing is known.
    pub open spec fn start() -> Context {
        Context { max_dim: None, node_id: None }
    }

    /// The dimensionality handed to the record decoders: a negative number
    /// while it is unknown.
    pub open spec fn dim(self) -> int {
        match self.max_dim {
            Some(d) => d as int,
            None => -1,
        }
    }

    /// The state after a record. The first record that states the
    /// dimensionality sets it, the first that states the node sets the node;
    /// later ones change nothing.
    pub open spec fn after(self, record: RecordView) -> Context {
        match record {
            RecordView::MaxDimDesc { max_dim } => if self.max_dim is None {
                Context { max_dim: Some(max_dim), node_id: self.node_id }
            } else {
                self
            },
            RecordView::MachineDesc { node_id, .. } => if self.node_id is None {
                Context { max_dim: self.max_dim, node_id: Some(node_id) }
            } else {
                self
            },
            _ => self,
        }
    }

    /// The state before the first record.
    pub fn new() -> (ctx: Context)
        ensures
            ctx == Context::start(),
    {
        Context { max_dim: None, node_id: None }
    }

    /// The dimensionality to decode composites with; negative while unknown.
    pub fn dimension(&self) -> (d: i32)
        ensures
            d as int == self.dim(),
    {
        match self.max_dim {
            Some(d) => d,
            None => -1,
        }
    }

    /// Takes note of a record that was just decoded.
    pub fn advance(&self, record: &Record) -> (next: Context)
        ensures
            next == self.after(record@),
    {
        match record {
            Record::MaxDimDesc { max_dim } => {
                if self.max_dim.is_none() {
                    Context { max_dim: Some(*max_dim), node_id: self.node_id }
                } else {
                    *self
                }
            },
            Record::MachineDesc { node_id, .. } => {
                if self.node_id.is_none() {
                    Context { max_dim: self.max_dim, node_id: Some(*node_id) }
                } else {
                    *self
                }
            },
            _ => *self,
        }
    }
}

/// A record at `p`: its tag, which must be bound to a kind, and the payload
/// of that kind.
pub open spec fn tagged_record_at(s: Seq<u8>, p: int, tags: Seq<u32>, dim: int) -> Parsed<
    RecordView,
> {
    if p + 4 > s.len() {
        Err(FormatError::ShortRead)
    } else {
        match bound_kind(tags, KINDS as int, u32_at(s, p)) {
            None => Err(FormatError::UnknownTag),
            Some(kind) => record_at(kind, s, p + 4, dim),
        }
    }
}

/// Decodes one record: the tag, then the payload of the kind that the tag
/// is bound to.
pub fn parse_record(input: &[u8], pos: usize, registry: &Registry, max_dim: i32) -> (res: Result<
    (Record, usize),
    FormatError,
>)
    requires
        registry.wf(),
    ensures
        same_view(res, tagged_record_at(input@, pos as int, registry.tags@, max_dim as int)),
        res matches Ok((_, end)) ==> pos < end <= input@.len(),
{
    let (tag, start) = parse_u32(input, pos)?;
    match registry.kind_of(tag) {
        None => Err(FormatError::UnknownTag),
        Some(kind) => parse_payload(kind, input, start, max_dim),
    }
}

/// True for the failures at which the decoder takes the records to be over.
pub open spec fn ends_stream(e: FormatError) -> bool {
    e == FormatError::ShortRead || e == FormatError::BadUtf8
}

/// The records from `p` on, in the order of their bytes and without those
/// that the filter drops, and the position at which decoding stops: the
/// first at which the input is too short for a record or a string is not
/// UTF-8. A tag that is bound to no kind, and a composite field met while
/// the dimensionality is unknown, are failures. Each record is filtered
/// under the state that it leaves behind.
pub open spec fn records_from(
    s: Seq<u8>,
    p: int,
    tags: Seq<u32>,
    ctx: Context,
    nodes: Seq<NodeID>,
    filter: bool,
) -> Parsed<Seq<RecordView>>
    decreases s.len() - p,
    via records_from_decreases
{
    match tagged_record_at(s, p, tags, ctx.dim()) {
        Err(e) => if ends_stream(e) {
            Ok((Seq::empty(), p))
        } else {
            Err(e)
        },
        Ok((record, q)) => {
            let next = ctx.after(record);
            match records_from(s, q, tags, next, nodes, filter) {
                Err(e) => Err(e),
                Ok((rest, end)) => Ok(
                    (
                        if !filter || retained(record, nodes, next.node_id) {
                            seq![record] + rest
                        } else {
                            rest
                        },
                        end,
                    ),
                ),
            }
        },
    }
}

#[via_fn]
proof fn records_from_decreases(
    s: Seq<u8>,
    p: int,
    tags: Seq<u32>,
    ctx: Context,
    nodes: Seq<NodeID>,
    filter: bool,
) {
    lemma_record_advances(s, p, tags, ctx.dim());
}

/// What a payload decodes to: the records and the position at which
/// decoding stopped.
pub open spec fn payload_records(s: Seq<u8>, nodes: Seq<NodeID>, filter: bool) -> Parsed<
    Seq<RecordView>,
> {
    match header_at(s) {
        Err(e) => Err(e),
        Ok((formats, p)) => match tags_of(formats) {
            None => Err(FormatError::MissingFormat),
            Some(tags) => records_from(s, p, tags, Context::start(), nodes, filter),
        },
    }
}

/// Decodes the header and then records for as long as one can be decoded.
/// Returns the position at which decoding stopped and the records, without
/// those that the filter drops when `filter_input` is set.
pub fn parse(input: &[u8], visible_nodes: &Vec<NodeID>, filter_input: bool) -> (res: Result<
    (usize, Vec<Record>),
    FormatError,
>)
    requires
        filter_input ==> visible_nodes@.len() > 0,
    ensures
        match payload_records(input@, visible_nodes@, filter_input) {
            Ok((records, end)) => res matches Ok((rest, found)) && views(found@) == records && rest
                == end && rest <= input@.len(),
            Err(e) => res == Err::<(usize, Vec<Record>), FormatError>(e),
        },
{
    let (formats, start) = parse_header(input)?;
    let registry = Registry::build(&formats)?;
    let ghost tags = registry.tags@;
    let ghost nodes = visible_nodes@;
    let ghost whole = records_from(input@, start as int, tags, Context::start(), nodes, filter_input);
    proof {
        lemma_len_fits(input);
    }
    let mut at: usize = start;
    let mut ctx = Context::new();
    let mut records: Vec<Record> = Vec::new();
    proof {
        match whole {
            Ok((rest, _)) => {
                assert(views(records@) + rest =~= rest);
            },
            Err(_) => {},
        }
    }
    loop
        invariant
            at <= input@.len(),
            registry.wf(),
            registry.tags@ == tags,
            nodes == visible_nodes@,
            filter_input ==> visible_nodes@.len() > 0,
            payload_records(input@, nodes, filter_input) == whole,
            match records_from(input@, at as int, tags, ctx, nodes, filter_input) {
                Ok((rest, end)) => whole == Ok::<(Seq<RecordView>, int), FormatError>(
                    (views(records@) + rest, end),
                ),
                Err(e) => whole == Err::<(Seq<RecordView>, int), FormatError>(e),
            },
        decreases input@.len() - at,
    {
        let ghost before = views(records@);
        match parse_record(input, at, &registry, ctx.dimension()) {
            Err(e) => {
                match e {
                    FormatError::ShortRead | FormatError::BadUtf8 => {
                        assert(before + Seq::<RecordView>::empty() =~= before);
                        return Ok((at, records));
                    },
                    _ => {
                        return Err(e);
                    },
                }
            },
            Ok((record, next)) => {
                ctx = ctx.advance(&record);
                let ghost shown = record@;
                let keep = !filter_input || filter_record(&record, visible_nodes, ctx.node_id);
                if keep {
                    records.push(record);
                    assert(views(records@) =~= before + seq![shown]);
                }
                proof {
                    match records_from(input@, next as int, tags, ctx, nodes, filter_input) {
                        Ok((rest, end)) => {
                            assert(before + (seq![shown] + rest) =~= (before + seq![shown]) + rest);
                        },
                        Err(_) => {},
                    }
                }
                at = next;
            },
        }
    }
}

/// What a complete payload decodes to: its records, when decoding stops
/// exactly at the end of the input.
pub open spec fn payload_result(s: Seq<u8>, nodes: Seq<NodeID>, filter: bool) -> Result<
    Seq<RecordView>,
    FormatError,
> {
    match payload_records(s, nodes, filter) {
        Err(e) => Err(e),
        Ok((records, end)) => if end == s.len() {
            Ok(records)
        } else {
            Err(FormatError::TrailingBytes)
        },
    }
}

/// Decodes a whole payload. Fails when bytes remain after the last record
/// that could be decoded.
pub fn decode_payload(input: &[u8], visible_nodes: &Vec<NodeID>, filter_input: bool) -> (res:
    Result<Vec<Record>, FormatError>)
    requires
        filter_input ==> visible_nodes@.len() > 0,
    ensures
        match payload_result(input@, visible_nodes@, filter_input) {
            Ok(records) => res matches Ok(found) && views(found@) == records,
            Err(e) => res == Err::<Vec<Record>, FormatError>(e),
        },
{
    let (rest, records) = parse(input, visible_nodes, filter_input)?;
    if rest != input.len() {
        return Err(FormatError::TrailingBytes);
    }
    Ok(records)
}

/// What `flate2::read::GzDecoder` reads out of a gzip stream, or nothing
/// when it reports an error.
pub uninterp spec fn gzip_payload(data: Seq<u8>) -> Option<Seq<u8>>;

/// Runs `flate2::read::GzDecoder` over the bytes and reads it to the end:
/// the decompressed bytes, or nothing when the decoder reports an error.
#[verifier::external_body]
fn gunzip(data: &[u8]) -> (res: Option<Vec<u8>>)
    ensures
        match gzip_payload(data@) {
            Some(bytes) => res matches Some(found) && found@ == bytes,
            None => res is None,
        },
{
    let mut bytes = Vec::new();
    match std::io::Read::read_to_end(&mut flate2::read::GzDecoder::new(data), &mut bytes) {
        Ok(_) => Some(bytes),
        Err(_) => None,
    }
}

/// Decodes a log as it lies in its file: a gzip stream around the payload.
pub fn deserialize(data: &[u8], visible_nodes: &Vec<NodeID>, filter_input: bool) -> (res: Result<
    Vec<Record>,
    DeserializeError,
>)
    requires
        filter_input ==> visible_nodes@.len() > 0,
    ensures
        match gzip_payload(data@) {
            None => res == Err::<Vec<Record>, DeserializeError>(DeserializeError::Container),
            Some(bytes) => match payload_result(bytes, visible_nodes@, filter_input) {
                Ok(records) => res matches Ok(found) && views(found@) == records,
                Err(e) => res == Err::<Vec<Record>, DeserializeError>(DeserializeError::Format(e)),
            },
        },
{
    match gunzip(data) {
        None => Err(DeserializeError::Container),
        Some(bytes) => match decode_payload(bytes.as_slice(), visible_nodes, filter_input) {
            Ok(records) => Ok(records),
            Err(e) => Err(DeserializeError::Format(e)),
        },
    }
}

} // verus!
