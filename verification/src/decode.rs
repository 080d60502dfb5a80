//! The decoder of each record kind: which fields its payload holds, in
//! which order, and the record they make.

use crate::error::FormatError;
use crate::ids::{
    EventID, FSpaceID, FieldID, IPartID, ISpaceID, InstID, InstUID, MapperCallKindID, MemID,
    NodeID, OpID, ProcID, RuntimeCallKindID, TaskID, Timestamp, TreeID, VariantID,
};
use crate::prims::{
    bool_at, fixed_at, i32_at, i64_at, parse_bool, parse_i32, parse_i64, parse_string,
    parse_u32, parse_u64, parse_words, same, same_view, text_at, u32_at, u64_at, words_at,
    Parsed,
};
use crate::record::{Array, Point, Record, RecordKind, RecordView};
use vstd::prelude::*;

verus! {

/// A bounding box at `pos`: two values for each of `max_dim` dimensions.
pub fn parse_array(input: &[u8], pos: usize, max_dim: i32) -> (res: Result<
    (Array, usize),
    FormatError,
>)
    ensures
        same_view(res, words_at(input@, pos as int, 2 * max_dim)),
        res matches Ok((_, end)) ==> pos <= end <= input@.len(),
{
    if max_dim < 0 {
        return Err(FormatError::DimensionUnknown);
    }
    let (values, next) = parse_words(input, pos, 2 * (max_dim as u64))?;
    Ok((Array(values), next))
}

/// A point at `pos`: one value for each of `max_dim` dimensions.
pub fn parse_point(input: &[u8], pos: usize, max_dim: i32) -> (res: Result<
    (Point, usize),
    FormatError,
>)
    ensures
        same_view(res, words_at(input@, pos as int, max_dim as int)),
        res matches Ok((_, end)) ==> pos <= end <= input@.len(),
{
    if max_dim < 0 {
        return Err(FormatError::DimensionUnknown);
    }
    let (values, next) = parse_words(input, pos, max_dim as u64)?;
    Ok((Point(values), next))
}

/// Reads the identifier of an event.
pub fn parse_event_id(input: &[u8], pos: usize) -> (res: Result<(EventID, usize), FormatError>)
    ensures
        same(res, fixed_at(input@, pos as int, 8, EventID(u64_at(input@, pos as int)))),
{
    let (raw, next) = parse_u64(input, pos)?;
    Ok((EventID(raw), next))
}

/// Reads the run-wide identifier of an instance.
pub fn parse_inst_uid(input: &[u8], pos: usize) -> (res: Result<(InstUID, usize), FormatError>)
    ensures
        same(res, fixed_at(input@, pos as int, 8, InstUID(u64_at(input@, pos as int)))),
{
    let (raw, next) = parse_u64(input, pos)?;
    Ok((InstUID(raw), next))
}

/// Reads the identifier of an instance.
pub fn parse_inst_id(input: &[u8], pos: usize) -> (res: Result<(InstID, usize), FormatError>)
    ensures
        same(res, fixed_at(input@, pos as int, 8, InstID(u64_at(input@, pos as int)))),
{
    let (raw, next) = parse_u64(input, pos)?;
    Ok((InstID(raw), next))
}

/// Reads the identifier of an index partition.
pub fn parse_ipart_id(input: &[u8], pos: usize) -> (res: Result<(IPartID, usize), FormatError>)
    ensures
        same(res, fixed_at(input@, pos as int, 8, IPartID(u64_at(input@, pos as int)))),
{
    let (raw, next) = parse_u64(input, pos)?;
    Ok((IPartID(raw), next))
}

/// Reads the identifier of an index space.
pub fn parse_ispace_id(input: &[u8], pos: usize) -> (res: Result<(ISpaceID, usize), FormatError>)
    ensures
        same(res, fixed_at(input@, pos as int, 8, ISpaceID(u64_at(input@, pos as int)))),
{
    let (raw, next) = parse_u64(input, pos)?;
    Ok((ISpaceID(raw), next))
}

/// Reads the identifier of a field space.
pub fn parse_fspace_id(input: &[u8], pos: usize) -> (res: Result<(FSpaceID, usize), FormatError>)
    ensures
        same(res, fixed_at(input@, pos as int, 8, FSpaceID(u64_at(input@, pos as int)))),
{
    let (raw, next) = parse_u64(input, pos)?;
    Ok((FSpaceID(raw), next))
}

/// Reads the identifier of a field.
pub fn parse_field_id(input: &[u8], pos: usize) -> (res: Result<(FieldID, usize), FormatError>)
    ensures
        same(res, fixed_at(input@, pos as int, 4, FieldID(u32_at(input@, pos as int)))),
{
    let (raw, next) = parse_u32(input, pos)?;
    Ok((FieldID(raw), next))
}

/// Reads the identifier of a region tree.
pub fn parse_tree_id(input: &[u8], pos: usize) -> (res: Result<(TreeID, usize), FormatError>)
    ensures
        same(res, fixed_at(input@, pos as int, 4, TreeID(u32_at(input@, pos as int)))),
{
    let (raw, next) = parse_u32(input, pos)?;
    Ok((TreeID(raw), next))
}

/// Reads the identifier of a kind of mapper call.
pub fn parse_mapper_call_kind_id(input: &[u8], pos: usize) -> (res: Result<(MapperCallKindID, usize), FormatError>)
    ensures
        same(res, fixed_at(input@, pos as int, 4, MapperCallKindID(u32_at(input@, pos as int)))),
{
    let (raw, next) = parse_u32(input, pos)?;
    Ok((MapperCallKindID(raw), next))
}

/// Reads the identifier of a memory.
pub fn parse_mem_id(input: &[u8], pos: usize) -> (res: Result<(MemID, usize), FormatError>)
    ensures
        same(res, fixed_at(input@, pos as int, 8, MemID(u64_at(input@, pos as int)))),
{
    let (raw, next) = parse_u64(input, pos)?;
    Ok((MemID(raw), next))
}

/// Reads the identifier of an operation.
pub fn parse_op_id(input: &[u8], pos: usize) -> (res: Result<(OpID, usize), FormatError>)
    ensures
        same(res, fixed_at(input@, pos as int, 8, OpID(u64_at(input@, pos as int)))),
{
    let (raw, next) = parse_u64(input, pos)?;
    Ok((OpID(raw), next))
}

/// Reads the identifier of a processor.
pub fn parse_proc_id(input: &[u8], pos: usize) -> (res: Result<(ProcID, usize), FormatError>)
    ensures
        same(res, fixed_at(input@, pos as int, 8, ProcID(u64_at(input@, pos as int)))),
{
    let (raw, next) = parse_u64(input, pos)?;
    Ok((ProcID(raw), next))
}

/// Reads the identifier of a kind of runtime call.
pub fn parse_runtime_call_kind_id(input: &[u8], pos: usize) -> (res: Result<(RuntimeCallKindID, usize), FormatError>)
    ensures
        same(res, fixed_at(input@, pos as int, 4, RuntimeCallKindID(u32_at(input@, pos as int)))),
{
    let (raw, next) = parse_u32(input, pos)?;
    Ok((RuntimeCallKindID(raw), next))
}

/// Reads the identifier of a task.
pub fn parse_task_id(input: &[u8], pos: usize) -> (res: Result<(TaskID, usize), FormatError>)
    ensures
        same(res, fixed_at(input@, pos as int, 4, TaskID(u32_at(input@, pos as int)))),
{
    let (raw, next) = parse_u32(input, pos)?;
    Ok((TaskID(raw), next))
}

/// Reads a point in time.
pub fn parse_timestamp(input: &[u8], pos: usize) -> (res: Result<(Timestamp, usize), FormatError>)
    ensures
        same(res, fixed_at(input@, pos as int, 8, Timestamp(u64_at(input@, pos as int)))),
{
    let (raw, next) = parse_u64(input, pos)?;
    Ok((Timestamp(raw), next))
}

/// Reads the identifier of a task variant.
pub fn parse_variant_id(input: &[u8], pos: usize) -> (res: Result<(VariantID, usize), FormatError>)
    ensures
        same(res, fixed_at(input@, pos as int, 4, VariantID(u32_at(input@, pos as int)))),
{
    let (raw, next) = parse_u32(input, pos)?;
    Ok((VariantID(raw), next))
}

/// The record of the given kind whose payload starts at `p`, and the position
/// after it, with `dim` as the dimensionality of the file.
#[verifier::opaque]
pub open spec fn record_at(kind: RecordKind, s: Seq<u8>, p: int, dim: int) -> Parsed<RecordView> {
    match kind {
        RecordKind::MapperCallDesc => if p + 4 > s.len() {
            Err(FormatError::ShortRead)
        } else {
            match text_at(s, p + 4) {
                Err(e) => Err(e),
                Ok((name, q)) => fixed_at(s, q, 0, RecordView::MapperCallDesc { kind: MapperCallKindID(u32_at(s, p)), name }),
            }
        },
        RecordKind::RuntimeCallDesc => if p + 4 > s.len() {
            Err(FormatError::ShortRead)
        } else {
            match text_at(s, p + 4) {
                Err(e) => Err(e),
                Ok((name, q)) => fixed_at(s, q, 0, RecordView::RuntimeCallDesc { kind: RuntimeCallKindID(u32_at(s, p)), name }),
            }
        },
        RecordKind::MetaDesc => if p + 6 > s.len() {
            Err(FormatError::ShortRead)
        } else {
            match text_at(s, p + 6) {
                Err(e) => Err(e),
                Ok((name, q)) => fixed_at(s, q, 0, RecordView::MetaDesc { kind: VariantID(u32_at(s, p)), message: bool_at(s, p + 4), ordered_vc: bool_at(s, p + 5), name }),
            }
        },
        RecordKind::OpDesc => if p + 4 > s.len() {
            Err(FormatError::ShortRead)
        } else {
            match text_at(s, p + 4) {
                Err(e) => Err(e),
                Ok((name, q)) => fixed_at(s, q, 0, RecordView::OpDesc { kind: u32_at(s, p), name }),
            }
        },
        RecordKind::MaxDimDesc => fixed_at(s, p, 4, RecordView::MaxDimDesc { max_dim: i32_at(s, p) }),
        RecordKind::MachineDesc => fixed_at(s, p, 8, RecordView::MachineDesc { node_id: NodeID(u32_at(s, p) as u64), num_nodes: u32_at(s, p + 4) }),
        RecordKind::ZeroTime => fixed_at(s, p, 8, RecordView::ZeroTime { zero_time: i64_at(s, p) }),
        RecordKind::ProcDesc => fixed_at(s, p, 12, RecordView::ProcDesc { proc_id: ProcID(u64_at(s, p)), kind: i32_at(s, p + 8) }),
        RecordKind::MemDesc => fixed_at(s, p, 20, RecordView::MemDesc { mem_id: MemID(u64_at(s, p)), kind: i32_at(s, p + 8), capacity: u64_at(s, p + 12) }),
        RecordKind::ProcMDesc => fixed_at(s, p, 24, RecordView::ProcMDesc { proc_id: ProcID(u64_at(s, p)), mem_id: MemID(u64_at(s, p + 8)), bandwidth: u32_at(s, p + 16), latency: u32_at(s, p + 20) }),
        RecordKind::IndexSpacePointDesc => if p + 12 > s.len() {
            Err(FormatError::ShortRead)
        } else {
            match words_at(s, p + 12, dim) {
                Err(e) => Err(e),
                Ok((rem, q)) => fixed_at(s, q, 0, RecordView::IndexSpacePointDesc { ispace_id: ISpaceID(u64_at(s, p)), dim: u32_at(s, p + 8), rem }),
            }
        },
        RecordKind::IndexSpaceRectDesc => if p + 12 > s.len() {
            Err(FormatError::ShortRead)
        } else {
            match words_at(s, p + 12, 2 * dim) {
                Err(e) => Err(e),
                Ok((rem, q)) => fixed_at(s, q, 0, RecordView::IndexSpaceRectDesc { ispace_id: ISpaceID(u64_at(s, p)), dim: u32_at(s, p + 8), rem }),
            }
        },
        RecordKind::IndexSpaceEmptyDesc => fixed_at(s, p, 8, RecordView::IndexSpaceEmptyDesc { ispace_id: ISpaceID(u64_at(s, p)) }),
        RecordKind::FieldDesc => if p + 20 > s.len() {
            Err(FormatError::ShortRead)
        } else {
            match text_at(s, p + 20) {
                Err(e) => Err(e),
                Ok((name, q)) => fixed_at(s, q, 0, RecordView::FieldDesc { fspace_id: FSpaceID(u64_at(s, p)), field_id: FieldID(u32_at(s, p + 8)), size: u64_at(s, p + 12), name }),
            }
        },
        RecordKind::FieldSpaceDesc => if p + 8 > s.len() {
            Err(FormatError::ShortRead)
        } else {
            match text_at(s, p + 8) {
                Err(e) => Err(e),
                Ok((name, q)) => fixed_at(s, q, 0, RecordView::FieldSpaceDesc { fspace_id: FSpaceID(u64_at(s, p)), name }),
            }
        },
        RecordKind::PartDesc => if p + 8 > s.len() {
            Err(FormatError::ShortRead)
        } else {
            match text_at(s, p + 8) {
                Err(e) => Err(e),
                Ok((name, q)) => fixed_at(s, q, 0, RecordView::PartDesc { unique_id: IPartID(u64_at(s, p)), name }),
            }
        },
        RecordKind::IndexSpaceDesc => if p + 8 > s.len() {
            Err(FormatError::ShortRead)
        } else {
            match text_at(s, p + 8) {
                Err(e) => Err(e),
                Ok((name, q)) => fixed_at(s, q, 0, RecordView::IndexSpaceDesc { ispace_id: ISpaceID(u64_at(s, p)), name }),
            }
        },
        RecordKind::IndexSubSpaceDesc => fixed_at(s, p, 16, RecordView::IndexSubSpaceDesc { parent_id: IPartID(u64_at(s, p)), ispace_id: ISpaceID(u64_at(s, p + 8)) }),
        RecordKind::IndexPartitionDesc => fixed_at(s, p, 25, RecordView::IndexPartitionDesc { parent_id: ISpaceID(u64_at(s, p)), unique_id: IPartID(u64_at(s, p + 8)), disjoint: bool_at(s, p + 16), point0: u64_at(s, p + 17) }),
        RecordKind::IndexSpaceSizeDesc => fixed_at(s, p, 25, RecordView::IndexSpaceSizeDesc { ispace_id: ISpaceID(u64_at(s, p)), dense_size: u64_at(s, p + 8), sparse_size: u64_at(s, p + 16), is_sparse: bool_at(s, p + 24) }),
        RecordKind::LogicalRegionDesc => if p + 16 > s.len() {
            Err(FormatError::ShortRead)
        } else {
            match text_at(s, p + 16) {
                Err(e) => Err(e),
                Ok((name, q)) => fixed_at(s, q, 0, RecordView::LogicalRegionDesc { ispace_id: ISpaceID(u64_at(s, p)), fspace_id: u32_at(s, p + 8), tree_id: TreeID(u32_at(s, p + 12)), name }),
            }
        },
        RecordKind::PhysicalInstRegionDesc => fixed_at(s, p, 24, RecordView::PhysicalInstRegionDesc { inst_uid: InstUID(u64_at(s, p)), ispace_id: ISpaceID(u64_at(s, p + 8)), fspace_id: u32_at(s, p + 16), tree_id: TreeID(u32_at(s, p + 20)) }),
        RecordKind::PhysicalInstLayoutDesc => fixed_at(s, p, 25, RecordView::PhysicalInstLayoutDesc { inst_uid: InstUID(u64_at(s, p)), field_id: FieldID(u32_at(s, p + 8)), fspace_id: u32_at(s, p + 12), has_align: bool_at(s, p + 16), eqk: u32_at(s, p + 17), align_desc: u32_at(s, p + 21) }),
        RecordKind::PhysicalInstDimOrderDesc => fixed_at(s, p, 16, RecordView::PhysicalInstDimOrderDesc { inst_uid: InstUID(u64_at(s, p)), dim: u32_at(s, p + 8), dim_kind: u32_at(s, p + 12) }),
        RecordKind::PhysicalInstanceUsage => fixed_at(s, p, 24, RecordView::PhysicalInstanceUsage { inst_uid: InstUID(u64_at(s, p)), op_id: OpID(u64_at(s, p + 8)), index_id: u32_at(s, p + 16), field_id: FieldID(u32_at(s, p + 20)) }),
        RecordKind::TaskKind => if p + 4 > s.len() {
            Err(FormatError::ShortRead)
        } else {
            match text_at(s, p + 4) {
                Err(e) => Err(e),
                Ok((name, q)) => fixed_at(s, q, 1, RecordView::TaskKind { task_id: TaskID(u32_at(s, p)), name, overwrite: bool_at(s, q) }),
            }
        },
        RecordKind::TaskVariant => if p + 8 > s.len() {
            Err(FormatError::ShortRead)
        } else {
            match text_at(s, p + 8) {
                Err(e) => Err(e),
                Ok((name, q)) => fixed_at(s, q, 0, RecordView::TaskVariant { task_id: TaskID(u32_at(s, p)), variant_id: VariantID(u32_at(s, p + 4)), name }),
            }
        },
        RecordKind::OperationInstance => if p + 20 > s.len() {
            Err(FormatError::ShortRead)
        } else {
            match text_at(s, p + 20) {
                Err(e) => Err(e),
                Ok((provenance, q)) => fixed_at(s, q, 0, RecordView::OperationInstance { op_id: OpID(u64_at(s, p)), parent_id: OpID(u64_at(s, p + 8)), kind: u32_at(s, p + 16), provenance }),
            }
        },
        RecordKind::MultiTask => fixed_at(s, p, 12, RecordView::MultiTask { op_id: OpID(u64_at(s, p)), task_id: TaskID(u32_at(s, p + 8)) }),
        RecordKind::SliceOwner => fixed_at(s, p, 16, RecordView::SliceOwner { parent_id: u64_at(s, p), op_id: OpID(u64_at(s, p + 8)) }),
        RecordKind::TaskWaitInfo => fixed_at(s, p, 40, RecordView::TaskWaitInfo { op_id: OpID(u64_at(s, p)), task_id: TaskID(u32_at(s, p + 8)), variant_id: VariantID(u32_at(s, p + 12)), wait_start: Timestamp(u64_at(s, p + 16)), wait_ready: Timestamp(u64_at(s, p + 24)), wait_end: Timestamp(u64_at(s, p + 32)) }),
        RecordKind::MetaWaitInfo => fixed_at(s, p, 36, RecordView::MetaWaitInfo { op_id: OpID(u64_at(s, p)), lg_id: VariantID(u32_at(s, p + 8)), wait_start: Timestamp(u64_at(s, p + 12)), wait_ready: Timestamp(u64_at(s, p + 20)), wait_end: Timestamp(u64_at(s, p + 28)) }),
        RecordKind::TaskInfo => fixed_at(s, p, 64, RecordView::TaskInfo { op_id: OpID(u64_at(s, p)), task_id: TaskID(u32_at(s, p + 8)), variant_id: VariantID(u32_at(s, p + 12)), proc_id: ProcID(u64_at(s, p + 16)), create: Timestamp(u64_at(s, p + 24)), ready: Timestamp(u64_at(s, p + 32)), start: Timestamp(u64_at(s, p + 40)), stop: Timestamp(u64_at(s, p + 48)), fevent: EventID(u64_at(s, p + 56)) }),
        RecordKind::GPUTaskInfo => fixed_at(s, p, 80, RecordView::GPUTaskInfo { op_id: OpID(u64_at(s, p)), task_id: TaskID(u32_at(s, p + 8)), variant_id: VariantID(u32_at(s, p + 12)), proc_id: ProcID(u64_at(s, p + 16)), create: Timestamp(u64_at(s, p + 24)), ready: Timestamp(u64_at(s, p + 32)), start: Timestamp(u64_at(s, p + 40)), stop: Timestamp(u64_at(s, p + 48)), gpu_start: Timestamp(u64_at(s, p + 56)), gpu_stop: Timestamp(u64_at(s, p + 64)), fevent: EventID(u64_at(s, p + 72)) }),
        RecordKind::MetaInfo => fixed_at(s, p, 60, RecordView::MetaInfo { op_id: OpID(u64_at(s, p)), lg_id: VariantID(u32_at(s, p + 8)), proc_id: ProcID(u64_at(s, p + 12)), create: Timestamp(u64_at(s, p + 20)), ready: Timestamp(u64_at(s, p + 28)), start: Timestamp(u64_at(s, p + 36)), stop: Timestamp(u64_at(s, p + 44)), fevent: EventID(u64_at(s, p + 52)) }),
        RecordKind::CopyInfo => fixed_at(s, p, 60, RecordView::CopyInfo { op_id: OpID(u64_at(s, p)), size: u64_at(s, p + 8), create: Timestamp(u64_at(s, p + 16)), ready: Timestamp(u64_at(s, p + 24)), start: Timestamp(u64_at(s, p + 32)), stop: Timestamp(u64_at(s, p + 40)), fevent: EventID(u64_at(s, p + 48)), collective: u32_at(s, p + 56) }),
        RecordKind::CopyInstInfo => fixed_at(s, p, 53, RecordView::CopyInstInfo { src: MemID(u64_at(s, p)), dst: MemID(u64_at(s, p + 8)), src_fid: FieldID(u32_at(s, p + 16)), dst_fid: FieldID(u32_at(s, p + 20)), src_inst: InstUID(u64_at(s, p + 24)), dst_inst: InstUID(u64_at(s, p + 32)), fevent: EventID(u64_at(s, p + 40)), num_hops: u32_at(s, p + 48), indirect: bool_at(s, p + 52) }),
        RecordKind::FillInfo => fixed_at(s, p, 56, RecordView::FillInfo { op_id: OpID(u64_at(s, p)), size: u64_at(s, p + 8), create: Timestamp(u64_at(s, p + 16)), ready: Timestamp(u64_at(s, p + 24)), start: Timestamp(u64_at(s, p + 32)), stop: Timestamp(u64_at(s, p + 40)), fevent: EventID(u64_at(s, p + 48)) }),
        RecordKind::FillInstInfo => fixed_at(s, p, 28, RecordView::FillInstInfo { dst: MemID(u64_at(s, p)), fid: FieldID(u32_at(s, p + 8)), dst_inst: InstUID(u64_at(s, p + 12)), fevent: EventID(u64_at(s, p + 20)) }),
        RecordKind::InstTimelineInfo => fixed_at(s, p, 64, RecordView::InstTimelineInfo { inst_uid: InstUID(u64_at(s, p)), inst_id: InstID(u64_at(s, p + 8)), mem_id: MemID(u64_at(s, p + 16)), size: u64_at(s, p + 24), op_id: OpID(u64_at(s, p + 32)), create: Timestamp(u64_at(s, p + 40)), ready: Timestamp(u64_at(s, p + 48)), destroy: Timestamp(u64_at(s, p + 56)) }),
        RecordKind::PartitionInfo => fixed_at(s, p, 44, RecordView::PartitionInfo { op_id: OpID(u64_at(s, p)), part_op: i32_at(s, p + 8), create: Timestamp(u64_at(s, p + 12)), ready: Timestamp(u64_at(s, p + 20)), start: Timestamp(u64_at(s, p + 28)), stop: Timestamp(u64_at(s, p + 36)) }),
        RecordKind::MapperCallInfo => fixed_at(s, p, 44, RecordView::MapperCallInfo { kind: MapperCallKindID(u32_at(s, p)), op_id: OpID(u64_at(s, p + 4)), start: Timestamp(u64_at(s, p + 12)), stop: Timestamp(u64_at(s, p + 20)), proc_id: ProcID(u64_at(s, p + 28)), fevent: EventID(u64_at(s, p + 36)) }),
        RecordKind::RuntimeCallInfo => fixed_at(s, p, 36, RecordView::RuntimeCallInfo { kind: RuntimeCallKindID(u32_at(s, p)), start: Timestamp(u64_at(s, p + 4)), stop: Timestamp(u64_at(s, p + 12)), proc_id: ProcID(u64_at(s, p + 20)), fevent: EventID(u64_at(s, p + 28)) }),
        RecordKind::ProfTaskInfo => fixed_at(s, p, 40, RecordView::ProfTaskInfo { proc_id: ProcID(u64_at(s, p)), op_id: OpID(u64_at(s, p + 8)), start: Timestamp(u64_at(s, p + 16)), stop: Timestamp(u64_at(s, p + 24)), fevent: EventID(u64_at(s, p + 32)) }),
    }
}

/// Decodes the payload of a `MapperCallDesc` record.
pub fn parse_mapper_call_desc(input: &[u8], pos: usize, max_dim: i32) -> (res: Result<
    (Record, usize),
    FormatError,
>)
    ensures
        same_view(res, record_at(RecordKind::MapperCallDesc, input@, pos as int, max_dim as int)),
        res matches Ok((_, end)) ==> pos <= end <= input@.len(),
{
    reveal(record_at);
    let (kind, pos) = parse_mapper_call_kind_id(input, pos)?;
    let (name, pos) = parse_string(input, pos)?;
    Ok((Record::MapperCallDesc { kind, name }, pos))
}

/// Decodes the payload of a `RuntimeCallDesc` record.
pub fn parse_runtime_call_desc(input: &[u8], pos: usize, max_dim: i32) -> (res: Result<
    (Record, usize),
    FormatError,
>)
    ensures
        same_view(res, record_at(RecordKind::RuntimeCallDesc, input@, pos as int, max_dim as int)),
        res matches Ok((_, end)) ==> pos <= end <= input@.len(),
{
    reveal(record_at);
    let (kind, pos) = parse_runtime_call_kind_id(input, pos)?;
    let (name, pos) = parse_string(input, pos)?;
    Ok((Record::RuntimeCallDesc { kind, name }, pos))
}

/// Decodes the payload of a `MetaDesc` record.
pub fn parse_meta_desc(input: &[u8], pos: usize, max_dim: i32) -> (res: Result<
    (Record, usize),
    FormatError,
>)
    ensures
        same_view(res, record_at(RecordKind::MetaDesc, input@, pos as int, max_dim as int)),
        res matches Ok((_, end)) ==> pos <= end <= input@.len(),
{
    reveal(record_at);
    let (kind, pos) = parse_variant_id(input, pos)?;
    let (message, pos) = parse_bool(input, pos)?;
    let (ordered_vc, pos) = parse_bool(input, pos)?;
    let (name, pos) = parse_string(input, pos)?;
    Ok((Record::MetaDesc { kind, message, ordered_vc, name }, pos))
}

/// Decodes the payload of a `OpDesc` record.
pub fn parse_op_desc(input: &[u8], pos: usize, max_dim: i32) -> (res: Result<
    (Record, usize),
    FormatError,
>)
    ensures
        same_view(res, record_at(RecordKind::OpDesc, input@, pos as int, max_dim as int)),
        res matches Ok((_, end)) ==> pos <= end <= input@.len(),
{
    reveal(record_at);
    let (kind, pos) = parse_u32(input, pos)?;
    let (name, pos) = parse_string(input, pos)?;
    Ok((Record::OpDesc { kind, name }, pos))
}

/// Decodes the payload of a `MaxDimDesc` record.
pub fn parse_max_dim_desc(input: &[u8], pos: usize, max_dim: i32) -> (res: Result<
    (Record, usize),
    FormatError,
>)
    ensures
        same_view(res, record_at(RecordKind::MaxDimDesc, input@, pos as int, max_dim as int)),
        res matches Ok((_, end)) ==> pos <= end <= input@.len(),
{
    reveal(record_at);
    let (max_dim, pos) = parse_i32(input, pos)?;
    Ok((Record::MaxDimDesc { max_dim }, pos))
}

/// Decodes the payload of a `MachineDesc` record.
pub fn parse_machine_desc(input: &[u8], pos: usize, max_dim: i32) -> (res: Result<
    (Record, usize),
    FormatError,
>)
    ensures
        same_view(res, record_at(RecordKind::MachineDesc, input@, pos as int, max_dim as int)),
        res matches Ok((_, end)) ==> pos <= end <= input@.len(),
{
    reveal(record_at);
    let (raw_node, pos) = parse_u32(input, pos)?;
    let node_id = NodeID(raw_node as u64);
    let (num_nodes, pos) = parse_u32(input, pos)?;
    Ok((Record::MachineDesc { node_id, num_nodes }, pos))
}

/// Decodes the payload of a `ZeroTime` record.
pub fn parse_zero_time(input: &[u8], pos: usize, max_dim: i32) -> (res: Result<
    (Record, usize),
    FormatError,
>)
    ensures
        same_view(res, record_at(RecordKind::ZeroTime, input@, pos as int, max_dim as int)),
        res matches Ok((_, end)) ==> pos <= end <= input@.len(),
{
    reveal(record_at);
    let (zero_time, pos) = parse_i64(input, pos)?;
    Ok((Record::ZeroTime { zero_time }, pos))
}

/// Decodes the payload of a `ProcDesc` record.
pub fn parse_proc_desc(input: &[u8], pos: usize, max_dim: i32) -> (res: Result<
    (Record, usize),
    FormatError,
>)
    ensures
        same_view(res, record_at(RecordKind::ProcDesc, input@, pos as int, max_dim as int)),
        res matches Ok((_, end)) ==> pos <= end <= input@.len(),
{
    reveal(record_at);
    let (proc_id, pos) = parse_proc_id(input, pos)?;
    let (kind, pos) = parse_i32(input, pos)?;
    Ok((Record::ProcDesc { proc_id, kind }, pos))
}

/// Decodes the payload of a `MemDesc` record.
pub fn parse_mem_desc(input: &[u8], pos: usize, max_dim: i32) -> (res: Result<
    (Record, usize),
    FormatError,
>)
    ensures
        same_view(res, record_at(RecordKind::MemDesc, input@, pos as int, max_dim as int)),
        res matches Ok((_, end)) ==> pos <= end <= input@.len(),
{
    reveal(record_at);
    let (mem_id, pos) = parse_mem_id(input, pos)?;
    let (kind, pos) = parse_i32(input, pos)?;
    let (capacity, pos) = parse_u64(input, pos)?;
    Ok((Record::MemDesc { mem_id, kind, capacity }, pos))
}

/// Decodes the payload of a `ProcMDesc` record.
pub fn parse_mem_proc_affinity_desc(input: &[u8], pos: usize, max_dim: i32) -> (res: Result<
    (Record, usize),
    FormatError,
>)
    ensures
        same_view(res, record_at(RecordKind::ProcMDesc, input@, pos as int, max_dim as int)),
        res matches Ok((_, end)) ==> pos <= end <= input@.len(),
{
    reveal(record_at);
    let (proc_id, pos) = parse_proc_id(input, pos)?;
    let (mem_id, pos) = parse_mem_id(input, pos)?;
    let (bandwidth, pos) = parse_u32(input, pos)?;
    let (latency, pos) = parse_u32(input, pos)?;
    Ok((Record::ProcMDesc { proc_id, mem_id, bandwidth, latency }, pos))
}

/// Decodes the payload of a `IndexSpacePointDesc` record.
pub fn parse_index_space_point_desc(input: &[u8], pos: usize, max_dim: i32) -> (res: Result<
    (Record, usize),
    FormatError,
>)
    ensures
        same_view(res, record_at(RecordKind::IndexSpacePointDesc, input@, pos as int, max_dim as int)),
        res matches Ok((_, end)) ==> pos <= end <= input@.len(),
{
    reveal(record_at);
    let (ispace_id, pos) = parse_ispace_id(input, pos)?;
    let (dim, pos) = parse_u32(input, pos)?;
    let (rem, pos) = parse_point(input, pos, max_dim)?;
    Ok((Record::IndexSpacePointDesc { ispace_id, dim, rem }, pos))
}

/// Decodes the payload of a `IndexSpaceRectDesc` record.
pub fn parse_index_space_rect_desc(input: &[u8], pos: usize, max_dim: i32) -> (res: Result<
    (Record, usize),
    FormatError,
>)
    ensures
        same_view(res, record_at(RecordKind::IndexSpaceRectDesc, input@, pos as int, max_dim as int)),
        res matches Ok((_, end)) ==> pos <= end <= input@.len(),
{
    reveal(record_at);
    let (ispace_id, pos) = parse_ispace_id(input, pos)?;
    let (dim, pos) = parse_u32(input, pos)?;
    let (rem, pos) = parse_array(input, pos, max_dim)?;
    Ok((Record::IndexSpaceRectDesc { ispace_id, dim, rem }, pos))
}

/// Decodes the payload of a `IndexSpaceEmptyDesc` record.
pub fn parse_index_space_empty_desc(input: &[u8], pos: usize, max_dim: i32) -> (res: Result<
    (Record, usize),
    FormatError,
>)
    ensures
        same_view(res, record_at(RecordKind::IndexSpaceEmptyDesc, input@, pos as int, max_dim as int)),
        res matches Ok((_, end)) ==> pos <= end <= input@.len(),
{
    reveal(record_at);
    let (ispace_id, pos) = parse_ispace_id(input, pos)?;
    Ok((Record::IndexSpaceEmptyDesc { ispace_id }, pos))
}

/// Decodes the payload of a `FieldDesc` record.
pub fn parse_field_desc(input: &[u8], pos: usize, max_dim: i32) -> (res: Result<
    (Record, usize),
    FormatError,
>)
    ensures
        same_view(res, record_at(RecordKind::FieldDesc, input@, pos as int, max_dim as int)),
        res matches Ok((_, end)) ==> pos <= end <= input@.len(),
{
    reveal(record_at);
    let (fspace_id, pos) = parse_fspace_id(input, pos)?;
    let (field_id, pos) = parse_field_id(input, pos)?;
    let (size, pos) = parse_u64(input, pos)?;
    let (name, pos) = parse_string(input, pos)?;
    Ok((Record::FieldDesc { fspace_id, field_id, size, name }, pos))
}

/// Decodes the payload of a `FieldSpaceDesc` record.
pub fn parse_field_space_desc(input: &[u8], pos: usize, max_dim: i32) -> (res: Result<
    (Record, usize),
    FormatError,
>)
    ensures
        same_view(res, record_at(RecordKind::FieldSpaceDesc, input@, pos as int, max_dim as int)),
        res matches Ok((_, end)) ==> pos <= end <= input@.len(),
{
    reveal(record_at);
    let (fspace_id, pos) = parse_fspace_id(input, pos)?;
    let (name, pos) = parse_string(input, pos)?;
    Ok((Record::FieldSpaceDesc { fspace_id, name }, pos))
}

/// Decodes the payload of a `PartDesc` record.
pub fn parse_part_desc(input: &[u8], pos: usize, max_dim: i32) -> (res: Result<
    (Record, usize),
    FormatError,
>)
    ensures
        same_view(res, record_at(RecordKind::PartDesc, input@, pos as int, max_dim as int)),
        res matches Ok((_, end)) ==> pos <= end <= input@.len(),
{
    reveal(record_at);
    let (unique_id, pos) = parse_ipart_id(input, pos)?;
    let (name, pos) = parse_string(input, pos)?;
    Ok((Record::PartDesc { unique_id, name }, pos))
}

/// Decodes the payload of a `IndexSpaceDesc` record.
pub fn parse_index_space_desc(input: &[u8], pos: usize, max_dim: i32) -> (res: Result<
    (Record, usize),
    FormatError,
>)
    ensures
        same_view(res, record_at(RecordKind::IndexSpaceDesc, input@, pos as int, max_dim as int)),
        res matches Ok((_, end)) ==> pos <= end <= input@.len(),
{
    reveal(record_at);
    let (ispace_id, pos) = parse_ispace_id(input, pos)?;
    let (name, pos) = parse_string(input, pos)?;
    Ok((Record::IndexSpaceDesc { ispace_id, name }, pos))
}

/// Decodes the payload of a `IndexSubSpaceDesc` record.
pub fn parse_index_subspace_desc(input: &[u8], pos: usize, max_dim: i32) -> (res: Result<
    (Record, usize),
    FormatError,
>)
    ensures
        same_view(res, record_at(RecordKind::IndexSubSpaceDesc, input@, pos as int, max_dim as int)),
        res matches Ok((_, end)) ==> pos <= end <= input@.len(),
{
    reveal(record_at);
    let (parent_id, pos) = parse_ipart_id(input, pos)?;
    let (ispace_id, pos) = parse_ispace_id(input, pos)?;
    Ok((Record::IndexSubSpaceDesc { parent_id, ispace_id }, pos))
}

/// Decodes the payload of a `IndexPartitionDesc` record.
pub fn parse_index_partition_desc(input: &[u8], pos: usize, max_dim: i32) -> (res: Result<
    (Record, usize),
    FormatError,
>)
    ensures
        same_view(res, record_at(RecordKind::IndexPartitionDesc, input@, pos as int, max_dim as int)),
        res matches Ok((_, end)) ==> pos <= end <= input@.len(),
{
    reveal(record_at);
    let (parent_id, pos) = parse_ispace_id(input, pos)?;
    let (unique_id, pos) = parse_ipart_id(input, pos)?;
    let (disjoint, pos) = parse_bool(input, pos)?;
    let (point0, pos) = parse_u64(input, pos)?;
    Ok((Record::IndexPartitionDesc { parent_id, unique_id, disjoint, point0 }, pos))
}

/// Decodes the payload of a `IndexSpaceSizeDesc` record.
pub fn parse_index_space_size_desc(input: &[u8], pos: usize, max_dim: i32) -> (res: Result<
    (Record, usize),
    FormatError,
>)
    ensures
        same_view(res, record_at(RecordKind::IndexSpaceSizeDesc, input@, pos as int, max_dim as int)),
        res matches Ok((_, end)) ==> pos <= end <= input@.len(),
{
    reveal(record_at);
    let (ispace_id, pos) = parse_ispace_id(input, pos)?;
    let (dense_size, pos) = parse_u64(input, pos)?;
    let (sparse_size, pos) = parse_u64(input, pos)?;
    let (is_sparse, pos) = parse_bool(input, pos)?;
    Ok((Record::IndexSpaceSizeDesc { ispace_id, dense_size, sparse_size, is_sparse }, pos))
}

/// Decodes the payload of a `LogicalRegionDesc` record.
pub fn parse_logical_region_desc(input: &[u8], pos: usize, max_dim: i32) -> (res: Result<
    (Record, usize),
    FormatError,
>)
    ensures
        same_view(res, record_at(RecordKind::LogicalRegionDesc, input@, pos as int, max_dim as int)),
        res matches Ok((_, end)) ==> pos <= end <= input@.len(),
{
    reveal(record_at);
    let (ispace_id, pos) = parse_ispace_id(input, pos)?;
    let (fspace_id, pos) = parse_u32(input, pos)?;
    let (tree_id, pos) = parse_tree_id(input, pos)?;
    let (name, pos) = parse_string(input, pos)?;
    Ok((Record::LogicalRegionDesc { ispace_id, fspace_id, tree_id, name }, pos))
}

/// Decodes the payload of a `PhysicalInstRegionDesc` record.
pub fn parse_physical_inst_region_desc(input: &[u8], pos: usize, max_dim: i32) -> (res: Result<
    (Record, usize),
    FormatError,
>)
    ensures
        same_view(res, record_at(RecordKind::PhysicalInstRegionDesc, input@, pos as int, max_dim as int)),
        res matches Ok((_, end)) ==> pos <= end <= input@.len(),
{
    reveal(record_at);
    let (inst_uid, pos) = parse_inst_uid(input, pos)?;
    let (ispace_id, pos) = parse_ispace_id(input, pos)?;
    let (fspace_id, pos) = parse_u32(input, pos)?;
    let (tree_id, pos) = parse_tree_id(input, pos)?;
    Ok((Record::PhysicalInstRegionDesc { inst_uid, ispace_id, fspace_id, tree_id }, pos))
}

/// Decodes the payload of a `PhysicalInstLayoutDesc` record.
pub fn parse_physical_inst_layout_desc(input: &[u8], pos: usize, max_dim: i32) -> (res: Result<
    (Record, usize),
    FormatError,
>)
    ensures
        same_view(res, record_at(RecordKind::PhysicalInstLayoutDesc, input@, pos as int, max_dim as int)),
        res matches Ok((_, end)) ==> pos <= end <= input@.len(),
{
    reveal(record_at);
    let (inst_uid, pos) = parse_inst_uid(input, pos)?;
    let (field_id, pos) = parse_field_id(input, pos)?;
    let (fspace_id, pos) = parse_u32(input, pos)?;
    let (has_align, pos) = parse_bool(input, pos)?;
    let (eqk, pos) = parse_u32(input, pos)?;
    let (align_desc, pos) = parse_u32(input, pos)?;
    Ok((Record::PhysicalInstLayoutDesc { inst_uid, field_id, fspace_id, has_align, eqk, align_desc }, pos))
}

/// Decodes the payload of a `PhysicalInstDimOrderDesc` record.
pub fn parse_physical_inst_layout_dim_desc(input: &[u8], pos: usize, max_dim: i32) -> (res: Result<
    (Record, usize),
    FormatError,
>)
    ensures
        same_view(res, record_at(RecordKind::PhysicalInstDimOrderDesc, input@, pos as int, max_dim as int)),
        res matches Ok((_, end)) ==> pos <= end <= input@.len(),
{
    reveal(record_at);
    let (inst_uid, pos) = parse_inst_uid(input, pos)?;
    let (dim, pos) = parse_u32(input, pos)?;
    let (dim_kind, pos) = parse_u32(input, pos)?;
    Ok((Record::PhysicalInstDimOrderDesc { inst_uid, dim, dim_kind }, pos))
}

/// Decodes the payload of a `PhysicalInstanceUsage` record.
pub fn parse_physical_inst_usage(input: &[u8], pos: usize, max_dim: i32) -> (res: Result<
    (Record, usize),
    FormatError,
>)
    ensures
        same_view(res, record_at(RecordKind::PhysicalInstanceUsage, input@, pos as int, max_dim as int)),
        res matches Ok((_, end)) ==> pos <= end <= input@.len(),
{
    reveal(record_at);
    let (inst_uid, pos) = parse_inst_uid(input, pos)?;
    let (op_id, pos) = parse_op_id(input, pos)?;
    let (index_id, pos) = parse_u32(input, pos)?;
    let (field_id, pos) = parse_field_id(input, pos)?;
    Ok((Record::PhysicalInstanceUsage { inst_uid, op_id, index_id, field_id }, pos))
}

/// Decodes the payload of a `TaskKind` record.
pub fn parse_task_kind(input: &[u8], pos: usize, max_dim: i32) -> (res: Result<
    (Record, usize),
    FormatError,
>)
    ensures
        same_view(res, record_at(RecordKind::TaskKind, input@, pos as int, max_dim as int)),
        res matches Ok((_, end)) ==> pos <= end <= input@.len(),
{
    reveal(record_at);
    let (task_id, pos) = parse_task_id(input, pos)?;
    let (name, pos) = parse_string(input, pos)?;
    let (overwrite, pos) = parse_bool(input, pos)?;
    Ok((Record::TaskKind { task_id, name, overwrite }, pos))
}

/// Decodes the payload of a `TaskVariant` record.
pub fn parse_task_variant(input: &[u8], pos: usize, max_dim: i32) -> (res: Result<
    (Record, usize),
    FormatError,
>)
    ensures
        same_view(res, record_at(RecordKind::TaskVariant, input@, pos as int, max_dim as int)),
        res matches Ok((_, end)) ==> pos <= end <= input@.len(),
{
    reveal(record_at);
    let (task_id, pos) = parse_task_id(input, pos)?;
    let (variant_id, pos) = parse_variant_id(input, pos)?;
    let (name, pos) = parse_string(input, pos)?;
    Ok((Record::TaskVariant { task_id, variant_id, name }, pos))
}

/// Decodes the payload of a `OperationInstance` record.
pub fn parse_operation(input: &[u8], pos: usize, max_dim: i32) -> (res: Result<
    (Record, usize),
    FormatError,
>)
    ensures
        same_view(res, record_at(RecordKind::OperationInstance, input@, pos as int, max_dim as int)),
        res matches Ok((_, end)) ==> pos <= end <= input@.len(),
{
    reveal(record_at);
    let (op_id, pos) = parse_op_id(input, pos)?;
    let (parent_id, pos) = parse_op_id(input, pos)?;
    let (kind, pos) = parse_u32(input, pos)?;
    let (provenance, pos) = parse_string(input, pos)?;
    Ok((Record::OperationInstance { op_id, parent_id, kind, provenance }, pos))
}

/// Decodes the payload of a `MultiTask` record.
pub fn parse_multi_task(input: &[u8], pos: usize, max_dim: i32) -> (res: Result<
    (Record, usize),
    FormatError,
>)
    ensures
        same_view(res, record_at(RecordKind::MultiTask, input@, pos as int, max_dim as int)),
        res matches Ok((_, end)) ==> pos <= end <= input@.len(),
{
    reveal(record_at);
    let (op_id, pos) = parse_op_id(input, pos)?;
    let (task_id, pos) = parse_task_id(input, pos)?;
    Ok((Record::MultiTask { op_id, task_id }, pos))
}

/// Decodes the payload of a `SliceOwner` record.
pub fn parse_slice_owner(input: &[u8], pos: usize, max_dim: i32) -> (res: Result<
    (Record, usize),
    FormatError,
>)
    ensures
        same_view(res, record_at(RecordKind::SliceOwner, input@, pos as int, max_dim as int)),
        res matches Ok((_, end)) ==> pos <= end <= input@.len(),
{
    reveal(record_at);
    let (parent_id, pos) = parse_u64(input, pos)?;
    let (op_id, pos) = parse_op_id(input, pos)?;
    Ok((Record::SliceOwner { parent_id, op_id }, pos))
}

/// Decodes the payload of a `TaskWaitInfo` record.
pub fn parse_task_wait_info(input: &[u8], pos: usize, max_dim: i32) -> (res: Result<
    (Record, usize),
    FormatError,
>)
    ensures
        same_view(res, record_at(RecordKind::TaskWaitInfo, input@, pos as int, max_dim as int)),
        res matches Ok((_, end)) ==> pos <= end <= input@.len(),
{
    reveal(record_at);
    let (op_id, pos) = parse_op_id(input, pos)?;
    let (task_id, pos) = parse_task_id(input, pos)?;
    let (variant_id, pos) = parse_variant_id(input, pos)?;
    let (wait_start, pos) = parse_timestamp(input, pos)?;
    let (wait_ready, pos) = parse_timestamp(input, pos)?;
    let (wait_end, pos) = parse_timestamp(input, pos)?;
    Ok((Record::TaskWaitInfo { op_id, task_id, variant_id, wait_start, wait_ready, wait_end }, pos))
}

/// Decodes the payload of a `MetaWaitInfo` record.
pub fn parse_meta_wait_info(input: &[u8], pos: usize, max_dim: i32) -> (res: Result<
    (Record, usize),
    FormatError,
>)
    ensures
        same_view(res, record_at(RecordKind::MetaWaitInfo, input@, pos as int, max_dim as int)),
        res matches Ok((_, end)) ==> pos <= end <= input@.len(),
{
    reveal(record_at);
    let (op_id, pos) = parse_op_id(input, pos)?;
    let (lg_id, pos) = parse_variant_id(input, pos)?;
    let (wait_start, pos) = parse_timestamp(input, pos)?;
    let (wait_ready, pos) = parse_timestamp(input, pos)?;
    let (wait_end, pos) = parse_timestamp(input, pos)?;
    Ok((Record::MetaWaitInfo { op_id, lg_id, wait_start, wait_ready, wait_end }, pos))
}

/// Decodes the payload of a `TaskInfo` record.
pub fn parse_task_info(input: &[u8], pos: usize, max_dim: i32) -> (res: Result<
    (Record, usize),
    FormatError,
>)
    ensures
        same_view(res, record_at(RecordKind::TaskInfo, input@, pos as int, max_dim as int)),
        res matches Ok((_, end)) ==> pos <= end <= input@.len(),
{
    reveal(record_at);
    let (op_id, pos) = parse_op_id(input, pos)?;
    let (task_id, pos) = parse_task_id(input, pos)?;
    let (variant_id, pos) = parse_variant_id(input, pos)?;
    let (proc_id, pos) = parse_proc_id(input, pos)?;
    let (create, pos) = parse_timestamp(input, pos)?;
    let (ready, pos) = parse_timestamp(input, pos)?;
    let (start, pos) = parse_timestamp(input, pos)?;
    let (stop, pos) = parse_timestamp(input, pos)?;
    let (fevent, pos) = parse_event_id(input, pos)?;
    Ok((Record::TaskInfo { op_id, task_id, variant_id, proc_id, create, ready, start, stop, fevent }, pos))
}

/// Decodes the payload of a `GPUTaskInfo` record.
pub fn parse_gpu_task_info(input: &[u8], pos: usize, max_dim: i32) -> (res: Result<
    (Record, usize),
    FormatError,
>)
    ensures
        same_view(res, record_at(RecordKind::GPUTaskInfo, input@, pos as int, max_dim as int)),
        res matches Ok((_, end)) ==> pos <= end <= input@.len(),
{
    reveal(record_at);
    let (op_id, pos) = parse_op_id(input, pos)?;
    let (task_id, pos) = parse_task_id(input, pos)?;
    let (variant_id, pos) = parse_variant_id(input, pos)?;
    let (proc_id, pos) = parse_proc_id(input, pos)?;
    let (create, pos) = parse_timestamp(input, pos)?;
    let (ready, pos) = parse_timestamp(input, pos)?;
    let (start, pos) = parse_timestamp(input, pos)?;
    let (stop, pos) = parse_timestamp(input, pos)?;
    let (gpu_start, pos) = parse_timestamp(input, pos)?;
    let (gpu_stop, pos) = parse_timestamp(input, pos)?;
    let (fevent, pos) = parse_event_id(input, pos)?;
    Ok((Record::GPUTaskInfo { op_id, task_id, variant_id, proc_id, create, ready, start, stop, gpu_start, gpu_stop, fevent }, pos))
}

/// Decodes the payload of a `MetaInfo` record.
pub fn parse_meta_info(input: &[u8], pos: usize, max_dim: i32) -> (res: Result<
    (Record, usize),
    FormatError,
>)
    ensures
        same_view(res, record_at(RecordKind::MetaInfo, input@, pos as int, max_dim as int)),
        res matches Ok((_, end)) ==> pos <= end <= input@.len(),
{
    reveal(record_at);
    let (op_id, pos) = parse_op_id(input, pos)?;
    let (lg_id, pos) = parse_variant_id(input, pos)?;
    let (proc_id, pos) = parse_proc_id(input, pos)?;
    let (create, pos) = parse_timestamp(input, pos)?;
    let (ready, pos) = parse_timestamp(input, pos)?;
    let (start, pos) = parse_timestamp(input, pos)?;
    let (stop, pos) = parse_timestamp(input, pos)?;
    let (fevent, pos) = parse_event_id(input, pos)?;
    Ok((Record::MetaInfo { op_id, lg_id, proc_id, create, ready, start, stop, fevent }, pos))
}

/// Decodes the payload of a `CopyInfo` record.
pub fn parse_copy_info(input: &[u8], pos: usize, max_dim: i32) -> (res: Result<
    (Record, usize),
    FormatError,
>)
    ensures
        same_view(res, record_at(RecordKind::CopyInfo, input@, pos as int, max_dim as int)),
        res matches Ok((_, end)) ==> pos <= end <= input@.len(),
{
    reveal(record_at);
    let (op_id, pos) = parse_op_id(input, pos)?;
    let (size, pos) = parse_u64(input, pos)?;
    let (create, pos) = parse_timestamp(input, pos)?;
    let (ready, pos) = parse_timestamp(input, pos)?;
    let (start, pos) = parse_timestamp(input, pos)?;
    let (stop, pos) = parse_timestamp(input, pos)?;
    let (fevent, pos) = parse_event_id(input, pos)?;
    let (collective, pos) = parse_u32(input, pos)?;
    Ok((Record::CopyInfo { op_id, size, create, ready, start, stop, fevent, collective }, pos))
}

/// Decodes the payload of a `CopyInstInfo` record.
pub fn parse_copy_inst_info(input: &[u8], pos: usize, max_dim: i32) -> (res: Result<
    (Record, usize),
    FormatError,
>)
    ensures
        same_view(res, record_at(RecordKind::CopyInstInfo, input@, pos as int, max_dim as int)),
        res matches Ok((_, end)) ==> pos <= end <= input@.len(),
{
    reveal(record_at);
    let (src, pos) = parse_mem_id(input, pos)?;
    let (dst, pos) = parse_mem_id(input, pos)?;
    let (src_fid, pos) = parse_field_id(input, pos)?;
    let (dst_fid, pos) = parse_field_id(input, pos)?;
    let (src_inst, pos) = parse_inst_uid(input, pos)?;
    let (dst_inst, pos) = parse_inst_uid(input, pos)?;
    let (fevent, pos) = parse_event_id(input, pos)?;
    let (num_hops, pos) = parse_u32(input, pos)?;
    let (indirect, pos) = parse_bool(input, pos)?;
    Ok((Record::CopyInstInfo { src, dst, src_fid, dst_fid, src_inst, dst_inst, fevent, num_hops, indirect }, pos))
}

/// Decodes the payload of a `FillInfo` record.
pub fn parse_fill_info(input: &[u8], pos: usize, max_dim: i32) -> (res: Result<
    (Record, usize),
    FormatError,
>)
    ensures
        same_view(res, record_at(RecordKind::FillInfo, input@, pos as int, max_dim as int)),
        res matches Ok((_, end)) ==> pos <= end <= input@.len(),
{
    reveal(record_at);
    let (op_id, pos) = parse_op_id(input, pos)?;
    let (size, pos) = parse_u64(input, pos)?;
    let (create, pos) = parse_timestamp(input, pos)?;
    let (ready, pos) = parse_timestamp(input, pos)?;
    let (start, pos) = parse_timestamp(input, pos)?;
    let (stop, pos) = parse_timestamp(input, pos)?;
    let (fevent, pos) = parse_event_id(input, pos)?;
    Ok((Record::FillInfo { op_id, size, create, ready, start, stop, fevent }, pos))
}

/// Decodes the payload of a `FillInstInfo` record.
pub fn parse_fill_inst_info(input: &[u8], pos: usize, max_dim: i32) -> (res: Result<
    (Record, usize),
    FormatError,
>)
    ensures
        same_view(res, record_at(RecordKind::FillInstInfo, input@, pos as int, max_dim as int)),
        res matches Ok((_, end)) ==> pos <= end <= input@.len(),
{
    reveal(record_at);
    let (dst, pos) = parse_mem_id(input, pos)?;
    let (fid, pos) = parse_field_id(input, pos)?;
    let (dst_inst, pos) = parse_inst_uid(input, pos)?;
    let (fevent, pos) = parse_event_id(input, pos)?;
    Ok((Record::FillInstInfo { dst, fid, dst_inst, fevent }, pos))
}

/// Decodes the payload of a `InstTimelineInfo` record.
pub fn parse_inst_timeline(input: &[u8], pos: usize, max_dim: i32) -> (res: Result<
    (Record, usize),
    FormatError,
>)
    ensures
        same_view(res, record_at(RecordKind::InstTimelineInfo, input@, pos as int, max_dim as int)),
        res matches Ok((_, end)) ==> pos <= end <= input@.len(),
{
    reveal(record_at);
    let (inst_uid, pos) = parse_inst_uid(input, pos)?;
    let (inst_id, pos) = parse_inst_id(input, pos)?;
    let (mem_id, pos) = parse_mem_id(input, pos)?;
    let (size, pos) = parse_u64(input, pos)?;
    let (op_id, pos) = parse_op_id(input, pos)?;
    let (create, pos) = parse_timestamp(input, pos)?;
    let (ready, pos) = parse_timestamp(input, pos)?;
    let (destroy, pos) = parse_timestamp(input, pos)?;
    Ok((Record::InstTimelineInfo { inst_uid, inst_id, mem_id, size, op_id, create, ready, destroy }, pos))
}

/// Decodes the payload of a `PartitionInfo` record.
pub fn parse_partition_info(input: &[u8], pos: usize, max_dim: i32) -> (res: Result<
    (Record, usize),
    FormatError,
>)
    ensures
        same_view(res, record_at(RecordKind::PartitionInfo, input@, pos as int, max_dim as int)),
        res matches Ok((_, end)) ==> pos <= end <= input@.len(),
{
    reveal(record_at);
    let (op_id, pos) = parse_op_id(input, pos)?;
    let (part_op, pos) = parse_i32(input, pos)?;
    let (create, pos) = parse_timestamp(input, pos)?;
    let (ready, pos) = parse_timestamp(input, pos)?;
    let (start, pos) = parse_timestamp(input, pos)?;
    let (stop, pos) = parse_timestamp(input, pos)?;
    Ok((Record::PartitionInfo { op_id, part_op, create, ready, start, stop }, pos))
}

/// Decodes the payload of a `MapperCallInfo` record.
pub fn parse_mapper_call_info(input: &[u8], pos: usize, max_dim: i32) -> (res: Result<
    (Record, usize),
    FormatError,
>)
    ensures
        same_view(res, record_at(RecordKind::MapperCallInfo, input@, pos as int, max_dim as int)),
        res matches Ok((_, end)) ==> pos <= end <= input@.len(),
{
    reveal(record_at);
    let (kind, pos) = parse_mapper_call_kind_id(input, pos)?;
    let (op_id, pos) = parse_op_id(input, pos)?;
    let (start, pos) = parse_timestamp(input, pos)?;
    let (stop, pos) = parse_timestamp(input, pos)?;
    let (proc_id, pos) = parse_proc_id(input, pos)?;
    let (fevent, pos) = parse_event_id(input, pos)?;
    Ok((Record::MapperCallInfo { kind, op_id, start, stop, proc_id, fevent }, pos))
}

/// Decodes the payload of a `RuntimeCallInfo` record.
pub fn parse_runtime_call_info(input: &[u8], pos: usize, max_dim: i32) -> (res: Result<
    (Record, usize),
    FormatError,
>)
    ensures
        same_view(res, record_at(RecordKind::RuntimeCallInfo, input@, pos as int, max_dim as int)),
        res matches Ok((_, end)) ==> pos <= end <= input@.len(),
{
    reveal(record_at);
    let (kind, pos) = parse_runtime_call_kind_id(input, pos)?;
    let (start, pos) = parse_timestamp(input, pos)?;
    let (stop, pos) = parse_timestamp(input, pos)?;
    let (proc_id, pos) = parse_proc_id(input, pos)?;
    let (fevent, pos) = parse_event_id(input, pos)?;
    Ok((Record::RuntimeCallInfo { kind, start, stop, proc_id, fevent }, pos))
}

/// Decodes the payload of a `ProfTaskInfo` record.
pub fn parse_proftask_info(input: &[u8], pos: usize, max_dim: i32) -> (res: Result<
    (Record, usize),
    FormatError,
>)
    ensures
        same_view(res, record_at(RecordKind::ProfTaskInfo, input@, pos as int, max_dim as int)),
        res matches Ok((_, end)) ==> pos <= end <= input@.len(),
{
    reveal(record_at);
    let (proc_id, pos) = parse_proc_id(input, pos)?;
    let (op_id, pos) = parse_op_id(input, pos)?;
    let (start, pos) = parse_timestamp(input, pos)?;
    let (stop, pos) = parse_timestamp(input, pos)?;
    let (fevent, pos) = parse_event_id(input, pos)?;
    Ok((Record::ProfTaskInfo { proc_id, op_id, start, stop, fevent }, pos))
}

/// Decodes the payload of a record of the given kind.
pub fn parse_payload(kind: RecordKind, input: &[u8], pos: usize, max_dim: i32) -> (res: Result<
    (Record, usize),
    FormatError,
>)
    ensures
        same_view(res, record_at(kind, input@, pos as int, max_dim as int)),
        res matches Ok((_, end)) ==> pos <= end <= input@.len(),
{
    match kind {
        RecordKind::MapperCallDesc => parse_mapper_call_desc(input, pos, max_dim),
        RecordKind::RuntimeCallDesc => parse_runtime_call_desc(input, pos, max_dim),
        RecordKind::MetaDesc => parse_meta_desc(input, pos, max_dim),
        RecordKind::OpDesc => parse_op_desc(input, pos, max_dim),
        RecordKind::MaxDimDesc => parse_max_dim_desc(input, pos, max_dim),
        RecordKind::MachineDesc => parse_machine_desc(input, pos, max_dim),
        RecordKind::ZeroTime => parse_zero_time(input, pos, max_dim),
        RecordKind::ProcDesc => parse_proc_desc(input, pos, max_dim),
        RecordKind::MemDesc => parse_mem_desc(input, pos, max_dim),
        RecordKind::ProcMDesc => parse_mem_proc_affinity_desc(input, pos, max_dim),
        RecordKind::IndexSpacePointDesc => parse_index_space_point_desc(input, pos, max_dim),
        RecordKind::IndexSpaceRectDesc => parse_index_space_rect_desc(input, pos, max_dim),
        RecordKind::IndexSpaceEmptyDesc => parse_index_space_empty_desc(input, pos, max_dim),
        RecordKind::FieldDesc => parse_field_desc(input, pos, max_dim),
        RecordKind::FieldSpaceDesc => parse_field_space_desc(input, pos, max_dim),
        RecordKind::PartDesc => parse_part_desc(input, pos, max_dim),
        RecordKind::IndexSpaceDesc => parse_index_space_desc(input, pos, max_dim),
        RecordKind::IndexSubSpaceDesc => parse_index_subspace_desc(input, pos, max_dim),
        RecordKind::IndexPartitionDesc => parse_index_partition_desc(input, pos, max_dim),
        RecordKind::IndexSpaceSizeDesc => parse_index_space_size_desc(input, pos, max_dim),
        RecordKind::LogicalRegionDesc => parse_logical_region_desc(input, pos, max_dim),
        RecordKind::PhysicalInstRegionDesc => parse_physical_inst_region_desc(input, pos, max_dim),
        RecordKind::PhysicalInstLayoutDesc => parse_physical_inst_layout_desc(input, pos, max_dim),
        RecordKind::PhysicalInstDimOrderDesc => parse_physical_inst_layout_dim_desc(input, pos, max_dim),
        RecordKind::PhysicalInstanceUsage => parse_physical_inst_usage(input, pos, max_dim),
        RecordKind::TaskKind => parse_task_kind(input, pos, max_dim),
        RecordKind::TaskVariant => parse_task_variant(input, pos, max_dim),
        RecordKind::OperationInstance => parse_operation(input, pos, max_dim),
        RecordKind::MultiTask => parse_multi_task(input, pos, max_dim),
        RecordKind::SliceOwner => parse_slice_owner(input, pos, max_dim),
        RecordKind::TaskWaitInfo => parse_task_wait_info(input, pos, max_dim),
        RecordKind::MetaWaitInfo => parse_meta_wait_info(input, pos, max_dim),
        RecordKind::TaskInfo => parse_task_info(input, pos, max_dim),
        RecordKind::GPUTaskInfo => parse_gpu_task_info(input, pos, max_dim),
        RecordKind::MetaInfo => parse_meta_info(input, pos, max_dim),
        RecordKind::CopyInfo => parse_copy_info(input, pos, max_dim),
        RecordKind::CopyInstInfo => parse_copy_inst_info(input, pos, max_dim),
        RecordKind::FillInfo => parse_fill_info(input, pos, max_dim),
        RecordKind::FillInstInfo => parse_fill_inst_info(input, pos, max_dim),
        RecordKind::InstTimelineInfo => parse_inst_timeline(input, pos, max_dim),
        RecordKind::PartitionInfo => parse_partition_info(input, pos, max_dim),
        RecordKind::MapperCallInfo => parse_mapper_call_info(input, pos, max_dim),
        RecordKind::RuntimeCallInfo => parse_runtime_call_info(input, pos, max_dim),
        RecordKind::ProfTaskInfo => parse_proftask_info(input, pos, max_dim),
    }
}

} // verus!
