//! The decoded records and their mathematical model.

use crate::ids::{
    EventID, FSpaceID, FieldID, IPartID, ISpaceID, InstID, InstUID, MapperCallKindID, MemID,
    NodeID, OpID, ProcID, RuntimeCallKindID, TaskID, Timestamp, TreeID, VariantID,
};
use vstd::prelude::*;

verus! {

/// A bounding box: a lower and an upper bound for each dimension.
#[derive(Debug, Clone, PartialEq, Eq)]
pub struct Array(pub Vec<u64>);

/// A point: one coordinate for each dimension.
#[derive(Debug, Clone, PartialEq, Eq)]
pub struct Point(pub Vec<u64>);

impl View for Array {
    type V = Seq<u64>;

    open spec fn view(&self) -> Seq<u64> {
        self.0@
    }
}

impl View for Point {
    type V = Seq<u64>;

    open spec fn view(&self) -> Seq<u64> {
        self.0@
    }
}

/// The kinds of record that a log can hold.
#[derive(Debug, Clone, Copy, PartialEq, Eq)]
pub enum RecordKind {
    MapperCallDesc,
    RuntimeCallDesc,
    MetaDesc,
    OpDesc,
    MaxDimDesc,
    MachineDesc,
    ZeroTime,
    ProcDesc,
    MemDesc,
    ProcMDesc,
    IndexSpacePointDesc,
    IndexSpaceRectDesc,
    IndexSpaceEmptyDesc,
    FieldDesc,
    FieldSpaceDesc,
    PartDesc,
    IndexSpaceDesc,
    IndexSubSpaceDesc,
    IndexPartitionDesc,
    IndexSpaceSizeDesc,
    LogicalRegionDesc,
    PhysicalInstRegionDesc,
    PhysicalInstLayoutDesc,
    PhysicalInstDimOrderDesc,
    PhysicalInstanceUsage,
    TaskKind,
    TaskVariant,
    OperationInstance,
    MultiTask,
    SliceOwner,
    TaskWaitInfo,
    MetaWaitInfo,
    TaskInfo,
    GPUTaskInfo,
    MetaInfo,
    CopyInfo,
    CopyInstInfo,
    FillInfo,
    FillInstInfo,
    InstTimelineInfo,
    PartitionInfo,
    MapperCallInfo,
    RuntimeCallInfo,
    ProfTaskInfo,
}

/// One decoded record.
#[derive(Debug, Clone, PartialEq, Eq)]
pub enum Record {
    MapperCallDesc { kind: MapperCallKindID, name: String },
    RuntimeCallDesc { kind: RuntimeCallKindID, name: String },
    MetaDesc { kind: VariantID, message: bool, ordered_vc: bool, name: String },
    OpDesc { kind: u32, name: String },
    MaxDimDesc { max_dim: i32 },
    MachineDesc { node_id: NodeID, num_nodes: u32 },
    ZeroTime { zero_time: i64 },
    ProcDesc { proc_id: ProcID, kind: i32 },
    MemDesc { mem_id: MemID, kind: i32, capacity: u64 },
    ProcMDesc { proc_id: ProcID, mem_id: MemID, bandwidth: u32, latency: u32 },
    IndexSpacePointDesc { ispace_id: ISpaceID, dim: u32, rem: Point },
    IndexSpaceRectDesc { ispace_id: ISpaceID, dim: u32, rem: Array },
    IndexSpaceEmptyDesc { ispace_id: ISpaceID },
    FieldDesc { fspace_id: FSpaceID, field_id: FieldID, size: u64, name: String },
    FieldSpaceDesc { fspace_id: FSpaceID, name: String },
    PartDesc { unique_id: IPartID, name: String },
    IndexSpaceDesc { ispace_id: ISpaceID, name: String },
    IndexSubSpaceDesc { parent_id: IPartID, ispace_id: ISpaceID },
    IndexPartitionDesc { parent_id: ISpaceID, unique_id: IPartID, disjoint: bool, point0: u64 },
    IndexSpaceSizeDesc { ispace_id: ISpaceID, dense_size: u64, sparse_size: u64, is_sparse: bool },
    LogicalRegionDesc { ispace_id: ISpaceID, fspace_id: u32, tree_id: TreeID, name: String },
    PhysicalInstRegionDesc { inst_uid: InstUID, ispace_id: ISpaceID, fspace_id: u32, tree_id: TreeID },
    PhysicalInstLayoutDesc { inst_uid: InstUID, field_id: FieldID, fspace_id: u32, has_align: bool, eqk: u32, align_desc: u32 },
    PhysicalInstDimOrderDesc { inst_uid: InstUID, dim: u32, dim_kind: u32 },
    PhysicalInstanceUsage { inst_uid: InstUID, op_id: OpID, index_id: u32, field_id: FieldID },
    TaskKind { task_id: TaskID, name: String, overwrite: bool },
    TaskVariant { task_id: TaskID, variant_id: VariantID, name: String },
    OperationInstance { op_id: OpID, parent_id: OpID, kind: u32, provenance: String },
    MultiTask { op_id: OpID, task_id: TaskID },
    SliceOwner { parent_id: u64, op_id: OpID },
    TaskWaitInfo { op_id: OpID, task_id: TaskID, variant_id: VariantID, wait_start: Timestamp, wait_ready: Timestamp, wait_end: Timestamp },
    MetaWaitInfo { op_id: OpID, lg_id: VariantID, wait_start: Timestamp, wait_ready: Timestamp, wait_end: Timestamp },
    TaskInfo { op_id: OpID, task_id: TaskID, variant_id: VariantID, proc_id: ProcID, create: Timestamp, ready: Timestamp, start: Timestamp, stop: Timestamp, fevent: EventID },
    GPUTaskInfo { op_id: OpID, task_id: TaskID, variant_id: VariantID, proc_id: ProcID, create: Timestamp, ready: Timestamp, start: Timestamp, stop: Timestamp, gpu_start: Timestamp, gpu_stop: Timestamp, fevent: EventID },
    MetaInfo { op_id: OpID, lg_id: VariantID, proc_id: ProcID, create: Timestamp, ready: Timestamp, start: Timestamp, stop: Timestamp, fevent: EventID },
    CopyInfo { op_id: OpID, size: u64, create: Timestamp, ready: Timestamp, start: Timestamp, stop: Timestamp, fevent: EventID, collective: u32 },
    CopyInstInfo { src: MemID, dst: MemID, src_fid: FieldID, dst_fid: FieldID, src_inst: InstUID, dst_inst: InstUID, fevent: EventID, num_hops: u32, indirect: bool },
    FillInfo { op_id: OpID, size: u64, create: Timestamp, ready: Timestamp, start: Timestamp, stop: Timestamp, fevent: EventID },
    FillInstInfo { dst: MemID, fid: FieldID, dst_inst: InstUID, fevent: EventID },
    InstTimelineInfo { inst_uid: InstUID, inst_id: InstID, mem_id: MemID, size: u64, op_id: OpID, create: Timestamp, ready: Timestamp, destroy: Timestamp },
    PartitionInfo { op_id: OpID, part_op: i32, create: Timestamp, ready: Timestamp, start: Timestamp, stop: Timestamp },
    MapperCallInfo { kind: MapperCallKindID, op_id: OpID, start: Timestamp, stop: Timestamp, proc_id: ProcID, fevent: EventID },
    RuntimeCallInfo { kind: RuntimeCallKindID, start: Timestamp, stop: Timestamp, proc_id: ProcID, fevent: EventID },
    ProfTaskInfo { proc_id: ProcID, op_id: OpID, start: Timestamp, stop: Timestamp, fevent: EventID },
}

/// What a record holds: strings as their characters, composites as their values.
pub enum RecordView {
    MapperCallDesc { kind: MapperCallKindID, name: Seq<char> },
    RuntimeCallDesc { kind: RuntimeCallKindID, name: Seq<char> },
    MetaDesc { kind: VariantID, message: bool, ordered_vc: bool, name: Seq<char> },
    OpDesc { kind: u32, name: Seq<char> },
    MaxDimDesc { max_dim: i32 },
    MachineDesc { node_id: NodeID, num_nodes: u32 },
    ZeroTime { zero_time: i64 },
    ProcDesc { proc_id: ProcID, kind: i32 },
    MemDesc { mem_id: MemID, kind: i32, capacity: u64 },
    ProcMDesc { proc_id: ProcID, mem_id: MemID, bandwidth: u32, latency: u32 },
    IndexSpacePointDesc { ispace_id: ISpaceID, dim: u32, rem: Seq<u64> },
    IndexSpaceRectDesc { ispace_id: ISpaceID, dim: u32, rem: Seq<u64> },
    IndexSpaceEmptyDesc { ispace_id: ISpaceID },
    FieldDesc { fspace_id: FSpaceID, field_id: FieldID, size: u64, name: Seq<char> },
    FieldSpaceDesc { fspace_id: FSpaceID, name: Seq<char> },
    PartDesc { unique_id: IPartID, name: Seq<char> },
    IndexSpaceDesc { ispace_id: ISpaceID, name: Seq<char> },
    IndexSubSpaceDesc { parent_id: IPartID, ispace_id: ISpaceID },
    IndexPartitionDesc { parent_id: ISpaceID, unique_id: IPartID, disjoint: bool, point0: u64 },
    IndexSpaceSizeDesc { ispace_id: ISpaceID, dense_size: u64, sparse_size: u64, is_sparse: bool },
    LogicalRegionDesc { ispace_id: ISpaceID, fspace_id: u32, tree_id: TreeID, name: Seq<char> },
    PhysicalInstRegionDesc { inst_uid: InstUID, ispace_id: ISpaceID, fspace_id: u32, tree_id: TreeID },
    PhysicalInstLayoutDesc { inst_uid: InstUID, field_id: FieldID, fspace_id: u32, has_align: bool, eqk: u32, align_desc: u32 },
    PhysicalInstDimOrderDesc { inst_uid: InstUID, dim: u32, dim_kind: u32 },
    PhysicalInstanceUsage { inst_uid: InstUID, op_id: OpID, index_id: u32, field_id: FieldID },
    TaskKind { task_id: TaskID, name: Seq<char>, overwrite: bool },
    TaskVariant { task_id: TaskID, variant_id: VariantID, name: Seq<char> },
    OperationInstance { op_id: OpID, parent_id: OpID, kind: u32, provenance: Seq<char> },
    MultiTask { op_id: OpID, task_id: TaskID },
    SliceOwner { parent_id: u64, op_id: OpID },
    TaskWaitInfo { op_id: OpID, task_id: TaskID, variant_id: VariantID, wait_start: Timestamp, wait_ready: Timestamp, wait_end: Timestamp },
    MetaWaitInfo { op_id: OpID, lg_id: VariantID, wait_start: Timestamp, wait_ready: Timestamp, wait_end: Timestamp },
    TaskInfo { op_id: OpID, task_id: TaskID, variant_id: VariantID, proc_id: ProcID, create: Timestamp, ready: Timestamp, start: Timestamp, stop: Timestamp, fevent: EventID },
    GPUTaskInfo { op_id: OpID, task_id: TaskID, variant_id: VariantID, proc_id: ProcID, create: Timestamp, ready: Timestamp, start: Timestamp, stop: Timestamp, gpu_start: Timestamp, gpu_stop: Timestamp, fevent: EventID },
    MetaInfo { op_id: OpID, lg_id: VariantID, proc_id: ProcID, create: Timestamp, ready: Timestamp, start: Timestamp, stop: Timestamp, fevent: EventID },
    CopyInfo { op_id: OpID, size: u64, create: Timestamp, ready: Timestamp, start: Timestamp, stop: Timestamp, fevent: EventID, collective: u32 },
    CopyInstInfo { src: MemID, dst: MemID, src_fid: FieldID, dst_fid: FieldID, src_inst: InstUID, dst_inst: InstUID, fevent: EventID, num_hops: u32, indirect: bool },
    FillInfo { op_id: OpID, size: u64, create: Timestamp, ready: Timestamp, start: Timestamp, stop: Timestamp, fevent: EventID },
    FillInstInfo { dst: MemID, fid: FieldID, dst_inst: InstUID, fevent: EventID },
    InstTimelineInfo { inst_uid: InstUID, inst_id: InstID, mem_id: MemID, size: u64, op_id: OpID, create: Timestamp, ready: Timestamp, destroy: Timestamp },
    PartitionInfo { op_id: OpID, part_op: i32, create: Timestamp, ready: Timestamp, start: Timestamp, stop: Timestamp },
    MapperCallInfo { kind: MapperCallKindID, op_id: OpID, start: Timestamp, stop: Timestamp, proc_id: ProcID, fevent: EventID },
    RuntimeCallInfo { kind: RuntimeCallKindID, start: Timestamp, stop: Timestamp, proc_id: ProcID, fevent: EventID },
    ProfTaskInfo { proc_id: ProcID, op_id: OpID, start: Timestamp, stop: Timestamp, fevent: EventID },
}

impl View for Record {
    type V = RecordView;

    open spec fn view(&self) -> RecordView {
        match *self {
            Record::MapperCallDesc { kind, name } => RecordView::MapperCallDesc { kind, name: name@ },
            Record::RuntimeCallDesc { kind, name } => RecordView::RuntimeCallDesc { kind, name: name@ },
            Record::MetaDesc { kind, message, ordered_vc, name } => RecordView::MetaDesc { kind, message, ordered_vc, name: name@ },
            Record::OpDesc { kind, name } => RecordView::OpDesc { kind, name: name@ },
            Record::MaxDimDesc { max_dim } => RecordView::MaxDimDesc { max_dim },
            Record::MachineDesc { node_id, num_nodes } => RecordView::MachineDesc { node_id, num_nodes },
            Record::ZeroTime { zero_time } => RecordView::ZeroTime { zero_time },
            Record::ProcDesc { proc_id, kind } => RecordView::ProcDesc { proc_id, kind },
            Record::MemDesc { mem_id, kind, capacity } => RecordView::MemDesc { mem_id, kind, capacity },
            Record::ProcMDesc { proc_id, mem_id, bandwidth, latency } => RecordView::ProcMDesc { proc_id, mem_id, bandwidth, latency },
            Record::IndexSpacePointDesc { ispace_id, dim, rem } => RecordView::IndexSpacePointDesc { ispace_id, dim, rem: rem@ },
            Record::IndexSpaceRectDesc { ispace_id, dim, rem } => RecordView::IndexSpaceRectDesc { ispace_id, dim, rem: rem@ },
            Record::IndexSpaceEmptyDesc { ispace_id } => RecordView::IndexSpaceEmptyDesc { ispace_id },
            Record::FieldDesc { fspace_id, field_id, size, name } => RecordView::FieldDesc { fspace_id, field_id, size, name: name@ },
            Record::FieldSpaceDesc { fspace_id, name } => RecordView::FieldSpaceDesc { fspace_id, name: name@ },
            Record::PartDesc { unique_id, name } => RecordView::PartDesc { unique_id, name: name@ },
            Record::IndexSpaceDesc { ispace_id, name } => RecordView::IndexSpaceDesc { ispace_id, name: name@ },
            Record::IndexSubSpaceDesc { parent_id, ispace_id } => RecordView::IndexSubSpaceDesc { parent_id, ispace_id },
            Record::IndexPartitionDesc { parent_id, unique_id, disjoint, point0 } => RecordView::IndexPartitionDesc { parent_id, unique_id, disjoint, point0 },
            Record::IndexSpaceSizeDesc { ispace_id, dense_size, sparse_size, is_sparse } => RecordView::IndexSpaceSizeDesc { ispace_id, dense_size, sparse_size, is_sparse },
            Record::LogicalRegionDesc { ispace_id, fspace_id, tree_id, name } => RecordView::LogicalRegionDesc { ispace_id, fspace_id, tree_id, name: name@ },
            Record::PhysicalInstRegionDesc { inst_uid, ispace_id, fspace_id, tree_id } => RecordView::PhysicalInstRegionDesc { inst_uid, ispace_id, fspace_id, tree_id },
            Record::PhysicalInstLayoutDesc { inst_uid, field_id, fspace_id, has_align, eqk, align_desc } => RecordView::PhysicalInstLayoutDesc { inst_uid, field_id, fspace_id, has_align, eqk, align_desc },
            Record::PhysicalInstDimOrderDesc { inst_uid, dim, dim_kind } => RecordView::PhysicalInstDimOrderDesc { inst_uid, dim, dim_kind },
            Record::PhysicalInstanceUsage { inst_uid, op_id, index_id, field_id } => RecordView::PhysicalInstanceUsage { inst_uid, op_id, index_id, field_id },
            Record::TaskKind { task_id, name, overwrite } => RecordView::TaskKind { task_id, name: name@, overwrite },
            Record::TaskVariant { task_id, variant_id, name } => RecordView::TaskVariant { task_id, variant_id, name: name@ },
            Record::OperationInstance { op_id, parent_id, kind, provenance } => RecordView::OperationInstance { op_id, parent_id, kind, provenance: provenance@ },
            Record::MultiTask { op_id, task_id } => RecordView::MultiTask { op_id, task_id },
            Record::SliceOwner { parent_id, op_id } => RecordView::SliceOwner { parent_id, op_id },
            Record::TaskWaitInfo { op_id, task_id, variant_id, wait_start, wait_ready, wait_end } => RecordView::TaskWaitInfo { op_id, task_id, variant_id, wait_start, wait_ready, wait_end },
            Record::MetaWaitInfo { op_id, lg_id, wait_start, wait_ready, wait_end } => RecordView::MetaWaitInfo { op_id, lg_id, wait_start, wait_ready, wait_end },
            Record::TaskInfo { op_id, task_id, variant_id, proc_id, create, ready, start, stop, fevent } => RecordView::TaskInfo { op_id, task_id, variant_id, proc_id, create, ready, start, stop, fevent },
            Record::GPUTaskInfo { op_id, task_id, variant_id, proc_id, create, ready, start, stop, gpu_start, gpu_stop, fevent } => RecordView::GPUTaskInfo { op_id, task_id, variant_id, proc_id, create, ready, start, stop, gpu_start, gpu_stop, fevent },
            Record::MetaInfo { op_id, lg_id, proc_id, create, ready, start, stop, fevent } => RecordView::MetaInfo { op_id, lg_id, proc_id, create, ready, start, stop, fevent },
            Record::CopyInfo { op_id, size, create, ready, start, stop, fevent, collective } => RecordView::CopyInfo { op_id, size, create, ready, start, stop, fevent, collective },
            Record::CopyInstInfo { src, dst, src_fid, dst_fid, src_inst, dst_inst, fevent, num_hops, indirect } => RecordView::CopyInstInfo { src, dst, src_fid, dst_fid, src_inst, dst_inst, fevent, num_hops, indirect },
            Record::FillInfo { op_id, size, create, ready, start, stop, fevent } => RecordView::FillInfo { op_id, size, create, ready, start, stop, fevent },
            Record::FillInstInfo { dst, fid, dst_inst, fevent } => RecordView::FillInstInfo { dst, fid, dst_inst, fevent },
            Record::InstTimelineInfo { inst_uid, inst_id, mem_id, size, op_id, create, ready, destroy } => RecordView::InstTimelineInfo { inst_uid, inst_id, mem_id, size, op_id, create, ready, destroy },
            Record::PartitionInfo { op_id, part_op, create, ready, start, stop } => RecordView::PartitionInfo { op_id, part_op, create, ready, start, stop },
            Record::MapperCallInfo { kind, op_id, start, stop, proc_id, fevent } => RecordView::MapperCallInfo { kind, op_id, start, stop, proc_id, fevent },
            Record::RuntimeCallInfo { kind, start, stop, proc_id, fevent } => RecordView::RuntimeCallInfo { kind, start, stop, proc_id, fevent },
            Record::ProfTaskInfo { proc_id, op_id, start, stop, fevent } => RecordView::ProfTaskInfo { proc_id, op_id, start, stop, fevent },
        }
    }
}

impl RecordView {
    /// The kind of this record.
    pub open spec fn kind(self) -> RecordKind {
        match self {
            RecordView::MapperCallDesc { .. } => RecordKind::MapperCallDesc,
            RecordView::RuntimeCallDesc { .. } => RecordKind::RuntimeCallDesc,
            RecordView::MetaDesc { .. } => RecordKind::MetaDesc,
            RecordView::OpDesc { .. } => RecordKind::OpDesc,
            RecordView::MaxDimDesc { .. } => RecordKind::MaxDimDesc,
            RecordView::MachineDesc { .. } => RecordKind::MachineDesc,
            RecordView::ZeroTime { .. } => RecordKind::ZeroTime,
            RecordView::ProcDesc { .. } => RecordKind::ProcDesc,
            RecordView::MemDesc { .. } => RecordKind::MemDesc,
            RecordView::ProcMDesc { .. } => RecordKind::ProcMDesc,
            RecordView::IndexSpacePointDesc { .. } => RecordKind::IndexSpacePointDesc,
            RecordView::IndexSpaceRectDesc { .. } => RecordKind::IndexSpaceRectDesc,
            RecordView::IndexSpaceEmptyDesc { .. } => RecordKind::IndexSpaceEmptyDesc,
            RecordView::FieldDesc { .. } => RecordKind::FieldDesc,
            RecordView::FieldSpaceDesc { .. } => RecordKind::FieldSpaceDesc,
            RecordView::PartDesc { .. } => RecordKind::PartDesc,
            RecordView::IndexSpaceDesc { .. } => RecordKind::IndexSpaceDesc,
            RecordView::IndexSubSpaceDesc { .. } => RecordKind::IndexSubSpaceDesc,
            RecordView::IndexPartitionDesc { .. } => RecordKind::IndexPartitionDesc,
            RecordView::IndexSpaceSizeDesc { .. } => RecordKind::IndexSpaceSizeDesc,
            RecordView::LogicalRegionDesc { .. } => RecordKind::LogicalRegionDesc,
            RecordView::PhysicalInstRegionDesc { .. } => RecordKind::PhysicalInstRegionDesc,
            RecordView::PhysicalInstLayoutDesc { .. } => RecordKind::PhysicalInstLayoutDesc,
            RecordView::PhysicalInstDimOrderDesc { .. } => RecordKind::PhysicalInstDimOrderDesc,
            RecordView::PhysicalInstanceUsage { .. } => RecordKind::PhysicalInstanceUsage,
            RecordView::TaskKind { .. } => RecordKind::TaskKind,
            RecordView::TaskVariant { .. } => RecordKind::TaskVariant,
            RecordView::OperationInstance { .. } => RecordKind::OperationInstance,
            RecordView::MultiTask { .. } => RecordKind::MultiTask,
            RecordView::SliceOwner { .. } => RecordKind::SliceOwner,
            RecordView::TaskWaitInfo { .. } => RecordKind::TaskWaitInfo,
            RecordView::MetaWaitInfo { .. } => RecordKind::MetaWaitInfo,
            RecordView::TaskInfo { .. } => RecordKind::TaskInfo,
            RecordView::GPUTaskInfo { .. } => RecordKind::GPUTaskInfo,
            RecordView::MetaInfo { .. } => RecordKind::MetaInfo,
            RecordView::CopyInfo { .. } => RecordKind::CopyInfo,
            RecordView::CopyInstInfo { .. } => RecordKind::CopyInstInfo,
            RecordView::FillInfo { .. } => RecordKind::FillInfo,
            RecordView::FillInstInfo { .. } => RecordKind::FillInstInfo,
            RecordView::InstTimelineInfo { .. } => RecordKind::InstTimelineInfo,
            RecordView::PartitionInfo { .. } => RecordKind::PartitionInfo,
            RecordView::MapperCallInfo { .. } => RecordKind::MapperCallInfo,
            RecordView::RuntimeCallInfo { .. } => RecordKind::RuntimeCallInfo,
            RecordView::ProfTaskInfo { .. } => RecordKind::ProfTaskInfo,
        }
    }
}

impl Record {
    /// The kind of this record.
    pub fn kind(&self) -> (kind: RecordKind)
        ensures
            kind == self@.kind(),
    {
        match self {
            Record::MapperCallDesc { .. } => RecordKind::MapperCallDesc,
            Record::RuntimeCallDesc { .. } => RecordKind::RuntimeCallDesc,
            Record::MetaDesc { .. } => RecordKind::MetaDesc,
            Record::OpDesc { .. } => RecordKind::OpDesc,
            Record::MaxDimDesc { .. } => RecordKind::MaxDimDesc,
            Record::MachineDesc { .. } => RecordKind::MachineDesc,
            Record::ZeroTime { .. } => RecordKind::ZeroTime,
            Record::ProcDesc { .. } => RecordKind::ProcDesc,
            Record::MemDesc { .. } => RecordKind::MemDesc,
            Record::ProcMDesc { .. } => RecordKind::ProcMDesc,
            Record::IndexSpacePointDesc { .. } => RecordKind::IndexSpacePointDesc,
            Record::IndexSpaceRectDesc { .. } => RecordKind::IndexSpaceRectDesc,
            Record::IndexSpaceEmptyDesc { .. } => RecordKind::IndexSpaceEmptyDesc,
            Record::FieldDesc { .. } => RecordKind::FieldDesc,
            Record::FieldSpaceDesc { .. } => RecordKind::FieldSpaceDesc,
            Record::PartDesc { .. } => RecordKind::PartDesc,
            Record::IndexSpaceDesc { .. } => RecordKind::IndexSpaceDesc,
            Record::IndexSubSpaceDesc { .. } => RecordKind::IndexSubSpaceDesc,
            Record::IndexPartitionDesc { .. } => RecordKind::IndexPartitionDesc,
            Record::IndexSpaceSizeDesc { .. } => RecordKind::IndexSpaceSizeDesc,
            Record::LogicalRegionDesc { .. } => RecordKind::LogicalRegionDesc,
            Record::PhysicalInstRegionDesc { .. } => RecordKind::PhysicalInstRegionDesc,
            Record::PhysicalInstLayoutDesc { .. } => RecordKind::PhysicalInstLayoutDesc,
            Record::PhysicalInstDimOrderDesc { .. } => RecordKind::PhysicalInstDimOrderDesc,
            Record::PhysicalInstanceUsage { .. } => RecordKind::PhysicalInstanceUsage,
            Record::TaskKind { .. } => RecordKind::TaskKind,
            Record::TaskVariant { .. } => RecordKind::TaskVariant,
            Record::OperationInstance { .. } => RecordKind::OperationInstance,
            Record::MultiTask { .. } => RecordKind::MultiTask,
            Record::SliceOwner { .. } => RecordKind::SliceOwner,
            Record::TaskWaitInfo { .. } => RecordKind::TaskWaitInfo,
            Record::MetaWaitInfo { .. } => RecordKind::MetaWaitInfo,
            Record::TaskInfo { .. } => RecordKind::TaskInfo,
            Record::GPUTaskInfo { .. } => RecordKind::GPUTaskInfo,
            Record::MetaInfo { .. } => RecordKind::MetaInfo,
            Record::CopyInfo { .. } => RecordKind::CopyInfo,
            Record::CopyInstInfo { .. } => RecordKind::CopyInstInfo,
            Record::FillInfo { .. } => RecordKind::FillInfo,
            Record::FillInstInfo { .. } => RecordKind::FillInstInfo,
            Record::InstTimelineInfo { .. } => RecordKind::InstTimelineInfo,
            Record::PartitionInfo { .. } => RecordKind::PartitionInfo,
            Record::MapperCallInfo { .. } => RecordKind::MapperCallInfo,
            Record::RuntimeCallInfo { .. } => RecordKind::RuntimeCallInfo,
            Record::ProfTaskInfo { .. } => RecordKind::ProfTaskInfo,
        }
    }
}

} // verus!
