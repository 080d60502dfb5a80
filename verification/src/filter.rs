//! The rule that decides which records of a file matter to a reader who
//! looks at some of the nodes only.

use crate::ids::{owner_node, NodeID};
use crate::record::{Record, RecordView};
use vstd::prelude::*;

verus! {

/// True when the node is one of the given nodes.
pub fn is_on_visible_nodes(visible_nodes: &Vec<NodeID>, node: NodeID) -> (res: bool)
    ensures
        res == visible_nodes@.contains(node),
{
    let mut i: usize = 0;
    while i < visible_nodes.len()
        invariant
            i <= visible_nodes@.len(),
            forall|j: int| 0 <= j < i ==> visible_nodes@[j] != node,
        decreases visible_nodes@.len() - i,
    {
        if visible_nodes[i].0 == node.0 {
            return true;
        }
        i = i + 1;
    }
    false
}

/// Whether a record is kept. Until the node of the file is known, and when
/// that node is visible, every record is kept. In a file of another node,
/// the descriptions of processors and memories, their affinities, and the
/// spans of copies, fills and partition operations are kept; a record that
/// names a processor or a memory is kept when the owner of that processor or
/// memory is visible, a copy between instances when the owner of either
/// memory is; all other records are dropped.
pub open spec fn retained(record: RecordView, nodes: Seq<NodeID>, node_id: Option<NodeID>) -> bool {
    match node_id {
        None => true,
        Some(own) => nodes.contains(own) || match record {
            RecordView::ProcDesc { .. } => true,
            RecordView::MemDesc { .. } => true,
            RecordView::ProcMDesc { .. } => true,
            RecordView::TaskInfo { proc_id, .. } => nodes.contains(owner_node(proc_id.0)),
            RecordView::GPUTaskInfo { proc_id, .. } => nodes.contains(owner_node(proc_id.0)),
            RecordView::MetaInfo { proc_id, .. } => nodes.contains(owner_node(proc_id.0)),
            RecordView::CopyInfo { .. } => true,
            RecordView::CopyInstInfo { src, dst, .. } => nodes.contains(owner_node(src.0))
                || nodes.contains(owner_node(dst.0)),
            RecordView::FillInfo { .. } => true,
            RecordView::FillInstInfo { dst, .. } => nodes.contains(owner_node(dst.0)),
            RecordView::InstTimelineInfo { mem_id, .. } => nodes.contains(owner_node(mem_id.0)),
            RecordView::PartitionInfo { .. } => true,
            _ => false,
        },
    }
}

/// Decides whether a record is kept for the visible nodes, in a file that
/// was written by `node_id`.
pub fn filter_record(record: &Record, visible_nodes: &Vec<NodeID>, node_id: Option<NodeID>) -> (res:
    bool)
    requires
        visible_nodes@.len() > 0,
    ensures
        res == retained(record@, visible_nodes@, node_id),
{
    match node_id {
        None => true,
        Some(own) => {
            if is_on_visible_nodes(visible_nodes, own) {
                true
            } else {
                match record {
                    Record::ProcDesc { .. } => true,
                    Record::MemDesc { .. } => true,
                    Record::ProcMDesc { .. } => true,
                    Record::TaskInfo { proc_id, .. } => is_on_visible_nodes(
                        visible_nodes,
                        proc_id.node_id(),
                    ),
                    Record::GPUTaskInfo { proc_id, .. } => is_on_visible_nodes(
                        visible_nodes,
                        proc_id.node_id(),
                    ),
                    Record::MetaInfo { proc_id, .. } => is_on_visible_nodes(
                        visible_nodes,
                        proc_id.node_id(),
                    ),
                    Record::CopyInfo { .. } => true,
                    Record::CopyInstInfo { src, dst, .. } => is_on_visible_nodes(
                        visible_nodes,
                        src.node_id(),
                    ) || is_on_visible_nodes(visible_nodes, dst.node_id()),
                    Record::FillInfo { .. } => true,
                    Record::FillInstInfo { dst, .. } => is_on_visible_nodes(
                        visible_nodes,
                        dst.node_id(),
                    ),
                    Record::InstTimelineInfo { mem_id, .. } => is_on_visible_nodes(
                        visible_nodes,
                        mem_id.node_id(),
                    ),
                    Record::PartitionInfo { .. } => true,
                    _ => false,
                }
            }
        },
    }
}

} // verus!
