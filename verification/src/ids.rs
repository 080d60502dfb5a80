use vstd::prelude::*;

verus! {

/// An event.
#[derive(Debug, Clone, Copy, PartialEq, Eq)]
pub struct EventID(pub u64);

/// A physical instance, unique over the run.
#[derive(Debug, Clone, Copy, PartialEq, Eq)]
pub struct InstUID(pub u64);

/// A physical instance as the runtime names it.
#[derive(Debug, Clone, Copy, PartialEq, Eq)]
pub struct InstID(pub u64);

/// An index partition.
#[derive(Debug, Clone, Copy, PartialEq, Eq)]
pub struct IPartID(pub u64);

/// An index space.
#[derive(Debug, Clone, Copy, PartialEq, Eq)]
pub struct ISpaceID(pub u64);

/// A field space.
#[derive(Debug, Clone, Copy, PartialEq, Eq)]
pub struct FSpaceID(pub u64);

/// A field of a field space.
#[derive(Debug, Clone, Copy, PartialEq, Eq)]
pub struct FieldID(pub u32);

/// A region tree.
#[derive(Debug, Clone, Copy, PartialEq, Eq)]
pub struct TreeID(pub u32);

/// A kind of mapper call.
#[derive(Debug, Clone, Copy, PartialEq, Eq)]
pub struct MapperCallKindID(pub u32);

/// A memory.
#[derive(Debug, Clone, Copy, PartialEq, Eq)]
pub struct MemID(pub u64);

/// An operation.
#[derive(Debug, Clone, Copy, PartialEq, Eq)]
pub struct OpID(pub u64);

/// A processor.
#[derive(Debug, Clone, Copy, PartialEq, Eq)]
pub struct ProcID(pub u64);

/// A kind of runtime call.
#[derive(Debug, Clone, Copy, PartialEq, Eq)]
pub struct RuntimeCallKindID(pub u32);

/// A task.
#[derive(Debug, Clone, Copy, PartialEq, Eq)]
pub struct TaskID(pub u32);

/// A point in time, in the profiler's clock ticks.
#[derive(Debug, Clone, Copy, PartialEq, Eq)]
pub struct Timestamp(pub u64);

/// A variant of a task, or a kind of meta-task.
#[derive(Debug, Clone, Copy, PartialEq, Eq)]
pub struct VariantID(pub u32);

/// A node of the machine.
#[derive(Debug, Clone, Copy, PartialEq, Eq)]
pub struct NodeID(pub u64);

/// The node that owns an identifier: bits 40 to 55 of its raw value.
pub open spec fn owner_node(raw: u64) -> NodeID {
    NodeID((raw >> 40) & 0xffff)
}

impl ProcID {
    /// The node on which this processor lives.
    pub fn node_id(&self) -> (node: NodeID)
        ensures
            node == owner_node(self.0),
    {
        NodeID((self.0 >> 40) & 0xffff)
    }
}

impl MemID {
    /// The node on which this memory lives.
    pub fn node_id(&self) -> (node: NodeID)
        ensures
            node == owner_node(self.0),
    {
        NodeID((self.0 >> 40) & 0xffff)
    }
}

} // verus!
