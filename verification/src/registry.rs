//! The binding of wire tags to record kinds, made from the record formats
//! that the header of a file declares.

use crate::error::FormatError;
use crate::header::{text_is, views, RecordFormat, RecordFormatView};
use crate::record::RecordKind;
use vstd::prelude::*;

verus! {

/// How many record kinds a header has to declare.
pub const KINDS: usize = 44;

impl RecordKind {
    /// The name under which the header declares this kind.
    pub open spec fn name(self) -> Seq<char> {
        match self {
            RecordKind::MapperCallDesc => "MapperCallDesc"@,
            RecordKind::RuntimeCallDesc => "RuntimeCallDesc"@,
            RecordKind::MetaDesc => "MetaDesc"@,
            RecordKind::OpDesc => "OpDesc"@,
            RecordKind::MaxDimDesc => "MaxDimDesc"@,
            RecordKind::MachineDesc => "MachineDesc"@,
            RecordKind::ZeroTime => "ZeroTime"@,
            RecordKind::ProcDesc => "ProcDesc"@,
            RecordKind::MemDesc => "MemDesc"@,
            RecordKind::ProcMDesc => "ProcMDesc"@,
            RecordKind::IndexSpacePointDesc => "IndexSpacePointDesc"@,
            RecordKind::IndexSpaceRectDesc => "IndexSpaceRectDesc"@,
            RecordKind::IndexSpaceEmptyDesc => "IndexSpaceEmptyDesc"@,
            RecordKind::FieldDesc => "FieldDesc"@,
            RecordKind::FieldSpaceDesc => "FieldSpaceDesc"@,
            RecordKind::PartDesc => "PartDesc"@,
            RecordKind::IndexSpaceDesc => "IndexSpaceDesc"@,
            RecordKind::IndexSubSpaceDesc => "IndexSubSpaceDesc"@,
            RecordKind::IndexPartitionDesc => "IndexPartitionDesc"@,
            RecordKind::IndexSpaceSizeDesc => "IndexSpaceSizeDesc"@,
            RecordKind::LogicalRegionDesc => "LogicalRegionDesc"@,
            RecordKind::PhysicalInstRegionDesc => "PhysicalInstRegionDesc"@,
            RecordKind::PhysicalInstLayoutDesc => "PhysicalInstLayoutDesc"@,
            RecordKind::PhysicalInstDimOrderDesc => "PhysicalInstDimOrderDesc"@,
            RecordKind::PhysicalInstanceUsage => "PhysicalInstanceUsage"@,
            RecordKind::TaskKind => "TaskKind"@,
            RecordKind::TaskVariant => "TaskVariant"@,
            RecordKind::OperationInstance => "OperationInstance"@,
            RecordKind::MultiTask => "MultiTask"@,
            RecordKind::SliceOwner => "SliceOwner"@,
            RecordKind::TaskWaitInfo => "TaskWaitInfo"@,
            RecordKind::MetaWaitInfo => "MetaWaitInfo"@,
            RecordKind::TaskInfo => "TaskInfo"@,
            RecordKind::GPUTaskInfo => "GPUTaskInfo"@,
            RecordKind::MetaInfo => "MetaInfo"@,
            RecordKind::CopyInfo => "CopyInfo"@,
            RecordKind::CopyInstInfo => "CopyInstInfo"@,
            RecordKind::FillInfo => "FillInfo"@,
            RecordKind::FillInstInfo => "FillInstInfo"@,
            RecordKind::InstTimelineInfo => "InstTimelineInfo"@,
            RecordKind::PartitionInfo => "PartitionInfo"@,
            RecordKind::MapperCallInfo => "MapperCallInfo"@,
            RecordKind::RuntimeCallInfo => "RuntimeCallInfo"@,
            RecordKind::ProfTaskInfo => "ProfTaskInfo"@,
        }
    }

    /// The name under which the header declares this kind.
    pub fn label(&self) -> (text: &'static str)
        ensures
            text@ == self.name(),
    {
        match self {
            RecordKind::MapperCallDesc => "MapperCallDesc",
            RecordKind::RuntimeCallDesc => "RuntimeCallDesc",
            RecordKind::MetaDesc => "MetaDesc",
            RecordKind::OpDesc => "OpDesc",
            RecordKind::MaxDimDesc => "MaxDimDesc",
            RecordKind::MachineDesc => "MachineDesc",
            RecordKind::ZeroTime => "ZeroTime",
            RecordKind::ProcDesc => "ProcDesc",
            RecordKind::MemDesc => "MemDesc",
            RecordKind::ProcMDesc => "ProcMDesc",
            RecordKind::IndexSpacePointDesc => "IndexSpacePointDesc",
            RecordKind::IndexSpaceRectDesc => "IndexSpaceRectDesc",
            RecordKind::IndexSpaceEmptyDesc => "IndexSpaceEmptyDesc",
            RecordKind::FieldDesc => "FieldDesc",
            RecordKind::FieldSpaceDesc => "FieldSpaceDesc",
            RecordKind::PartDesc => "PartDesc",
            RecordKind::IndexSpaceDesc => "IndexSpaceDesc",
            RecordKind::IndexSubSpaceDesc => "IndexSubSpaceDesc",
            RecordKind::IndexPartitionDesc => "IndexPartitionDesc",
            RecordKind::IndexSpaceSizeDesc => "IndexSpaceSizeDesc",
            RecordKind::LogicalRegionDesc => "LogicalRegionDesc",
            RecordKind::PhysicalInstRegionDesc => "PhysicalInstRegionDesc",
            RecordKind::PhysicalInstLayoutDesc => "PhysicalInstLayoutDesc",
            RecordKind::PhysicalInstDimOrderDesc => "PhysicalInstDimOrderDesc",
            RecordKind::PhysicalInstanceUsage => "PhysicalInstanceUsage",
            RecordKind::TaskKind => "TaskKind",
            RecordKind::TaskVariant => "TaskVariant",
            RecordKind::OperationInstance => "OperationInstance",
            RecordKind::MultiTask => "MultiTask",
            RecordKind::SliceOwner => "SliceOwner",
            RecordKind::TaskWaitInfo => "TaskWaitInfo",
            RecordKind::MetaWaitInfo => "MetaWaitInfo",
            RecordKind::TaskInfo => "TaskInfo",
            RecordKind::GPUTaskInfo => "GPUTaskInfo",
            RecordKind::MetaInfo => "MetaInfo",
            RecordKind::CopyInfo => "CopyInfo",
            RecordKind::CopyInstInfo => "CopyInstInfo",
            RecordKind::FillInfo => "FillInfo",
            RecordKind::FillInstInfo => "FillInstInfo",
            RecordKind::InstTimelineInfo => "InstTimelineInfo",
            RecordKind::PartitionInfo => "PartitionInfo",
            RecordKind::MapperCallInfo => "MapperCallInfo",
            RecordKind::RuntimeCallInfo => "RuntimeCallInfo",
            RecordKind::ProfTaskInfo => "ProfTaskInfo",
        }
    }
}

/// The required record kinds, in the order in which tags are bound to them.
pub open spec fn kind_at(i: int) -> RecordKind {
    if i == 0 {
        RecordKind::MapperCallDesc
    } else if i == 1 {
        RecordKind::RuntimeCallDesc
    } else if i == 2 {
        RecordKind::MetaDesc
    } else if i == 3 {
        RecordKind::OpDesc
    } else if i == 4 {
        RecordKind::MaxDimDesc
    } else if i == 5 {
        RecordKind::MachineDesc
    } else if i == 6 {
        RecordKind::ZeroTime
    } else if i == 7 {
        RecordKind::ProcDesc
    } else if i == 8 {
        RecordKind::MemDesc
    } else if i == 9 {
        RecordKind::ProcMDesc
    } else if i == 10 {
        RecordKind::IndexSpacePointDesc
    } else if i == 11 {
        RecordKind::IndexSpaceRectDesc
    } else if i == 12 {
        RecordKind::IndexSpaceEmptyDesc
    } else if i == 13 {
        RecordKind::FieldDesc
    } else if i == 14 {
        RecordKind::FieldSpaceDesc
    } else if i == 15 {
        RecordKind::PartDesc
    } else if i == 16 {
        RecordKind::IndexSpaceDesc
    } else if i == 17 {
        RecordKind::IndexSubSpaceDesc
    } else if i == 18 {
        RecordKind::IndexPartitionDesc
    } else if i == 19 {
        RecordKind::IndexSpaceSizeDesc
    } else if i == 20 {
        RecordKind::LogicalRegionDesc
    } else if i == 21 {
        RecordKind::PhysicalInstRegionDesc
    } else if i == 22 {
        RecordKind::PhysicalInstLayoutDesc
    } else if i == 23 {
        RecordKind::PhysicalInstDimOrderDesc
    } else if i == 24 {
        RecordKind::PhysicalInstanceUsage
    } else if i == 25 {
        RecordKind::TaskKind
    } else if i == 26 {
        RecordKind::TaskVariant
    } else if i == 27 {
        RecordKind::OperationInstance
    } else if i == 28 {
        RecordKind::MultiTask
    } else if i == 29 {
        RecordKind::SliceOwner
    } else if i == 30 {
        RecordKind::TaskWaitInfo
    } else if i == 31 {
        RecordKind::MetaWaitInfo
    } else if i == 32 {
        RecordKind::TaskInfo
    } else if i == 33 {
        RecordKind::GPUTaskInfo
    } else if i == 34 {
        RecordKind::MetaInfo
    } else if i == 35 {
        RecordKind::CopyInfo
    } else if i == 36 {
        RecordKind::CopyInstInfo
    } else if i == 37 {
        RecordKind::FillInfo
    } else if i == 38 {
        RecordKind::FillInstInfo
    } else if i == 39 {
        RecordKind::InstTimelineInfo
    } else if i == 40 {
        RecordKind::PartitionInfo
    } else if i == 41 {
        RecordKind::MapperCallInfo
    } else if i == 42 {
        RecordKind::RuntimeCallInfo
    } else {
        RecordKind::ProfTaskInfo
    }
}

/// The required record kind at the given place of the binding order.
pub fn required_kind(i: usize) -> (kind: RecordKind)
    requires
        i < KINDS,
    ensures
        kind == kind_at(i as int),
{
    if i == 0 {
        RecordKind::MapperCallDesc
    } else if i == 1 {
        RecordKind::RuntimeCallDesc
    } else if i == 2 {
        RecordKind::MetaDesc
    } else if i == 3 {
        RecordKind::OpDesc
    } else if i == 4 {
        RecordKind::MaxDimDesc
    } else if i == 5 {
        RecordKind::MachineDesc
    } else if i == 6 {
        RecordKind::ZeroTime
    } else if i == 7 {
        RecordKind::ProcDesc
    } else if i == 8 {
        RecordKind::MemDesc
    } else if i == 9 {
        RecordKind::ProcMDesc
    } else if i == 10 {
        RecordKind::IndexSpacePointDesc
    } else if i == 11 {
        RecordKind::IndexSpaceRectDesc
    } else if i == 12 {
        RecordKind::IndexSpaceEmptyDesc
    } else if i == 13 {
        RecordKind::FieldDesc
    } else if i == 14 {
        RecordKind::FieldSpaceDesc
    } else if i == 15 {
        RecordKind::PartDesc
    } else if i == 16 {
        RecordKind::IndexSpaceDesc
    } else if i == 17 {
        RecordKind::IndexSubSpaceDesc
    } else if i == 18 {
        RecordKind::IndexPartitionDesc
    } else if i == 19 {
        RecordKind::IndexSpaceSizeDesc
    } else if i == 20 {
        RecordKind::LogicalRegionDesc
    } else if i == 21 {
        RecordKind::PhysicalInstRegionDesc
    } else if i == 22 {
        RecordKind::PhysicalInstLayoutDesc
    } else if i == 23 {
        RecordKind::PhysicalInstDimOrderDesc
    } else if i == 24 {
        RecordKind::PhysicalInstanceUsage
    } else if i == 25 {
        RecordKind::TaskKind
    } else if i == 26 {
        RecordKind::TaskVariant
    } else if i == 27 {
        RecordKind::OperationInstance
    } else if i == 28 {
        RecordKind::MultiTask
    } else if i == 29 {
        RecordKind::SliceOwner
    } else if i == 30 {
        RecordKind::TaskWaitInfo
    } else if i == 31 {
        RecordKind::MetaWaitInfo
    } else if i == 32 {
        RecordKind::TaskInfo
    } else if i == 33 {
        RecordKind::GPUTaskInfo
    } else if i == 34 {
        RecordKind::MetaInfo
    } else if i == 35 {
        RecordKind::CopyInfo
    } else if i == 36 {
        RecordKind::CopyInstInfo
    } else if i == 37 {
        RecordKind::FillInfo
    } else if i == 38 {
        RecordKind::FillInstInfo
    } else if i == 39 {
        RecordKind::InstTimelineInfo
    } else if i == 40 {
        RecordKind::PartitionInfo
    } else if i == 41 {
        RecordKind::MapperCallInfo
    } else if i == 42 {
        RecordKind::RuntimeCallInfo
    } else {
        RecordKind::ProfTaskInfo
    }
}

/// The tag that the first `n` formats declare for a name: where a name is
/// declared more than once, the last declaration counts.
pub open spec fn declared_id(formats: Seq<RecordFormatView>, n: int, name: Seq<char>) -> Option<u32>
    decreases n,
{
    if n <= 0 {
        None
    } else if formats[n - 1].name == name {
        Some(formats[n - 1].id)
    } else {
        declared_id(formats, n - 1, name)
    }
}

/// Finds the tag that the formats declare for a name.
pub fn lookup_id(formats: &Vec<RecordFormat>, name: &str) -> (res: Option<u32>)
    ensures
        res == declared_id(views(formats@), formats@.len() as int, name@),
{
    let mut n: usize = formats.len();
    while n > 0
        invariant
            n <= formats@.len(),
            declared_id(views(formats@), formats@.len() as int, name@) == declared_id(
                views(formats@),
                n as int,
                name@,
            ),
        decreases n,
    {
        assert(views(formats@)[n - 1] == formats@[n - 1]@);
        if text_is(&formats[n - 1].name, name) {
            return Some(formats[n - 1].id);
        }
        n = n - 1;
    }
    None
}

/// The tag that the formats declare for a record kind.
pub open spec fn declared_tag(formats: Seq<RecordFormatView>, kind: RecordKind) -> Option<u32> {
    declared_id(formats, formats.len() as int, kind.name())
}

/// True when the formats declare every required record kind.
pub open spec fn complete(formats: Seq<RecordFormatView>) -> bool {
    forall|i: int| 0 <= i < KINDS ==> (#[trigger] declared_tag(formats, kind_at(i))) is Some
}

/// The tags of the required kinds, in binding order, when all are declared.
pub open spec fn tags_of(formats: Seq<RecordFormatView>) -> Option<Seq<u32>> {
    if complete(formats) {
        Some(Seq::new(KINDS as nat, |i: int| declared_tag(formats, kind_at(i))->0))
    } else {
        None
    }
}

/// The kind that a tag is bound to among the first `n` required kinds: where
/// several kinds were declared with one tag, the last in binding order.
pub open spec fn bound_kind(tags: Seq<u32>, n: int, tag: u32) -> Option<RecordKind>
    decreases n,
{
    if n <= 0 {
        None
    } else if tags[n - 1] == tag {
        Some(kind_at(n - 1))
    } else {
        bound_kind(tags, n - 1, tag)
    }
}

/// The tags of a file: one for each required record kind, in binding order.
#[derive(Debug, Clone, PartialEq, Eq)]
pub struct Registry {
    pub tags: Vec<u32>,
}

impl Registry {
    /// A registry holds exactly one tag for each required kind.
    pub open spec fn wf(&self) -> bool {
        self.tags@.len() == KINDS
    }

    /// Binds each required record kind to the tag that the formats declare
    /// for it; fails when one of them is not declared.
    pub fn build(formats: &Vec<RecordFormat>) -> (res: Result<Registry, FormatError>)
        ensures
            match tags_of(views(formats@)) {
                Some(tags) => res matches Ok(registry) && registry.wf() && registry.tags@ == tags,
                None => res == Err::<Registry, FormatError>(FormatError::MissingFormat),
            },
    {
        let mut tags: Vec<u32> = Vec::new();
        let mut i: usize = 0;
        while i < KINDS
            invariant
                i <= KINDS,
                tags@.len() == i,
                forall|j: int|
                    0 <= j < i ==> (#[trigger] declared_tag(views(formats@), kind_at(j))) == Some(
                        tags@[j],
                    ),
            decreases KINDS - i,
        {
            let kind = required_kind(i);
            match lookup_id(formats, kind.label()) {
                Some(tag) => {
                    tags.push(tag);
                },
                None => {
                    assert(declared_tag(views(formats@), kind_at(i as int)) is None);
                    return Err(FormatError::MissingFormat);
                },
            }
            i = i + 1;
        }
        assert(tags@ =~= Seq::new(
            KINDS as nat,
            |i: int| declared_tag(views(formats@), kind_at(i))->0,
        ));
        Ok(Registry { tags })
    }

    /// The record kind that a tag stands for in this file.
    pub fn kind_of(&self, tag: u32) -> (res: Option<RecordKind>)
        requires
            self.wf(),
        ensures
            res == bound_kind(self.tags@, KINDS as int, tag),
    {
        let mut n: usize = KINDS;
        while n > 0
            invariant
                n <= KINDS,
                self.wf(),
                bound_kind(self.tags@, KINDS as int, tag) == bound_kind(self.tags@, n as int, tag),
            decreases n,
        {
            if self.tags[n - 1] == tag {
                return Some(required_kind(n - 1));
            }
            n = n - 1;
        }
        None
    }
}

} // verus!
