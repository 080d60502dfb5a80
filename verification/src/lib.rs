//! Decoder for the self-describing binary profiler log format.
//!
//! A log starts with a textual schema that declares the record kinds of the
//! file and their wire tags, followed by a stream of binary records. The
//! contracts of this crate state, over byte sequences, what each decoder
//! returns and where it stops.

pub mod decode;
pub mod driver;
pub mod error;
pub mod filter;
pub mod header;
pub mod ids;
pub mod laws;
pub mod prims;
pub mod record;
pub mod registry;
pub mod stability;

pub use crate::driver::{decode_payload, deserialize, parse, parse_record, Context};
pub use crate::error::{DeserializeError, FormatError};
pub use crate::filter::{filter_record, is_on_visible_nodes};
pub use crate::header::{
    convert_value_format, is_alphanumeric_space, is_alphanumeric_underscore, FieldFormat,
    RecordFormat, ValueFormat,
};
pub use crate::ids::{
    EventID, FSpaceID, FieldID, IPartID, ISpaceID, InstID, InstUID, MapperCallKindID, MemID,
    NodeID, OpID, ProcID, RuntimeCallKindID, TaskID, Timestamp, TreeID, VariantID,
};
pub use crate::prims::is_nul;
pub use crate::record::{Array, Point, Record, RecordKind, RecordView};
pub use crate::registry::Registry;
