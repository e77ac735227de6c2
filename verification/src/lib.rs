//! Read-only, lazy inspection of ELF (Executable and Linkable Format) files.
//!
//! Use [`ReadElf`] to parse the file header of an ELF image held in memory,
//! then walk its program headers (segments) and section headers through the
//! lazy table readers it hands out. Every field extraction is bounds-checked
//! and endian-aware; malformed, truncated or adversarial input is answered
//! with an absent value, never a panic.

mod endian;
pub use endian::Endian;

mod class;
pub use class::Class;

mod osabi;
pub use osabi::OsAbi;

mod machine;
pub use machine::Machine;

mod segment_type;
pub use segment_type::SegmentType;

mod segment_flags;
pub use segment_flags::SegmentFlags;

mod section_type;
pub use section_type::SectionType;

mod section_flags;
pub use section_flags::SectionFlags;

mod executable_type;
pub use executable_type::ExecutableType;

pub mod binparser;
pub use binparser::{Buffer, Slice, VecBuffer};

pub mod readelf;
pub use readelf::{HeaderFields, ProgramHeader, ProgramHeaders, ReadElf, SectionFields, SectionHeader, SectionHeaders};
