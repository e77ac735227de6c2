use vstd::prelude::*;

verus! {

/// The type of a segment described by a program header.
///
/// The type is an open set: values this library does not know are kept in
/// the [`SegmentType::Unknown`] variant with their raw number, so that
/// conversion in both directions is total and future values stay
/// representable.
#[derive(Clone, Copy, Debug, Eq, PartialEq, Structural)]
pub enum SegmentType {
    /// Program header table entry is unused.
    Null,
    /// Loadable segment.
    Load,
    /// Dynamic linking information.
    Dynamic,
    /// Interpreter information.
    Interpreter,
    /// Auxiliary information.
    Note,
    /// Reserved.
    ShLib,
    /// Segment containing the program header table itself.
    ProgramHeader,
    /// Thread-local storage template.
    ThreadLocalStorage,
    /// A type this library has no name for; carries the raw value.
    Unknown(u32),
}

impl SegmentType {
    /// The segment type that a field value denotes.
    pub open spec fn spec_from_value(v: u32) -> SegmentType {
        if v == 0 {
            SegmentType::Null
        } else if v == 1 {
            SegmentType::Load
        } else if v == 2 {
            SegmentType::Dynamic
        } else if v == 3 {
            SegmentType::Interpreter
        } else if v == 4 {
            SegmentType::Note
        } else if v == 5 {
            SegmentType::ShLib
        } else if v == 6 {
            SegmentType::ProgramHeader
        } else if v == 7 {
            SegmentType::ThreadLocalStorage
        } else {
            SegmentType::Unknown(v)
        }
    }

    /// The field value that this segment type is written as.
    pub open spec fn spec_value(self) -> u32 {
        match self {
            SegmentType::Null => 0,
            SegmentType::Load => 1,
            SegmentType::Dynamic => 2,
            SegmentType::Interpreter => 3,
            SegmentType::Note => 4,
            SegmentType::ShLib => 5,
            SegmentType::ProgramHeader => 6,
            SegmentType::ThreadLocalStorage => 7,
            SegmentType::Unknown(v) => v,
        }
    }
}

impl From<u32> for SegmentType {
    /// The segment type denoted by a field value; total, never fails.
    fn from(v: u32) -> (r: SegmentType)
        ensures
            r == SegmentType::spec_from_value(v),
    {
        match v {
            0 => SegmentType::Null,
            1 => SegmentType::Load,
            2 => SegmentType::Dynamic,
            3 => SegmentType::Interpreter,
            4 => SegmentType::Note,
            5 => SegmentType::ShLib,
            6 => SegmentType::ProgramHeader,
            7 => SegmentType::ThreadLocalStorage,
            _ => SegmentType::Unknown(v),
        }
    }
}

impl vstd::std_specs::convert::FromSpecImpl<u32> for SegmentType {
    open spec fn obeys_from_spec() -> bool {
        true
    }

    open spec fn from_spec(v: u32) -> SegmentType {
        SegmentType::spec_from_value(v)
    }
}

impl From<SegmentType> for u32 {
    /// The field value for a segment type, as written in an ELF file.
    fn from(v: SegmentType) -> (r: u32)
        ensures
            r == v.spec_value(),
    {
        match v {
            SegmentType::Null => 0,
            SegmentType::Load => 1,
            SegmentType::Dynamic => 2,
            SegmentType::Interpreter => 3,
            SegmentType::Note => 4,
            SegmentType::ShLib => 5,
            SegmentType::ProgramHeader => 6,
            SegmentType::ThreadLocalStorage => 7,
            SegmentType::Unknown(v) => v,
        }
    }
}

impl vstd::std_specs::convert::FromSpecImpl<SegmentType> for u32 {
    open spec fn obeys_from_spec() -> bool {
        true
    }

    open spec fn from_spec(v: SegmentType) -> u32 {
        v.spec_value()
    }
}

} // verus!
