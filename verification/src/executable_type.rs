use vstd::prelude::*;

verus! {

/// The object file type of an ELF file.
///
/// The type is an open set: values that this library does not know are kept
/// in the [`ExecutableType::Unknown`] variant with their raw number, so that
/// conversion in both directions is total and future values stay
/// representable. Code that wants to stay forward compatible should convert
/// to the number rather than match on `Unknown`.
#[derive(Clone, Copy, Debug, Eq, PartialEq, Structural)]
pub enum ExecutableType {
    /// No file type is given.
    NoType,
    /// Relocatable file.
    Relocatable,
    /// Executable file.
    Executable,
    /// Shared object.
    Dynamic,
    /// Core file.
    Core,
    /// A type this library has no name for; carries the raw value.
    Unknown(u16),
}

impl ExecutableType {
    /// Reserved range, lower value for operating system specific types.
    pub const LOOS: u16 = 0xFE00;

    /// Reserved range, higher value for operating system specific types.
    pub const HIOS: u16 = 0xFEFF;

    /// Reserved range, lower value for processor specific types.
    pub const LOPROC: u16 = 0xFF00;

    /// Reserved range, higher value for processor specific types.
    pub const HIPROC: u16 = 0xFFFF;

    /// The object file type that a field value denotes.
    pub open spec fn spec_from_value(v: u16) -> ExecutableType {
        if v == 0 {
            ExecutableType::NoType
        } else if v == 1 {
            ExecutableType::Relocatable
        } else if v == 2 {
            ExecutableType::Executable
        } else if v == 3 {
            ExecutableType::Dynamic
        } else if v == 4 {
            ExecutableType::Core
        } else {
            ExecutableType::Unknown(v)
        }
    }

    /// The field value that this object file type is written as.
    pub open spec fn spec_value(self) -> u16 {
        match self {
            ExecutableType::NoType => 0,
            ExecutableType::Relocatable => 1,
            ExecutableType::Executable => 2,
            ExecutableType::Dynamic => 3,
            ExecutableType::Core => 4,
            ExecutableType::Unknown(v) => v,
        }
    }
}

impl From<u16> for ExecutableType {
    /// The object file type denoted by a field value; total, never fails.
    fn from(v: u16) -> (r: ExecutableType)
        ensures
            r == ExecutableType::spec_from_value(v),
    {
        match v {
            0 => ExecutableType::NoType,
            1 => ExecutableType::Relocatable,
            2 => ExecutableType::Executable,
            3 => ExecutableType::Dynamic,
            4 => ExecutableType::Core,
            _ => ExecutableType::Unknown(v),
        }
    }
}

impl vstd::std_specs::convert::FromSpecImpl<u16> for ExecutableType {
    open spec fn obeys_from_spec() -> bool {
        true
    }

    open spec fn from_spec(v: u16) -> ExecutableType {
        ExecutableType::spec_from_value(v)
    }
}

impl From<ExecutableType> for u16 {
    /// The field value for an object file type, as written in an ELF file.
    fn from(v: ExecutableType) -> (r: u16)
        ensures
            r == v.spec_value(),
    {
        match v {
            ExecutableType::NoType => 0,
            ExecutableType::Relocatable => 1,
            ExecutableType::Executable => 2,
            ExecutableType::Dynamic => 3,
            ExecutableType::Core => 4,
            ExecutableType::Unknown(v) => v,
        }
    }
}

impl vstd::std_specs::convert::FromSpecImpl<ExecutableType> for u16 {
    open spec fn obeys_from_spec() -> bool {
        true
    }

    open spec fn from_spec(v: ExecutableType) -> u16 {
        v.spec_value()
    }
}

} // verus!
