use vstd::prelude::*;

verus! {

/// The type of a section described by a section header.
///
/// The type is an open set: values this library does not know are kept in
/// the [`SectionType::Unknown`] variant with their raw number, so that
/// conversion in both directions is total and future values stay
/// representable.
#[derive(Clone, Copy, Debug, Eq, PartialEq, Structural)]
pub enum SectionType {
    /// Section header table entry is unused.
    Null,
    /// Program data.
    ProgBits,
    /// Symbol table.
    SymTab,
    /// String table.
    StrTab,
    /// Relocation entries with addends.
    RelA,
    /// Symbol hash table.
    Hash,
    /// Dynamic linking information.
    Dynamic,
    /// Notes.
    Note,
    /// Program space with no data (BSS).
    NoBits,
    /// Relocation entries, no addends.
    Rel,
    /// Reserved.
    ShLib,
    /// Dynamic linker symbol table.
    DynSym,
    /// Array of constructors.
    InitArray,
    /// Array of destructors.
    FiniArray,
    /// Array of pre-constructors.
    PreInitArray,
    /// Section group.
    Group,
    /// Extended section indices.
    SymTabIndex,
    /// A type this library has no name for; carries the raw value.
    Unknown(u32),
}

impl SectionType {
    /// The section type that a field value denotes.
    pub open spec fn spec_from_value(v: u32) -> SectionType {
        if v == 0 {
            SectionType::Null
        } else if v == 1 {
            SectionType::ProgBits
        } else if v == 2 {
            SectionType::SymTab
        } else if v == 3 {
            SectionType::StrTab
        } else if v == 4 {
            SectionType::RelA
        } else if v == 5 {
            SectionType::Hash
        } else if v == 6 {
            SectionType::Dynamic
        } else if v == 7 {
            SectionType::Note
        } else if v == 8 {
            SectionType::NoBits
        } else if v == 9 {
            SectionType::Rel
        } else if v == 10 {
            SectionType::ShLib
        } else if v == 11 {
            SectionType::DynSym
        } else if v == 14 {
            SectionType::InitArray
        } else if v == 15 {
            SectionType::FiniArray
        } else if v == 16 {
            SectionType::PreInitArray
        } else if v == 17 {
            SectionType::Group
        } else if v == 18 {
            SectionType::SymTabIndex
        } else {
            SectionType::Unknown(v)
        }
    }

    /// The field value that this section type is written as.
    pub open spec fn spec_value(self) -> u32 {
        match self {
            SectionType::Null => 0,
            SectionType::ProgBits => 1,
            SectionType::SymTab => 2,
            SectionType::StrTab => 3,
            SectionType::RelA => 4,
            SectionType::Hash => 5,
            SectionType::Dynamic => 6,
            SectionType::Note => 7,
            SectionType::NoBits => 8,
            SectionType::Rel => 9,
            SectionType::ShLib => 10,
            SectionType::DynSym => 11,
            SectionType::InitArray => 14,
            SectionType::FiniArray => 15,
            SectionType::PreInitArray => 16,
            SectionType::Group => 17,
            SectionType::SymTabIndex => 18,
            SectionType::Unknown(v) => v,
        }
    }
}

impl From<u32> for SectionType {
    /// The section type denoted by a field value; total, never fails.
    fn from(v: u32) -> (r: SectionType)
        ensures
            r == SectionType::spec_from_value(v),
    {
        match v {
            0 => SectionType::Null,
            1 => SectionType::ProgBits,
            2 => SectionType::SymTab,
            3 => SectionType::StrTab,
            4 => SectionType::RelA,
            5 => SectionType::Hash,
            6 => SectionType::Dynamic,
            7 => SectionType::Note,
            8 => SectionType::NoBits,
            9 => SectionType::Rel,
            10 => SectionType::ShLib,
            11 => SectionType::DynSym,
            14 => SectionType::InitArray,
            15 => SectionType::FiniArray,
            16 => SectionType::PreInitArray,
            17 => SectionType::Group,
            18 => SectionType::SymTabIndex,
            _ => SectionType::Unknown(v),
        }
    }
}

impl vstd::std_specs::convert::FromSpecImpl<u32> for SectionType {
    open spec fn obeys_from_spec() -> bool {
        true
    }

    open spec fn from_spec(v: u32) -> SectionType {
        SectionType::spec_from_value(v)
    }
}

impl From<SectionType> for u32 {
    /// The field value for a section type, as written in an ELF file.
    fn from(v: SectionType) -> (r: u32)
        ensures
            r == v.spec_value(),
    {
        match v {
            SectionType::Null => 0,
            SectionType::ProgBits => 1,
            SectionType::SymTab => 2,
            SectionType::StrTab => 3,
            SectionType::RelA => 4,
            SectionType::Hash => 5,
            SectionType::Dynamic => 6,
            SectionType::Note => 7,
            SectionType::NoBits => 8,
            SectionType::Rel => 9,
            SectionType::ShLib => 10,
            SectionType::DynSym => 11,
            SectionType::InitArray => 14,
            SectionType::FiniArray => 15,
            SectionType::PreInitArray => 16,
            SectionType::Group => 17,
            SectionType::SymTabIndex => 18,
            SectionType::Unknown(v) => v,
        }
    }
}

impl vstd::std_specs::convert::FromSpecImpl<SectionType> for u32 {
    open spec fn obeys_from_spec() -> bool {
        true
    }

    open spec fn from_spec(v: SectionType) -> u32 {
        v.spec_value()
    }
}

} // verus!
