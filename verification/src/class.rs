use vstd::prelude::*;

verus! {

/// The class of an ELF file: whether addresses, offsets and sizes are laid
/// out on disk as 32-bit or as 64-bit values.
///
/// The class is read from the fifth byte of the identification block and is
/// immutable once parsed. It selects between the two fixed field layouts that
/// the header and table decoders understand.
#[derive(Clone, Copy, Debug, Eq, PartialEq, Structural)]
pub enum Class {
    /// 32-bit format: pointers and offsets in the file are 32-bit values.
    Elf32,
    /// 64-bit format: entry points and file offsets are 64-bit values.
    Elf64,
}

impl Class {
    /// The identification byte that stands for this class in an ELF file.
    pub open spec fn spec_value(self) -> u8 {
        match self {
            Class::Elf32 => 1,
            Class::Elf64 => 2,
        }
    }

    /// Map an identification byte to the class it denotes, if any.
    ///
    /// Only the bytes 1 and 2 denote a class; every other byte is rejected.
    pub fn try_from(v: u8) -> (r: Result<Class, ()>)
        ensures
            r matches Ok(c) ==> c.spec_value() == v,
            r is Ok <==> (v == 1 || v == 2),
    {
        match v {
            1 => Ok(Class::Elf32),
            2 => Ok(Class::Elf64),
            _ => Err(()),
        }
    }
}

impl From<Class> for u8 {
    /// The identification byte for the class, as written in an ELF file.
    fn from(v: Class) -> (r: u8)
        ensures
            r == v.spec_value(),
    {
        match v {
            Class::Elf32 => 1,
            Class::Elf64 => 2,
        }
    }
}

impl vstd::std_specs::convert::FromSpecImpl<Class> for u8 {
    open spec fn obeys_from_spec() -> bool {
        true
    }

    open spec fn from_spec(v: Class) -> u8 {
        v.spec_value()
    }
}

} // verus!
