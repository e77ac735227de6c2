use vstd::prelude::*;

verus! {

/// The byte order used for every multi-byte field of an ELF file.
///
/// The endianness is read from the sixth byte of the identification block
/// and is immutable once parsed.
#[derive(Clone, Copy, Debug, Eq, PartialEq, Structural)]
pub enum Endian {
    /// Little endian: the first byte of a field is the least significant.
    Little,
    /// Big endian: the first byte of a field is the most significant.
    Big,
}

impl Endian {
    /// The identification byte that stands for this byte order in an ELF file.
    pub open spec fn spec_value(self) -> u8 {
        match self {
            Endian::Little => 1,
            Endian::Big => 2,
        }
    }

    /// Map an identification byte to the byte order it denotes, if any.
    ///
    /// Only the bytes 1 and 2 denote a byte order; every other byte is
    /// rejected.
    pub fn try_from(v: u8) -> (r: Result<Endian, ()>)
        ensures
            r matches Ok(e) ==> e.spec_value() == v,
            r is Ok <==> (v == 1 || v == 2),
    {
        match v {
            1 => Ok(Endian::Little),
            2 => Ok(Endian::Big),
            _ => Err(()),
        }
    }
}

impl From<Endian> for u8 {
    /// The identification byte for the byte order, as written in an ELF file.
    fn from(v: Endian) -> (r: u8)
        ensures
            r == v.spec_value(),
    {
        match v {
            Endian::Little => 1,
            Endian::Big => 2,
        }
    }
}

impl vstd::std_specs::convert::FromSpecImpl<Endian> for u8 {
    open spec fn obeys_from_spec() -> bool {
        true
    }

    open spec fn from_spec(v: Endian) -> u8 {
        v.spec_value()
    }
}

} // verus!
