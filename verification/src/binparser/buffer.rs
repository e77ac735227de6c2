use vstd::prelude::*;

verus! {

/// A byte region that is either a live reference into a byte source or an
/// allocation of its own.
///
/// A source that holds the whole image in memory lends out a region
/// directly; one that must materialize bytes hands over an owned copy.
/// Either way the region reads as one immutable run of bytes.
#[derive(Debug)]
pub enum Buffer<'b> {
    /// A reference into memory owned elsewhere.
    AsRef(&'b [u8]),
    /// An allocation owned by the region itself.
    Owning(Vec<u8>),
}

impl<'b> Buffer<'b> {
    /// The bytes the region holds, wherever they live.
    pub open spec fn bytes(&self) -> Seq<u8> {
        match self {
            Buffer::AsRef(r) => r@,
            Buffer::Owning(o) => o@,
        }
    }

    /// Whether the region is a reference to memory owned elsewhere.
    pub fn is_ref(&self) -> (r: bool)
        ensures
            r == (self is AsRef),
    {
        match self {
            Buffer::AsRef(_) => true,
            Buffer::Owning(_) => false,
        }
    }

    /// Whether the region owns its bytes, freed when the region is dropped.
    pub fn is_owned(&self) -> (r: bool)
        ensures
            r == (self is Owning),
    {
        match self {
            Buffer::AsRef(_) => false,
            Buffer::Owning(_) => true,
        }
    }

    /// A read-only view of the region's bytes.
    pub fn buffer(&'b self) -> (r: &'b [u8])
        ensures
            r@ == self.bytes(),
    {
        match self {
            Buffer::AsRef(r) => r,
            Buffer::Owning(o) => o.as_slice(),
        }
    }
}

} // verus!
