use vstd::prelude::*;

verus! {

/// The flag bits of a segment in the program header table.
///
/// The wrapper keeps the raw 32-bit flag word; the named constants give the
/// three permission bits that the format defines.
#[derive(Clone, Copy, Debug, Eq, PartialEq, Structural)]
pub struct SegmentFlags {
    flags: u32,
}

impl SegmentFlags {
    /// No flags are set.
    pub const NONE: u32 = 0;

    /// Executable segment.
    pub const X: u32 = 1;

    /// Writable segment.
    pub const W: u32 = 2;

    /// Readable segment.
    pub const R: u32 = 4;

    /// The raw flag word this wrapper carries.
    pub closed spec fn spec_flags(self) -> u32 {
        self.flags
    }

    /// The wrapper that carries the given raw flag word.
    pub closed spec fn spec_from(v: u32) -> SegmentFlags {
        SegmentFlags { flags: v }
    }

    /// Get the raw flag word as stored in the ELF file.
    pub fn flags(&self) -> (r: u32)
        ensures
            r == self.spec_flags(),
    {
        self.flags
    }
}

impl From<u32> for SegmentFlags {
    /// Wrap a raw flag word; total, never fails.
    fn from(v: u32) -> (r: SegmentFlags)
        ensures
            r.spec_flags() == v,
    {
        SegmentFlags { flags: v }
    }
}

impl vstd::std_specs::convert::FromSpecImpl<u32> for SegmentFlags {
    open spec fn obeys_from_spec() -> bool {
        true
    }

    open spec fn from_spec(v: u32) -> SegmentFlags {
        SegmentFlags::spec_from(v)
    }
}

impl From<SegmentFlags> for u32 {
    /// The raw flag word, as written in an ELF file.
    fn from(v: SegmentFlags) -> (r: u32)
        ensures
            r == v.spec_flags(),
    {
        v.flags
    }
}

impl vstd::std_specs::convert::FromSpecImpl<SegmentFlags> for u32 {
    open spec fn obeys_from_spec() -> bool {
        true
    }

    open spec fn from_spec(v: SegmentFlags) -> u32 {
        v.spec_flags()
    }
}

} // verus!
