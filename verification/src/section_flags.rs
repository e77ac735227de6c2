use vstd::prelude::*;

verus! {

/// The flag bits of a section in the section header table.
///
/// The wrapper keeps the raw flag word, widened to 64 bits even for 32-bit
/// files; the named constants give the standard attribute bits and the two
/// reserved masks.
#[derive(Clone, Copy, Debug, Eq, PartialEq, Structural)]
pub struct SectionFlags {
    flags: u64,
}

impl SectionFlags {
    /// No flags are set.
    pub const NONE: u64 = 0;

    /// Writable.
    pub const WRITE: u64 = 0x00000001;

    /// Occupies memory during execution.
    pub const ALLOC: u64 = 0x00000002;

    /// Executable.
    pub const EXECINSTR: u64 = 0x00000004;

    /// Might be merged.
    pub const MERGE: u64 = 0x00000010;

    /// Contains null-terminated strings.
    pub const STRINGS: u64 = 0x00000020;

    /// The info field holds a section header table index.
    pub const INFO_LINK: u64 = 0x00000040;

    /// Preserve order after combining.
    pub const LINK_ORDER: u64 = 0x00000080;

    /// Non-standard OS specific handling required.
    pub const OS_NONCONFORMING: u64 = 0x00000100;

    /// Section is member of a group.
    pub const GROUP: u64 = 0x00000200;

    /// Section holds thread-local data.
    pub const TLS: u64 = 0x00000400;

    /// OS specific mask.
    pub const MASKOS: u64 = 0x0FF00000;

    /// Processor specific mask.
    pub const MASKPROC: u64 = 0xF0000000;

    /// The raw flag word this wrapper carries.
    pub closed spec fn spec_flags(self) -> u64 {
        self.flags
    }

    /// The wrapper that carries the given raw flag word.
    pub closed spec fn spec_from(v: u64) -> SectionFlags {
        SectionFlags { flags: v }
    }

    /// Get the raw flag word as stored in the ELF file.
    pub fn flags(&self) -> (r: u64)
        ensures
            r == self.spec_flags(),
    {
        self.flags
    }
}

impl From<u64> for SectionFlags {
    /// Wrap a raw flag word; total, never fails.
    fn from(v: u64) -> (r: SectionFlags)
        ensures
            r.spec_flags() == v,
    {
        SectionFlags { flags: v }
    }
}

impl vstd::std_specs::convert::FromSpecImpl<u64> for SectionFlags {
    open spec fn obeys_from_spec() -> bool {
        true
    }

    open spec fn from_spec(v: u64) -> SectionFlags {
        SectionFlags::spec_from(v)
    }
}

impl From<SectionFlags> for u64 {
    /// The raw flag word, as written in an ELF file.
    fn from(v: SectionFlags) -> (r: u64)
        ensures
            r == v.spec_flags(),
    {
        v.flags
    }
}

impl vstd::std_specs::convert::FromSpecImpl<SectionFlags> for u64 {
    open spec fn obeys_from_spec() -> bool {
        true
    }

    open spec fn from_spec(v: SectionFlags) -> u64 {
        v.spec_flags()
    }
}

} // verus!
