use vstd::prelude::*;

verus! {

/// The ABI for the target operating system of an ELF file.
///
/// The field is a raw byte whose interpretation belongs to the operating
/// system; the wrapper keeps it as-is and conversion in both directions is
/// total. Well-known assignments are provided as named constants.
#[derive(Clone, Copy, Debug, Eq, PartialEq, Structural)]
pub struct OsAbi {
    os_abi: u8,
}

impl OsAbi {
    /// Unspecified.
    pub const NONE: u8 = 0;

    /// System V.
    pub const SYSV: u8 = 0;

    /// HP-UX.
    pub const HPUX: u8 = 1;

    /// NetBSD.
    pub const NETBSD: u8 = 2;

    /// GNU Linux.
    pub const LINUX: u8 = 3;

    /// GNU Hurd.
    pub const GNUHURD: u8 = 4;

    /// Solaris.
    pub const SOLARIS: u8 = 6;

    /// IBM AIX (Monterey).
    pub const AIX: u8 = 7;

    /// IRIX.
    pub const IRIX: u8 = 8;

    /// FreeBSD.
    pub const FREEBSD: u8 = 9;

    /// Tru64.
    pub const TRU64: u8 = 10;

    /// Novell Modesto.
    pub const MODESTO: u8 = 11;

    /// OpenBSD.
    pub const OPENBSD: u8 = 12;

    /// OpenVMS.
    pub const OPENVMS: u8 = 13;

    /// NonStop Kernel.
    pub const NSK: u8 = 14;

    /// AROS Research Operating System.
    pub const AROS: u8 = 15;

    /// FenixOS.
    pub const FENIXOS: u8 = 16;

    /// Nuxi CloudABI.
    pub const CLOUDABI: u8 = 17;

    /// OpenVOS.
    pub const OPENVOS: u8 = 18;

    /// AMD Mesa3D Runtime.
    pub const AMDGPU_MESA3D: u8 = 66;

    /// ARM.
    pub const ARM: u8 = 97;

    /// Standalone (embedded) application.
    pub const STANDALONE: u8 = 255;

    /// The raw ABI byte this wrapper carries.
    pub closed spec fn spec_os_abi(self) -> u8 {
        self.os_abi
    }

    /// The wrapper that carries the given raw ABI byte.
    pub closed spec fn spec_from(v: u8) -> OsAbi {
        OsAbi { os_abi: v }
    }

    /// Get the raw ABI byte as stored in the ELF file.
    pub fn os_abi(&self) -> (r: u8)
        ensures
            r == self.spec_os_abi(),
    {
        self.os_abi
    }
}

impl From<u8> for OsAbi {
    /// Wrap a raw ABI byte; total, never fails.
    fn from(v: u8) -> (r: OsAbi)
        ensures
            r.spec_os_abi() == v,
    {
        OsAbi { os_abi: v }
    }
}

impl vstd::std_specs::convert::FromSpecImpl<u8> for OsAbi {
    open spec fn obeys_from_spec() -> bool {
        true
    }

    open spec fn from_spec(v: u8) -> OsAbi {
        OsAbi::spec_from(v)
    }
}

impl From<OsAbi> for u8 {
    /// The raw ABI byte, as written in an ELF file.
    fn from(v: OsAbi) -> (r: u8)
        ensures
            r == v.spec_os_abi(),
    {
        v.os_abi
    }
}

impl vstd::std_specs::convert::FromSpecImpl<OsAbi> for u8 {
    open spec fn obeys_from_spec() -> bool {
        true
    }

    open spec fn from_spec(v: OsAbi) -> u8 {
        v.spec_os_abi()
    }
}

} // verus!
