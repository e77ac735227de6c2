use vstd::prelude::*;

verus! {

/// The target instruction set architecture of an ELF file.
///
/// The architecture field is an open numeric space: new values are assigned
/// over time, so the wrapper keeps the raw 16-bit number and conversion in
/// both directions is total. A few widely used assignments are provided as
/// named constants for convenience.
#[derive(Clone, Copy, Debug, Eq, PartialEq, Structural)]
pub struct Machine {
    machine: u16,
}

impl Machine {
    /// No machine.
    pub const NONE: u16 = 0x0000;

    /// Bellmac 32 AT&T WE 32100.
    pub const M32: u16 = 0x0001;

    /// SPARC.
    pub const SPARC: u16 = 0x0002;

    /// Intel 80386.
    pub const INTEL_386: u16 = 0x0003;

    /// Motorola 68000.
    pub const MOTOROLA_68K: u16 = 0x0004;

    /// Motorola 88000.
    pub const MOTOROLA_88K: u16 = 0x0005;

    /// MIPS I architecture.
    pub const MIPS: u16 = 0x0008;

    /// Hewlett-Packard PA-RISC.
    pub const PARISC: u16 = 0x000F;

    /// PowerPC.
    pub const PPC: u16 = 0x0014;

    /// 64-bit PowerPC.
    pub const PPC64: u16 = 0x0015;

    /// IBM System/390.
    pub const S390: u16 = 0x0016;

    /// ARM 32-bit architecture (AArch32).
    pub const ARM: u16 = 0x0028;

    /// Hitachi SuperH.
    pub const SH: u16 = 0x002A;

    /// SPARC Version 9.
    pub const SPARCV9: u16 = 0x002B;

    /// Intel IA-64 processor architecture.
    pub const IA_64: u16 = 0x0032;

    /// AMD x86-64 architecture.
    pub const X86_64: u16 = 0x003E;

    /// ARM 64-bit architecture (AArch64).
    pub const AARCH64: u16 = 0x00B7;

    /// RISC-V.
    pub const RISCV: u16 = 0x00F3;

    /// The numeric architecture identifier this wrapper carries.
    pub closed spec fn spec_machine(self) -> u16 {
        self.machine
    }

    /// The wrapper that carries the given numeric architecture identifier.
    pub closed spec fn spec_from(v: u16) -> Machine {
        Machine { machine: v }
    }

    /// Get the numeric architecture identifier as stored in the ELF file.
    pub fn machine(&self) -> (r: u16)
        ensures
            r == self.spec_machine(),
    {
        self.machine
    }
}

impl From<u16> for Machine {
    /// Wrap a numeric architecture identifier; total, never fails.
    fn from(v: u16) -> (r: Machine)
        ensures
            r.spec_machine() == v,
    {
        Machine { machine: v }
    }
}

impl vstd::std_specs::convert::FromSpecImpl<u16> for Machine {
    open spec fn obeys_from_spec() -> bool {
        true
    }

    open spec fn from_spec(v: u16) -> Machine {
        Machine::spec_from(v)
    }
}

impl From<Machine> for u16 {
    /// The numeric architecture identifier, as written in an ELF file.
    fn from(v: Machine) -> (r: u16)
        ensures
            r == v.spec_machine(),
    {
        v.machine
    }
}

impl vstd::std_specs::convert::FromSpecImpl<Machine> for u16 {
    open spec fn obeys_from_spec() -> bool {
        true
    }

    open spec fn from_spec(v: Machine) -> u16 {
        v.spec_machine()
    }
}

} // verus!
