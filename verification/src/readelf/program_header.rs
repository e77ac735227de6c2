use vstd::prelude::*;

use vstd::arithmetic::div_mod::{lemma_fundamental_div_mod, lemma_mod_multiples_basic};
use vstd::arithmetic::power2::{
    lemma2_to64, lemma2_to64_rest, lemma_pow2_strictly_increases, lemma_pow2_unfold, pow2,
};

use crate::binparser::{u32_at, u64_at};
use crate::readelf::HeaderFields;
use crate::{Class, ReadElf, SegmentFlags, SegmentType};

verus! {

/// The smallest entry size that can hold a program header of the given
/// class; it is also exactly the span of bytes the decoder reads.
pub open spec fn ph_min_entsize(c: Class) -> int {
    match c {
        Class::Elf32 => 32,
        Class::Elf64 => 56,
    }
}

/// The byte offset of program header table entry `i`, counted with
/// mathematical integers so that no overflow can hide in it.
pub open spec fn ph_base(h: HeaderFields, i: int) -> int {
    h.phoff + i * h.phentsize
}

/// Whether program header table entry `i` can be decoded: its base offset
/// plus the declared entry size, and plus the span the decoder reads, both
/// stay representable in 64 bits, and the bytes the decoder reads all lie
/// within the source.
pub open spec fn ph_decodable(s: Seq<u8>, h: HeaderFields, i: int) -> bool {
    &&& ph_base(h, i) + h.phentsize <= u64::MAX
    &&& ph_base(h, i) + ph_min_entsize(h.class) <= u64::MAX
    &&& ph_base(h, i) + ph_min_entsize(h.class) <= s.len()
}

/// The program header that the class-dependent fixed layout assigns to
/// table entry `i`, meaningful when the entry is decodable.
pub open spec fn spec_ph_at(s: Seq<u8>, h: HeaderFields, i: int) -> ProgramHeader {
    let base = ph_base(h, i);
    let e = h.data;
    match h.class {
        Class::Elf32 => ProgramHeader {
            segment_type: SegmentType::spec_from_value(u32_at(s, base, e)),
            flags: SegmentFlags::spec_from(u32_at(s, base + 24, e)),
            file_offset: u32_at(s, base + 4, e) as u64,
            virtual_address: u32_at(s, base + 8, e) as u64,
            physical_address: u32_at(s, base + 12, e) as u64,
            file_size: u32_at(s, base + 16, e) as u64,
            memory_size: u32_at(s, base + 20, e) as u64,
            alignment: u32_at(s, base + 28, e) as u64,
        },
        Class::Elf64 => ProgramHeader {
            segment_type: SegmentType::spec_from_value(u32_at(s, base, e)),
            flags: SegmentFlags::spec_from(u32_at(s, base + 4, e)),
            file_offset: u64_at(s, base + 8, e),
            virtual_address: u64_at(s, base + 16, e),
            physical_address: u64_at(s, base + 24, e),
            file_size: u64_at(s, base + 32, e),
            memory_size: u64_at(s, base + 40, e),
            alignment: u64_at(s, base + 48, e),
        },
    }
}

/// `n` is an integral power of two. Every power of two that fits in 64
/// bits has an exponent below 64.
pub open spec fn spec_is_power_of_two(n: u64) -> bool {
    exists|k: nat| k < 64 && n == pow2(k)
}

/// Decide whether `n` is an integral power of two by walking the 64
/// representable powers.
#[verifier::loop_isolation(false)]
pub(crate) fn is_power_of_two(n: u64) -> (r: bool)
    ensures
        r == spec_is_power_of_two(n),
{
    proof {
        lemma2_to64();
        lemma2_to64_rest();
    }
    let mut k: u64 = 0;
    let mut p: u64 = 1;
    while k < 64
        invariant
            k <= 64,
            k < 64 ==> p == pow2(k as nat),
            forall|j: nat| j < k ==> n != pow2(j),
        decreases 64 - k,
    {
        if n == p {
            assert(n == pow2(k as nat) && (k as nat) < 64);
            return true;
        }
        if k == 63 {
            k = 64;
        } else {
            proof {
                lemma_pow2_unfold((k + 1) as nat);
                if (k as nat) < 62 {
                    lemma_pow2_strictly_increases(k as nat, 62);
                }
            }
            p = 2 * p;
            k = k + 1;
        }
    }
    false
}

/// A value and its negation are divisible by the same positive divisors.
proof fn lemma_divides_negation(d: int, a: int)
    requires
        a > 0,
    ensures
        (d % a == 0) <==> ((-d) % a == 0),
{
    if d % a == 0 {
        lemma_fundamental_div_mod(d, a);
        assert(-d == (-(d / a)) * a) by (nonlinear_arith)
            requires d == a * (d / a);
        lemma_mod_multiples_basic(-(d / a), a);
    }
    if (-d) % a == 0 {
        lemma_fundamental_div_mod(-d, a);
        assert(d == (-((-d) / a)) * a) by (nonlinear_arith)
            requires -d == a * ((-d) / a);
        lemma_mod_multiples_basic(-((-d) / a), a);
    }
}

/// The alignment rule for a loadable segment: no alignment is demanded
/// when the alignment field is 0 or 1; otherwise the field must be a power
/// of two and the difference between virtual address and file offset must
/// be one of its multiples.
pub open spec fn spec_aligned(vaddr: u64, offset: u64, alignment: u64) -> bool {
    ||| alignment == 0
    ||| alignment == 1
    ||| (spec_is_power_of_two(alignment) && (vaddr - offset) % (alignment as int) == 0)
}

/// Describes a segment: one entry of the program header table, telling a
/// loader how to place part of the file into a process image.
///
/// A segment is decoded on demand by the program header table reader and
/// never mutated.
#[derive(Debug)]
pub struct ProgramHeader {
    /// Identifies the type of the segment.
    pub segment_type: SegmentType,

    /// Segment dependent flags.
    pub flags: SegmentFlags,

    /// Offset of the segment in the file image.
    pub file_offset: u64,

    /// Virtual address of the segment in memory.
    pub virtual_address: u64,

    /// Physical address of the segment, on systems where one is relevant.
    pub physical_address: u64,

    /// Size in bytes of the segment in the file image. May be zero.
    pub file_size: u64,

    /// Size in bytes of the segment in memory. May be zero.
    pub memory_size: u64,

    /// Integral power of two for segment alignment in memory.
    pub alignment: u64,
}

impl ProgramHeader {
    /// Decode program header table entry `index`, or nothing when the
    /// entry's bytes are unreachable: the base offset computation would
    /// overflow 64 bits, or a field read would fall outside the source.
    pub(crate) fn new(elf: &ReadElf<'_>, index: u16) -> (r: Option<ProgramHeader>)
        ensures
            r is Some <==> ph_decodable(elf.bytes(), elf@, index as int),
            r matches Some(ph) ==> ph == spec_ph_at(elf.bytes(), elf@, index as int),
    {
        let entsize = elf.phentsize_field();
        // The product of two 16-bit values fits in 32 bits, so this
        // multiplication cannot overflow.
        proof {
            assert((index as int) * (entsize as int) < 0x1_0000_0000) by (nonlinear_arith)
                requires index <= 0xffff && entsize <= 0xffff;
            assert((index as int) * (entsize as int) >= 0) by (nonlinear_arith)
                requires index >= 0 && entsize >= 0;
        }
        let offset = (index as u64) * (entsize as u64);
        let base = match elf.phoff_field().checked_add(offset) {
            Some(b) => b,
            None => { return None; },
        };
        if base > u64::MAX - (entsize as u64) {
            return None;
        }
        let e = elf.data_field();
        let p = elf.parser();
        match elf.class_field() {
            Class::Elf32 => {
                if base > u64::MAX - 32 {
                    return None;
                }
                let segment_type = match p.get_u32(base, e) {
                    Some(v) => v,
                    None => { return None; },
                };
                let file_offset = match p.get_u32(base + 4, e) {
                    Some(v) => v,
                    None => { return None; },
                };
                let virtual_address = match p.get_u32(base + 8, e) {
                    Some(v) => v,
                    None => { return None; },
                };
                let physical_address = match p.get_u32(base + 12, e) {
                    Some(v) => v,
                    None => { return None; },
                };
                let file_size = match p.get_u32(base + 16, e) {
                    Some(v) => v,
                    None => { return None; },
                };
                let memory_size = match p.get_u32(base + 20, e) {
                    Some(v) => v,
                    None => { return None; },
                };
                let flags = match p.get_u32(base + 24, e) {
                    Some(v) => v,
                    None => { return None; },
                };
                let alignment = match p.get_u32(base + 28, e) {
                    Some(v) => v,
                    None => { return None; },
                };
                Some(ProgramHeader {
                    segment_type: SegmentType::from(segment_type),
                    flags: SegmentFlags::from(flags),
                    file_offset: file_offset as u64,
                    virtual_address: virtual_address as u64,
                    physical_address: physical_address as u64,
                    file_size: file_size as u64,
                    memory_size: memory_size as u64,
                    alignment: alignment as u64,
                })
            },
            Class::Elf64 => {
                if base > u64::MAX - 56 {
                    return None;
                }
                let segment_type = match p.get_u32(base, e) {
                    Some(v) => v,
                    None => { return None; },
                };
                let flags = match p.get_u32(base + 4, e) {
                    Some(v) => v,
                    None => { return None; },
                };
                let file_offset = match p.get_u64(base + 8, e) {
                    Some(v) => v,
                    None => { return None; },
                };
                let virtual_address = match p.get_u64(base + 16, e) {
                    Some(v) => v,
                    None => { return None; },
                };
                let physical_address = match p.get_u64(base + 24, e) {
                    Some(v) => v,
                    None => { return None; },
                };
                let file_size = match p.get_u64(base + 32, e) {
                    Some(v) => v,
                    None => { return None; },
                };
                let memory_size = match p.get_u64(base + 40, e) {
                    Some(v) => v,
                    None => { return None; },
                };
                let alignment = match p.get_u64(base + 48, e) {
                    Some(v) => v,
                    None => { return None; },
                };
                Some(ProgramHeader {
                    segment_type: SegmentType::from(segment_type),
                    flags: SegmentFlags::from(flags),
                    file_offset,
                    virtual_address,
                    physical_address,
                    file_size,
                    memory_size,
                    alignment,
                })
            },
        }
    }

    /// Check the alignment rule for a loadable segment.
    ///
    /// Loadable process segments must have congruent values for the
    /// virtual address and the file offset, modulo their alignment. An
    /// alignment of 0 or 1 demands nothing; otherwise the alignment must
    /// be a positive, integral power of two and the difference between
    /// virtual address and file offset one of its multiples.
    pub fn is_aligned(&self) -> (r: bool)
        ensures
            r == spec_aligned(self.virtual_address, self.file_offset, self.alignment),
    {
        if self.alignment == 0 || self.alignment == 1 {
            return true;
        }
        if !is_power_of_two(self.alignment) {
            return false;
        }
        let diff = if self.virtual_address >= self.file_offset {
            self.virtual_address - self.file_offset
        } else {
            self.file_offset - self.virtual_address
        };
        let r = diff % self.alignment == 0;
        proof {
            if self.virtual_address < self.file_offset {
                lemma_divides_negation(
                    self.virtual_address - self.file_offset,
                    self.alignment as int,
                );
            }
        }
        r
    }
}

} // verus!
