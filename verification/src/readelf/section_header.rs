use vstd::prelude::*;

use crate::binparser::{u32_at, u64_at};
use crate::readelf::program_header::{is_power_of_two, spec_is_power_of_two};
use crate::readelf::string_section::{opt_str_view, spec_name_at, StringSection};
use crate::readelf::HeaderFields;
use crate::{Class, ReadElf, SectionFlags, SectionType};

verus! {

/// The smallest entry size that can hold a section header of the given
/// class; it is also exactly the span of bytes the decoder reads.
pub open spec fn sh_min_entsize(c: Class) -> int {
    match c {
        Class::Elf32 => 40,
        Class::Elf64 => 64,
    }
}

/// The byte offset of section header table entry `i`, counted with
/// mathematical integers so that no overflow can hide in it.
pub open spec fn sh_base(h: HeaderFields, i: int) -> int {
    h.shoff + i * h.shentsize
}

/// Whether section header table entry `i` can be decoded: its base offset
/// plus the declared entry size, and plus the span the decoder reads, both
/// stay representable in 64 bits, and the bytes the decoder reads all lie
/// within the source.
pub open spec fn sh_decodable(s: Seq<u8>, h: HeaderFields, i: int) -> bool {
    &&& sh_base(h, i) + h.shentsize <= u64::MAX
    &&& sh_base(h, i) + sh_min_entsize(h.class) <= u64::MAX
    &&& sh_base(h, i) + sh_min_entsize(h.class) <= s.len()
}

/// The raw field values that the class-dependent fixed layout assigns to
/// section header table entry `i`, meaningful when the entry is decodable.
pub struct SectionFields {
    /// Byte offset of the section's name in the string table.
    pub name_offset: u32,
    /// The raw section type field.
    pub section_type: u32,
    /// The flag bits, widened to 64 bits even for 32-bit files.
    pub flags: u64,
    /// Virtual address of the section in memory.
    pub virtual_address: u64,
    /// Offset of the section in the file image.
    pub file_offset: u64,
    /// Size in bytes of the section in the file image.
    pub file_size: u64,
    /// Section index of an associated section.
    pub section_link: u32,
    /// Extra information about the section.
    pub section_info: u32,
    /// Alignment of the section.
    pub alignment: u64,
    /// Size of each entry, for sections holding fixed-size entries.
    pub entry_size: u64,
}

/// Decode the raw fields of section header table entry `i`.
pub open spec fn spec_sh_at(s: Seq<u8>, h: HeaderFields, i: int) -> SectionFields {
    let base = sh_base(h, i);
    let e = h.data;
    match h.class {
        Class::Elf32 => SectionFields {
            name_offset: u32_at(s, base, e),
            section_type: u32_at(s, base + 4, e),
            flags: u32_at(s, base + 8, e) as u64,
            virtual_address: u32_at(s, base + 12, e) as u64,
            file_offset: u32_at(s, base + 16, e) as u64,
            file_size: u32_at(s, base + 20, e) as u64,
            section_link: u32_at(s, base + 24, e),
            section_info: u32_at(s, base + 28, e),
            alignment: u32_at(s, base + 32, e) as u64,
            entry_size: u32_at(s, base + 36, e) as u64,
        },
        Class::Elf64 => SectionFields {
            name_offset: u32_at(s, base, e),
            section_type: u32_at(s, base + 4, e),
            flags: u64_at(s, base + 8, e),
            virtual_address: u64_at(s, base + 16, e),
            file_offset: u64_at(s, base + 24, e),
            file_size: u64_at(s, base + 32, e),
            section_link: u32_at(s, base + 40, e),
            section_info: u32_at(s, base + 44, e),
            alignment: u64_at(s, base + 48, e),
            entry_size: u64_at(s, base + 56, e),
        },
    }
}

/// Describes a section: one entry of the section header table, a link-time
/// view of part of the file.
///
/// A section header is decoded on demand by the section header table
/// reader and never mutated.
#[derive(Debug, PartialEq)]
pub struct SectionHeader {
    /// The section's name, resolved through the string table when one is
    /// available and the bytes at its name offset form a valid string.
    pub name: Option<String>,

    /// The type of the section.
    pub section_type: SectionType,

    /// Attributes of the section.
    pub flags: SectionFlags,

    /// Virtual address of the section in memory, for loaded sections.
    pub virtual_address: u64,

    /// Offset of the section in the file image.
    pub file_offset: u64,

    /// Size in bytes of the section in the file image. May be zero.
    pub file_size: u64,

    /// Section index of an associated section; its use depends on the
    /// section type.
    pub section_link: u32,

    /// Extra information about the section; its use depends on the
    /// section type.
    pub section_info: u32,

    /// Alignment of the section. Must be a power of two.
    pub alignment: u64,

    /// Size of each entry, for sections that hold fixed-size entries;
    /// zero otherwise.
    pub entry_size: u64,
}

/// Whether a decoded section header carries exactly the given raw field
/// values, name aside.
pub open spec fn sh_matches(sec: SectionHeader, f: SectionFields) -> bool {
    &&& sec.section_type == SectionType::spec_from_value(f.section_type)
    &&& sec.flags.spec_flags() == f.flags
    &&& sec.virtual_address == f.virtual_address
    &&& sec.file_offset == f.file_offset
    &&& sec.file_size == f.file_size
    &&& sec.section_link == f.section_link
    &&& sec.section_info == f.section_info
    &&& sec.alignment == f.alignment
    &&& sec.entry_size == f.entry_size
}

/// The name that a section resolves to, given the string table bytes when
/// a table is available.
pub open spec fn spec_sh_name(
    s: Seq<u8>,
    h: HeaderFields,
    strtab: Option<Seq<u8>>,
    i: int,
) -> Option<Seq<char>> {
    match strtab {
        Some(t) => spec_name_at(t, spec_sh_at(s, h, i).name_offset as int),
        None => None,
    }
}

impl SectionHeader {
    /// Decode section header table entry `index`, or nothing when the
    /// entry's bytes are unreachable: the base offset computation would
    /// overflow 64 bits, or a field read would fall outside the source.
    ///
    /// When a string table is supplied the section's name is resolved
    /// through it; a name that fails to resolve leaves the name absent
    /// without failing the decode.
    pub(crate) fn new(
        elf: &ReadElf<'_>,
        index: u16,
        strings: Option<&StringSection<'_>>,
    ) -> (r: Option<SectionHeader>)
        ensures
            r is Some <==> sh_decodable(elf.bytes(), elf@, index as int),
            r matches Some(sec) ==> sh_matches(sec, spec_sh_at(elf.bytes(), elf@, index as int)),
            r matches Some(sec) ==> opt_str_view(sec.name) == (match strings {
                Some(ss) => spec_sh_name(
                    elf.bytes(),
                    elf@,
                    Some(ss.bytes()),
                    index as int,
                ),
                None => None::<Seq<char>>,
            }),
    {
        let entsize = elf.shentsize_field();
        // The product of two 16-bit values fits in 32 bits, so this
        // multiplication cannot overflow.
        proof {
            assert((index as int) * (entsize as int) < 0x1_0000_0000) by (nonlinear_arith)
                requires index <= 0xffff && entsize <= 0xffff;
            assert((index as int) * (entsize as int) >= 0) by (nonlinear_arith)
                requires index >= 0 && entsize >= 0;
        }
        let offset = (index as u64) * (entsize as u64);
        let base = match elf.shoff_field().checked_add(offset) {
            Some(b) => b,
            None => { return None; },
        };
        if base > u64::MAX - (entsize as u64) {
            return None;
        }
        let e = elf.data_field();
        let p = elf.parser();
        match elf.class_field() {
            Class::Elf32 => {
                if base > u64::MAX - 40 {
                    return None;
                }
                let name = match strings {
                    Some(section) => {
                        let name_offset = match p.get_u32(base, e) {
                            Some(v) => v,
                            None => { return None; },
                        };
                        section.to_string(name_offset)
                    },
                    None => None,
                };
                let section_type = match p.get_u32(base + 4, e) {
                    Some(v) => v,
                    None => { return None; },
                };
                let flags = match p.get_u32(base + 8, e) {
                    Some(v) => v,
                    None => { return None; },
                };
                let virtual_address = match p.get_u32(base + 12, e) {
                    Some(v) => v,
                    None => { return None; },
                };
                let file_offset = match p.get_u32(base + 16, e) {
                    Some(v) => v,
                    None => { return None; },
                };
                let file_size = match p.get_u32(base + 20, e) {
                    Some(v) => v,
                    None => { return None; },
                };
                let section_link = match p.get_u32(base + 24, e) {
                    Some(v) => v,
                    None => { return None; },
                };
                let section_info = match p.get_u32(base + 28, e) {
                    Some(v) => v,
                    None => { return None; },
                };
                let alignment = match p.get_u32(base + 32, e) {
                    Some(v) => v,
                    None => { return None; },
                };
                let entry_size = match p.get_u32(base + 36, e) {
                    Some(v) => v,
                    None => { return None; },
                };
                Some(SectionHeader {
                    name,
                    section_type: SectionType::from(section_type),
                    flags: SectionFlags::from(flags as u64),
                    virtual_address: virtual_address as u64,
                    file_offset: file_offset as u64,
                    file_size: file_size as u64,
                    section_link,
                    section_info,
                    alignment: alignment as u64,
                    entry_size: entry_size as u64,
                })
            },
            Class::Elf64 => {
                if base > u64::MAX - 64 {
                    return None;
                }
                let name = match strings {
                    Some(section) => {
                        let name_offset = match p.get_u32(base, e) {
                            Some(v) => v,
                            None => { return None; },
                        };
                        section.to_string(name_offset)
                    },
                    None => None,
                };
                let section_type = match p.get_u32(base + 4, e) {
                    Some(v) => v,
                    None => { return None; },
                };
                let flags = match p.get_u64(base + 8, e) {
                    Some(v) => v,
                    None => { return None; },
                };
                let virtual_address = match p.get_u64(base + 16, e) {
                    Some(v) => v,
                    None => { return None; },
                };
                let file_offset = match p.get_u64(base + 24, e) {
                    Some(v) => v,
                    None => { return None; },
                };
                let file_size = match p.get_u64(base + 32, e) {
                    Some(v) => v,
                    None => { return None; },
                };
                let section_link = match p.get_u32(base + 40, e) {
                    Some(v) => v,
                    None => { return None; },
                };
                let section_info = match p.get_u32(base + 44, e) {
                    Some(v) => v,
                    None => { return None; },
                };
                let alignment = match p.get_u64(base + 48, e) {
                    Some(v) => v,
                    None => { return None; },
                };
                let entry_size = match p.get_u64(base + 56, e) {
                    Some(v) => v,
                    None => { return None; },
                };
                Some(SectionHeader {
                    name,
                    section_type: SectionType::from(section_type),
                    flags: SectionFlags::from(flags),
                    virtual_address,
                    file_offset,
                    file_size,
                    section_link,
                    section_info,
                    alignment,
                    entry_size,
                })
            },
        }
    }

    /// Check that the alignment field is admissible for a loadable
    /// section: zero, one, or an integral power of two.
    pub fn is_aligned(&self) -> (r: bool)
        ensures
            r == (self.alignment == 0 || self.alignment == 1
                || spec_is_power_of_two(self.alignment)),
    {
        self.alignment == 0 || self.alignment == 1 || is_power_of_two(self.alignment)
    }
}

} // verus!
