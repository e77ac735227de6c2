use vstd::prelude::*;

use crate::binparser::{
    bytes2, bytes4, bytes8, lemma_bytes2_value, lemma_bytes4_value, lemma_bytes8_value,
    native_width, word_value, BinParser, Slice, VecBuffer,
};
use crate::{Class, Endian, ExecutableType, Machine, OsAbi};

pub mod program_header;
pub use program_header::ProgramHeader;

pub mod program_headers;
pub use program_headers::ProgramHeaders;

pub mod section_header;
pub use section_header::{SectionFields, SectionHeader};

pub mod section_headers;
pub use section_headers::SectionHeaders;

pub mod string_section;

verus! {

/// Whether the byte sequence starts with the four ELF signature bytes
/// `0x7F 'E' 'L' 'F'`.
pub open spec fn spec_magic_ok(s: Seq<u8>) -> bool {
    &&& s.len() >= 4
    &&& s[0] == 0x7f
    &&& s[1] == 0x45
    &&& s[2] == 0x4c
    &&& s[3] == 0x46
}

/// The class denoted by the identification block, meaningful once the class
/// byte is known to be valid.
pub open spec fn spec_class(s: Seq<u8>) -> Class {
    if s[4] == 1 {
        Class::Elf32
    } else {
        Class::Elf64
    }
}

/// The byte order denoted by the identification block, meaningful once the
/// endian byte is known to be valid.
pub open spec fn spec_endian(s: Seq<u8>) -> Endian {
    if s[5] == 1 {
        Endian::Little
    } else {
        Endian::Big
    }
}

/// The size in bytes of the fixed file header for the given class.
pub open spec fn spec_header_size(c: Class) -> int {
    match c {
        Class::Elf32 => 52,
        Class::Elf64 => 64,
    }
}

/// The class-dependent position of a header field: 32-bit and 64-bit files
/// lay the fields out at different fixed offsets.
pub open spec fn spec_off(c: Class, o32: int, o64: int) -> int {
    match c {
        Class::Elf32 => o32,
        Class::Elf64 => o64,
    }
}

/// The 16-bit header field at offset `o`, read in the file's byte order.
pub open spec fn spec_word16(s: Seq<u8>, o: int) -> u16 {
    word_value(s.subrange(o, o + 2), spec_endian(s)) as u16
}

/// The 32-bit header field at offset `o`, read in the file's byte order.
pub open spec fn spec_word32(s: Seq<u8>, o: int) -> u32 {
    word_value(s.subrange(o, o + 4), spec_endian(s)) as u32
}

/// The native-width header field at offset `o`: four bytes for a 32-bit
/// file, widened, or eight bytes for a 64-bit file.
pub open spec fn spec_wordn(s: Seq<u8>, o: int) -> u64 {
    word_value(s.subrange(o, o + native_width(spec_class(s))), spec_endian(s)) as u64
}

/// The whole validation pipeline of the header decoder: the byte sequence
/// parses as an ELF file header exactly when
/// - it starts with the four signature bytes,
/// - the class byte and the endian byte each denote a known value (1 or 2),
/// - the identification-block version byte and the 4-byte version field
///   both equal 1, and
/// - the sequence covers the whole fixed header for its class: 52 bytes for
///   a 32-bit file, 64 bytes for a 64-bit file.
pub open spec fn header_valid(s: Seq<u8>) -> bool {
    &&& s.len() >= 24
    &&& spec_magic_ok(s)
    &&& (s[5] == 1 || s[5] == 2)
    &&& s[6] == 1
    &&& word_value(s.subrange(20, 24), spec_endian(s)) == 1
    &&& (s[4] == 1 || s[4] == 2)
    &&& s.len() >= spec_header_size(spec_class(s))
}

/// The OS ABI byte of the header.
pub open spec fn spec_osabi(s: Seq<u8>) -> u8 {
    s[7]
}

/// The ABI version byte of the header.
pub open spec fn spec_abi_version(s: Seq<u8>) -> u8 {
    s[8]
}

/// The raw object file type field, `e_type`.
pub open spec fn spec_exec_type_field(s: Seq<u8>) -> u16 {
    spec_word16(s, 16)
}

/// The raw machine architecture field, `e_machine`.
pub open spec fn spec_machine_field(s: Seq<u8>) -> u16 {
    spec_word16(s, 18)
}

/// The entry point field, `e_entry`.
pub open spec fn spec_entry(s: Seq<u8>) -> u64 {
    spec_wordn(s, 24)
}

/// The processor-specific flags field, `e_flags`.
pub open spec fn spec_flags_field(s: Seq<u8>) -> u32 {
    spec_word32(s, spec_off(spec_class(s), 36, 48))
}

/// The header size field, `e_ehsize`.
pub open spec fn spec_ehsize(s: Seq<u8>) -> u16 {
    spec_word16(s, spec_off(spec_class(s), 40, 52))
}

/// The program header table offset field, `e_phoff`.
pub open spec fn spec_phoff(s: Seq<u8>) -> u64 {
    spec_wordn(s, spec_off(spec_class(s), 28, 32))
}

/// The program header entry size field, `e_phentsize`.
pub open spec fn spec_phentsize(s: Seq<u8>) -> u16 {
    spec_word16(s, spec_off(spec_class(s), 42, 54))
}

/// The program header count field, `e_phnum`.
pub open spec fn spec_phnum(s: Seq<u8>) -> u16 {
    spec_word16(s, spec_off(spec_class(s), 44, 56))
}

/// The section header table offset field, `e_shoff`.
pub open spec fn spec_shoff(s: Seq<u8>) -> u64 {
    spec_wordn(s, spec_off(spec_class(s), 32, 40))
}

/// The section header entry size field, `e_shentsize`.
pub open spec fn spec_shentsize(s: Seq<u8>) -> u16 {
    spec_word16(s, spec_off(spec_class(s), 46, 58))
}

/// The section header count field, `e_shnum`.
pub open spec fn spec_shnum(s: Seq<u8>) -> u16 {
    spec_word16(s, spec_off(spec_class(s), 48, 60))
}

/// The string table section index field, `e_shstrndx`.
pub open spec fn spec_shstrndx(s: Seq<u8>) -> u16 {
    spec_word16(s, spec_off(spec_class(s), 50, 62))
}

/// The mathematical content of a decoded file header: every field that the
/// fixed layout assigns, as a plain record over the raw values.
///
/// This is the specification-level image of [`ReadElf`]: a parsed header
/// views to exactly `spec_parse` of its underlying bytes.
pub struct HeaderFields {
    /// The class denoted by the identification block.
    pub class: Class,
    /// The byte order denoted by the identification block.
    pub data: Endian,
    /// The format version; always 1 for a header that parses.
    pub version: u32,
    /// The raw OS ABI byte.
    pub osabi: u8,
    /// The raw ABI version byte.
    pub abi_version: u8,
    /// The object file type.
    pub exec_type: ExecutableType,
    /// The raw machine architecture identifier.
    pub machine: u16,
    /// The entry point address.
    pub entry: u64,
    /// The processor-specific flags.
    pub flags: u32,
    /// The header size field, `e_ehsize`.
    pub ehsize: u16,
    /// The program header table offset, `e_phoff`.
    pub phoff: u64,
    /// The program header entry size, `e_phentsize`.
    pub phentsize: u16,
    /// The program header count, `e_phnum`.
    pub phnum: u16,
    /// The section header table offset, `e_shoff`.
    pub shoff: u64,
    /// The section header entry size, `e_shentsize`.
    pub shentsize: u16,
    /// The section header count, `e_shnum`.
    pub shnum: u16,
    /// The string table section index, `e_shstrndx`.
    pub shstrndx: u16,
}

/// The file header that the fixed layout assigns to the given bytes,
/// meaningful when `header_valid(s)` holds.
pub open spec fn spec_parse(s: Seq<u8>) -> HeaderFields {
    HeaderFields {
        class: spec_class(s),
        data: spec_endian(s),
        version: 1,
        osabi: spec_osabi(s),
        abi_version: spec_abi_version(s),
        exec_type: ExecutableType::spec_from_value(spec_exec_type_field(s)),
        machine: spec_machine_field(s),
        entry: spec_entry(s),
        flags: spec_flags_field(s),
        ehsize: spec_ehsize(s),
        phoff: spec_phoff(s),
        phentsize: spec_phentsize(s),
        phnum: spec_phnum(s),
        shoff: spec_shoff(s),
        shentsize: spec_shentsize(s),
        shnum: spec_shnum(s),
        shstrndx: spec_shstrndx(s),
    }
}

/// The file header of an ELF file, decoded once at construction from a byte
/// source and immutable afterwards.
///
/// The public fields carry what the fixed header states about the file; the
/// private fields locate the program header and section header tables for
/// the lazy readers. The header owns (or borrows) the byte source for the
/// lifetime of every derived view.
#[derive(Debug)]
pub struct ReadElf<'elf> {
    /// The bitness (class) of the ELF file, used to interpret the layout.
    pub class: Class,

    /// The byte order of every multi-byte field in the file.
    pub data: Endian,

    /// The ELF format version, always 1 once parsing has succeeded.
    pub version: u32,

    /// The OS ABI byte; its interpretation belongs to the operating system.
    pub osabi: OsAbi,

    /// The ABI version byte; its interpretation depends on the target ABI.
    pub abi_version: u8,

    /// The object file type.
    pub exec_type: ExecutableType,

    /// The machine instruction set architecture.
    pub machine: Machine,

    /// The virtual address where the process starts executing.
    pub entry: u64,

    /// Processor-specific flags of the file.
    pub flags: u32,

    /// The size of the file header itself.
    file_header_size: u16,

    /// The file offset of the program header table.
    program_header_offset: u64,

    /// The size of one program header table entry.
    program_header_size: u16,

    /// The number of entries in the program header table.
    program_header_count: u16,

    /// The file offset of the section header table.
    section_header_offset: u64,

    /// The size of one section header table entry.
    section_header_size: u16,

    /// The number of entries in the section header table.
    section_header_count: u16,

    /// The index of the section holding the section name string table.
    string_section_index: u16,

    parser: BinParser<'elf>,
}

impl<'elf> View for ReadElf<'elf> {
    type V = HeaderFields;

    /// The record of decoded field values this header carries.
    closed spec fn view(&self) -> HeaderFields {
        HeaderFields {
            class: self.class,
            data: self.data,
            version: self.version,
            osabi: self.osabi.spec_os_abi(),
            abi_version: self.abi_version,
            exec_type: self.exec_type,
            machine: self.machine.spec_machine(),
            entry: self.entry,
            flags: self.flags,
            ehsize: self.file_header_size,
            phoff: self.program_header_offset,
            phentsize: self.program_header_size,
            phnum: self.program_header_count,
            shoff: self.section_header_offset,
            shentsize: self.section_header_size,
            shnum: self.section_header_count,
            shstrndx: self.string_section_index,
        }
    }
}

impl<'elf> ReadElf<'elf> {
    /// The bytes of the underlying byte source.
    pub closed spec fn bytes(&self) -> Seq<u8> {
        self.parser.bytes()
    }

    /// A parsed header carries exactly the field values that the fixed
    /// layout assigns to its underlying bytes, and those bytes pass the
    /// whole validation pipeline. Constructors establish this and nothing
    /// mutates a parsed header.
    pub open spec fn wf(&self) -> bool {
        &&& header_valid(self.bytes())
        &&& self@ == spec_parse(self.bytes())
    }

    /// The byte source, shared with the lazy table readers.
    pub(crate) fn parser(&self) -> (r: &BinParser<'elf>)
        ensures
            r.bytes() == self.bytes(),
    {
        &self.parser
    }

    /// The class, tied to the header's view.
    pub(crate) fn class_field(&self) -> (r: Class)
        ensures
            r == self@.class,
    {
        self.class
    }

    /// The byte order, tied to the header's view.
    pub(crate) fn data_field(&self) -> (r: Endian)
        ensures
            r == self@.data,
    {
        self.data
    }

    /// The program header table offset, `e_phoff`.
    pub(crate) fn phoff_field(&self) -> (r: u64)
        ensures
            r == self@.phoff,
    {
        self.program_header_offset
    }

    /// The program header entry size, `e_phentsize`.
    pub(crate) fn phentsize_field(&self) -> (r: u16)
        ensures
            r == self@.phentsize,
    {
        self.program_header_size
    }

    /// The program header count, `e_phnum`.
    pub(crate) fn phnum_field(&self) -> (r: u16)
        ensures
            r == self@.phnum,
    {
        self.program_header_count
    }

    /// The section header table offset, `e_shoff`.
    pub(crate) fn shoff_field(&self) -> (r: u64)
        ensures
            r == self@.shoff,
    {
        self.section_header_offset
    }

    /// The section header entry size, `e_shentsize`.
    pub(crate) fn shentsize_field(&self) -> (r: u16)
        ensures
            r == self@.shentsize,
    {
        self.section_header_size
    }

    /// The section header count, `e_shnum`.
    pub(crate) fn shnum_field(&self) -> (r: u16)
        ensures
            r == self@.shnum,
    {
        self.section_header_count
    }

    /// The string table section index, `e_shstrndx`.
    pub(crate) fn shstrndx_field(&self) -> (r: u16)
        ensures
            r == self@.shstrndx,
    {
        self.string_section_index
    }

    /// Pick the 32-bit or the 64-bit field offset, depending on the class.
    fn offset(c: Class, o32: u64, o64: u64) -> (r: u64)
        ensures
            r == spec_off(c, o32 as int, o64 as int),
    {
        match c {
            Class::Elf32 => o32,
            Class::Elf64 => o64,
        }
    }

    /// Run the validation pipeline on a byte source and decode the fixed
    /// header fields; one atomic parse-or-fail step.
    fn from_parser(p: BinParser<'elf>) -> (r: Option<ReadElf<'elf>>)
        ensures
            r is Some <==> header_valid(p.bytes()),
            r matches Some(elf) ==> elf.wf() && elf.bytes() == p.bytes()
                && elf@ == spec_parse(p.bytes()),
    {
        // The file must begin with the fixed ELF signature bytes.
        let b0 = match p.get_u8(0) {
            Some(b) => b,
            None => { return None; },
        };
        let b1 = match p.get_u8(1) {
            Some(b) => b,
            None => { return None; },
        };
        let b2 = match p.get_u8(2) {
            Some(b) => b,
            None => { return None; },
        };
        let b3 = match p.get_u8(3) {
            Some(b) => b,
            None => { return None; },
        };
        if b0 != 0x7f || b1 != 0x45 || b2 != 0x4c || b3 != 0x46 {
            return None;
        }

        // The byte order is needed for every multi-byte field that follows.
        let be = match p.get_u8(5) {
            Some(b) => b,
            None => { return None; },
        };
        let e = match Endian::try_from(be) {
            Ok(e) => e,
            Err(_) => { return None; },
        };

        // Only version 1 is readable: the identification-block version byte
        // and the 4-byte version field must both say so.
        let bv = match p.get_u8(6) {
            Some(b) => b,
            None => { return None; },
        };
        if bv != 1 {
            return None;
        }
        let version = match p.get_u32(20, e) {
            Some(v) => v,
            None => { return None; },
        };
        if version != 1 {
            return None;
        }

        // The class tells how to interpret the remaining byte offsets.
        let bc = match p.get_u8(4) {
            Some(b) => b,
            None => { return None; },
        };
        let c = match Class::try_from(bc) {
            Ok(c) => c,
            Err(_) => { return None; },
        };

        let osabi = match p.get_u8(7) {
            Some(b) => b,
            None => { return None; },
        };
        let abi_version = match p.get_u8(8) {
            Some(b) => b,
            None => { return None; },
        };
        let exec_type = match p.get_u16(16, e) {
            Some(v) => v,
            None => { return None; },
        };
        let machine = match p.get_u16(18, e) {
            Some(v) => v,
            None => { return None; },
        };
        let entry = match p.get_usize(24, e, c) {
            Some(v) => v,
            None => { return None; },
        };
        let flags = match p.get_u32(Self::offset(c, 36, 48), e) {
            Some(v) => v,
            None => { return None; },
        };
        let file_header_size = match p.get_u16(Self::offset(c, 40, 52), e) {
            Some(v) => v,
            None => { return None; },
        };
        let program_header_offset = match p.get_usize(Self::offset(c, 28, 32), e, c) {
            Some(v) => v,
            None => { return None; },
        };
        let program_header_size = match p.get_u16(Self::offset(c, 42, 54), e) {
            Some(v) => v,
            None => { return None; },
        };
        let program_header_count = match p.get_u16(Self::offset(c, 44, 56), e) {
            Some(v) => v,
            None => { return None; },
        };
        let section_header_offset = match p.get_usize(Self::offset(c, 32, 40), e, c) {
            Some(v) => v,
            None => { return None; },
        };
        let section_header_size = match p.get_u16(Self::offset(c, 46, 58), e) {
            Some(v) => v,
            None => { return None; },
        };
        let section_header_count = match p.get_u16(Self::offset(c, 48, 60), e) {
            Some(v) => v,
            None => { return None; },
        };
        let string_section_index = match p.get_u16(Self::offset(c, 50, 62), e) {
            Some(v) => v,
            None => { return None; },
        };

        Some(ReadElf {
            class: c,
            data: e,
            version: 1,
            osabi: OsAbi::from(osabi),
            abi_version,
            exec_type: ExecutableType::from(exec_type),
            machine: Machine::from(machine),
            entry,
            flags,
            file_header_size,
            program_header_offset,
            program_header_size,
            program_header_count,
            section_header_offset,
            section_header_size,
            section_header_count,
            string_section_index,
            parser: p,
        })
    }

    /// Interpret an ELF file from a byte range borrowed from the caller.
    ///
    /// The caller guarantees the bytes outlive the parsed header; reads
    /// stay zero-copy.
    pub fn from_slice(buffer: &'elf [u8]) -> (r: Option<ReadElf<'elf>>)
        ensures
            r is Some <==> header_valid(buffer@),
            r matches Some(elf) ==> elf.wf() && elf.bytes() == buffer@
                && elf@ == spec_parse(buffer@),
    {
        let p = BinParser::Slice(Slice::new(buffer));
        Self::from_parser(p)
    }

    /// Interpret an ELF file from a buffer whose ownership is handed over.
    pub fn from_vec(buffer: Vec<u8>) -> (r: Option<ReadElf<'elf>>)
        ensures
            r is Some <==> header_valid(buffer@),
            r matches Some(elf) ==> elf.wf() && elf.bytes() == buffer@
                && elf@ == spec_parse(buffer@),
    {
        let p = BinParser::VecBuffer(VecBuffer::new(buffer));
        Self::from_parser(p)
    }
}

/// Construction is deterministic in the bytes alone: two parsed headers
/// over the same underlying bytes carry the same field values, whichever
/// construction path produced each.
pub proof fn lemma_same_bytes_same_header(a: &ReadElf, b: &ReadElf)
    requires
        a.wf(),
        b.wf(),
        a.bytes() == b.bytes(),
    ensures
        a@ == b@,
{
}

/// The signature byte that must stand at offset `i` of the file, for
/// offsets within the four-byte magic.
pub open spec fn spec_magic_byte(i: int) -> u8 {
    if i == 0 {
        0x7f
    } else if i == 1 {
        0x45
    } else if i == 2 {
        0x4c
    } else {
        0x46
    }
}

/// Corrupting any single byte of the four-byte signature makes the bytes
/// fail validation, so construction from them fails.
pub proof fn lemma_magic_corruption_fails(s: Seq<u8>, i: int)
    requires
        0 <= i < 4,
        i < s.len(),
        s[i] != spec_magic_byte(i),
    ensures
        !header_valid(s),
{
}

/// Only the bytes 1 and 2 are valid for the class byte and for the endian
/// byte; every other value makes validation fail.
pub proof fn lemma_unknown_class_or_endian_fails(s: Seq<u8>)
    ensures
        header_valid(s) ==> (s[4] == 1 || s[4] == 2) && (s[5] == 1 || s[5] == 2),
        4 < s.len() && s[4] != 1 && s[4] != 2 ==> !header_valid(s),
        5 < s.len() && s[5] != 1 && s[5] != 2 ==> !header_valid(s),
{
}

/// Validation demands version 1 twice over: in the identification-block
/// version byte and in the 4-byte version field; if either says anything
/// else, construction fails.
pub proof fn lemma_version_must_be_one(s: Seq<u8>)
    ensures
        header_valid(s) ==> s[6] == 1
            && word_value(s.subrange(20, 24), spec_endian(s)) == 1,
        6 < s.len() && s[6] != 1 ==> !header_valid(s),
        s.len() >= 24 && word_value(s.subrange(20, 24), spec_endian(s)) != 1
            ==> !header_valid(s),
{
}

/// Truncation: a valid header covers its whole fixed size, so any shorter
/// prefix fails validation: below 52 bytes nothing parses, and a 64-bit
/// header needs all 64 bytes.
pub proof fn lemma_truncated_header_fails(s: Seq<u8>)
    ensures
        header_valid(s) ==> s.len() >= spec_header_size(spec_class(s)),
        s.len() < 52 ==> !header_valid(s),
        spec_class(s) == Class::Elf64 && s.len() < 64 ==> !header_valid(s),
{
}

/// The identification block that opens an encoded file header: signature,
/// class, endianness, version 1, OS ABI, ABI version, and zero padding.
pub open spec fn spec_ident(c: Class, e: Endian, osabi: u8, abi_version: u8) -> Seq<u8> {
    seq![
        0x7f, 0x45, 0x4c, 0x46,
        c.spec_value(), e.spec_value(), 1, osabi, abi_version,
        0, 0, 0, 0, 0, 0, 0,
    ]
}

/// A complete fixed file header over the given field values, laid out for
/// the given class and byte order, with every table-location field zero.
pub open spec fn spec_encode_header(
    c: Class,
    e: Endian,
    osabi: u8,
    abi_version: u8,
    exec_type: u16,
    machine: u16,
    entry: u64,
    flags: u32,
) -> Seq<u8> {
    let ident = spec_ident(c, e, osabi, abi_version);
    match c {
        Class::Elf32 => ident + bytes2(exec_type, e) + bytes2(machine, e) + bytes4(1, e)
            + bytes4(entry as u32, e) + bytes4(0, e) + bytes4(0, e) + bytes4(flags, e)
            + bytes2(0, e) + bytes2(0, e) + bytes2(0, e) + bytes2(0, e) + bytes2(0, e)
            + bytes2(0, e),
        Class::Elf64 => ident + bytes2(exec_type, e) + bytes2(machine, e) + bytes4(1, e)
            + bytes8(entry, e) + bytes8(0, e) + bytes8(0, e) + bytes4(flags, e)
            + bytes2(0, e) + bytes2(0, e) + bytes2(0, e) + bytes2(0, e) + bytes2(0, e)
            + bytes2(0, e),
    }
}

/// Round trip: a header encoded from a given (class, endian, OS ABI, ABI
/// version, type, machine, entry, flags) tuple passes validation, and
/// parsing it reproduces the tuple exactly, for either class and either
/// byte order.
#[verifier::rlimit(100)]
#[verifier::spinoff_prover]
pub proof fn lemma_header_round_trip(
    c: Class,
    e: Endian,
    osabi: u8,
    abi_version: u8,
    exec_type: u16,
    machine: u16,
    entry: u64,
    flags: u32,
)
    requires
        c is Elf32 ==> entry < 0x1_0000_0000,
    ensures
        ({
            let s = spec_encode_header(c, e, osabi, abi_version, exec_type, machine, entry, flags);
            &&& header_valid(s)
            &&& spec_parse(s) == (HeaderFields {
                class: c,
                data: e,
                version: 1,
                osabi,
                abi_version,
                exec_type: ExecutableType::spec_from_value(exec_type),
                machine,
                entry,
                flags,
                ehsize: 0,
                phoff: 0,
                phentsize: 0,
                phnum: 0,
                shoff: 0,
                shentsize: 0,
                shnum: 0,
                shstrndx: 0,
            })
        }),
{
    let s = spec_encode_header(c, e, osabi, abi_version, exec_type, machine, entry, flags);
    lemma_bytes2_value(exec_type, e);
    lemma_bytes2_value(machine, e);
    lemma_bytes2_value(0, e);
    lemma_bytes4_value(1, e);
    lemma_bytes4_value(flags, e);
    lemma_bytes4_value(0, e);
    lemma_bytes4_value(entry as u32, e);
    lemma_bytes8_value(entry, e);
    lemma_bytes8_value(0, e);
    match c {
        Class::Elf32 => {
            assert(s.len() == 52);
            assert(s[4] == c.spec_value() && s[5] == e.spec_value());
            assert(spec_class(s) == c && spec_endian(s) == e);
            assert(s.subrange(16, 18) =~= bytes2(exec_type, e));
            assert(s.subrange(18, 20) =~= bytes2(machine, e));
            assert(s.subrange(20, 24) =~= bytes4(1, e));
            assert(s.subrange(24, 28) =~= bytes4(entry as u32, e));
            assert(s.subrange(28, 32) =~= bytes4(0, e));
            assert(s.subrange(32, 36) =~= bytes4(0, e));
            assert(s.subrange(36, 40) =~= bytes4(flags, e));
            assert(s.subrange(40, 42) =~= bytes2(0, e));
            assert(s.subrange(42, 44) =~= bytes2(0, e));
            assert(s.subrange(44, 46) =~= bytes2(0, e));
            assert(s.subrange(46, 48) =~= bytes2(0, e));
            assert(s.subrange(48, 50) =~= bytes2(0, e));
            assert(s.subrange(50, 52) =~= bytes2(0, e));
        },
        Class::Elf64 => {
            assert(s.len() == 64);
            assert(s[4] == c.spec_value() && s[5] == e.spec_value());
            assert(spec_class(s) == c && spec_endian(s) == e);
            assert(s.subrange(16, 18) =~= bytes2(exec_type, e));
            assert(s.subrange(18, 20) =~= bytes2(machine, e));
            assert(s.subrange(20, 24) =~= bytes4(1, e));
            assert(s.subrange(24, 32) =~= bytes8(entry, e));
            assert(s.subrange(32, 40) =~= bytes8(0, e));
            assert(s.subrange(40, 48) =~= bytes8(0, e));
            assert(s.subrange(48, 52) =~= bytes4(flags, e));
            assert(s.subrange(52, 54) =~= bytes2(0, e));
            assert(s.subrange(54, 56) =~= bytes2(0, e));
            assert(s.subrange(56, 58) =~= bytes2(0, e));
            assert(s.subrange(58, 60) =~= bytes2(0, e));
            assert(s.subrange(60, 62) =~= bytes2(0, e));
            assert(s.subrange(62, 64) =~= bytes2(0, e));
        },
    }
}

} // verus!
