//! Parsing ELF file headers and walking their program header and section
//! header tables, over handcrafted byte images.

use readelf::{Class, Endian, ExecutableType, Machine, OsAbi, ProgramHeader, ReadElf,
    SectionType, SegmentFlags, SegmentType};

fn write_u8(buffer: &mut [u8], value: u8) {
    if buffer.is_empty() {
        panic!("Buffer too small")
    };
    buffer[0] = value;
}

fn write_u16(buffer: &mut [u8], value: u16, endian: Endian) {
    if buffer.len() < 2 {
        panic!("Buffer too small")
    };
    match endian {
        Endian::Little => buffer[0..2].copy_from_slice(&value.to_le_bytes()),
        Endian::Big => buffer[0..2].copy_from_slice(&value.to_be_bytes()),
    };
}

fn write_u32(buffer: &mut [u8], value: u32, endian: Endian) {
    if buffer.len() < 4 {
        panic!("Buffer too small")
    };
    match endian {
        Endian::Little => buffer[0..4].copy_from_slice(&value.to_le_bytes()),
        Endian::Big => buffer[0..4].copy_from_slice(&value.to_be_bytes()),
    };
}

fn write_u64(buffer: &mut [u8], value: u64, endian: Endian) {
    if buffer.len() < 8 {
        panic!("Buffer too small")
    };
    match endian {
        Endian::Little => buffer[0..8].copy_from_slice(&value.to_le_bytes()),
        Endian::Big => buffer[0..8].copy_from_slice(&value.to_be_bytes()),
    };
}

#[test]
fn write_u8_ok() {
    let mut buffer = [0_u8; 1];
    write_u8(&mut buffer, 0x01);
    assert_eq!(buffer[0], 0x01);
}

#[test]
#[should_panic]
fn write_u8_panic() {
    let mut buffer = [0_u8; 0];
    write_u8(&mut buffer, 0x01);
}

#[test]
fn write_u16_ok() {
    let mut buffer = [0_u8; 2];

    write_u16(&mut buffer, 0x1234, Endian::Big);
    assert_eq!(buffer[0], 0x12);
    assert_eq!(buffer[1], 0x34);

    write_u16(&mut buffer, 0x1234, Endian::Little);
    assert_eq!(buffer[0], 0x34);
    assert_eq!(buffer[1], 0x12);
}

#[test]
#[should_panic]
fn write_u16_panic() {
    let mut buffer = [1_u8; 0];
    write_u16(&mut buffer, 0x0102, Endian::Big);
}

#[test]
fn write_u32_ok() {
    let mut buffer = [0_u8; 4];

    write_u32(&mut buffer, 0x12345678, Endian::Big);
    assert_eq!(buffer[0], 0x12);
    assert_eq!(buffer[1], 0x34);
    assert_eq!(buffer[2], 0x56);
    assert_eq!(buffer[3], 0x78);

    write_u32(&mut buffer, 0x12345678, Endian::Little);
    assert_eq!(buffer[0], 0x78);
    assert_eq!(buffer[1], 0x56);
    assert_eq!(buffer[2], 0x34);
    assert_eq!(buffer[3], 0x12);
}

#[test]
#[should_panic]
fn write_u32_panic() {
    let mut buffer = [3_u8; 0];
    write_u32(&mut buffer, 0x01020304, Endian::Big);
}

#[test]
fn write_u64_ok() {
    let mut buffer = [0_u8; 8];

    write_u64(&mut buffer, 0x123456789abcdef0, Endian::Big);
    assert_eq!(buffer[0], 0x12);
    assert_eq!(buffer[1], 0x34);
    assert_eq!(buffer[2], 0x56);
    assert_eq!(buffer[3], 0x78);
    assert_eq!(buffer[4], 0x9a);
    assert_eq!(buffer[5], 0xbc);
    assert_eq!(buffer[6], 0xde);
    assert_eq!(buffer[7], 0xf0);

    write_u64(&mut buffer, 0x123456789abcdef0, Endian::Little);
    assert_eq!(buffer[0], 0xf0);
    assert_eq!(buffer[1], 0xde);
    assert_eq!(buffer[2], 0xbc);
    assert_eq!(buffer[3], 0x9a);
    assert_eq!(buffer[4], 0x78);
    assert_eq!(buffer[5], 0x56);
    assert_eq!(buffer[6], 0x34);
    assert_eq!(buffer[7], 0x12);
}

#[test]
#[should_panic]
fn write_u64_panic() {
    let mut buffer = [7_u8; 0];
    write_u64(&mut buffer, 0x0102030405060708, Endian::Big);
}

/// Builds a 32-bit ELF image in memory, mirroring the fixed header layout.
struct ElfBuilder32 {
    buffer: Vec<u8>,
    endian: Endian,
    segment_index: usize,
}

impl ElfBuilder32 {
    const E_PHOFF: usize = 0x34;
    const E_PHENTSIZE: usize = 0x20;

    fn new(endian: Endian) -> ElfBuilder32 {
        let mut elf = ElfBuilder32 {
            buffer: vec![0; 8192],
            endian,
            segment_index: 0,
        };

        write_u32(&mut elf.buffer[0..4], 0x7f454c46, Endian::Big);
        elf.write_u8(4, 0x01);
        match endian {
            Endian::Big => elf.write_u8(5, 0x02),
            Endian::Little => elf.write_u8(5, 0x01),
        }
        elf.write_u8(6, 0x01);
        elf.write_u32(20, 0x01);
        elf
    }

    fn set_os_abi(&mut self, abi: OsAbi) -> &mut Self {
        self.write_u8(7, u8::from(abi));
        self
    }

    fn set_abi_version(&mut self, abi_version: u8) -> &mut Self {
        self.write_u8(8, abi_version);
        self
    }

    fn set_executable_type(&mut self, exec_type: ExecutableType) -> &mut Self {
        self.write_u16(16, u16::from(exec_type));
        self
    }

    fn set_machine(&mut self, machine: Machine) -> &mut Self {
        self.write_u16(18, u16::from(machine));
        self
    }

    fn set_entry(&mut self, entry: u64) -> &mut Self {
        self.write_u32(24, entry as u32);
        self
    }

    fn set_flags(&mut self, flags: u32) -> &mut Self {
        self.write_u32(36, flags);
        self
    }

    fn write_u8(&mut self, offset: usize, value: u8) {
        write_u8(&mut self.buffer[offset..], value);
    }

    fn write_u16(&mut self, offset: usize, value: u16) {
        write_u16(&mut self.buffer[offset..], value, self.endian);
    }

    fn write_u32(&mut self, offset: usize, value: u32) {
        write_u32(&mut self.buffer[offset..], value, self.endian);
    }

    fn buffer(&self) -> &[u8] {
        &self.buffer
    }

    fn add_segment(&mut self, segment: &ProgramHeader) {
        let segment_base = ElfBuilder32::E_PHOFF + self.segment_index * ElfBuilder32::E_PHENTSIZE;

        self.write_u32(segment_base, u32::from(segment.segment_type));
        self.write_u32(segment_base + 4, segment.file_offset as u32);
        self.write_u32(segment_base + 8, segment.virtual_address as u32);
        self.write_u32(segment_base + 12, segment.physical_address as u32);
        self.write_u32(segment_base + 16, segment.file_size as u32);
        self.write_u32(segment_base + 20, segment.memory_size as u32);
        self.write_u32(segment_base + 24, u32::from(segment.flags));
        self.write_u32(segment_base + 28, segment.alignment as u32);

        self.segment_index += 1;
        self.write_u32(28, ElfBuilder32::E_PHOFF as u32);
        self.write_u16(42, ElfBuilder32::E_PHENTSIZE as u16);
        self.write_u16(44, self.segment_index as u16);
    }
}

/// Builds a 64-bit ELF image in memory, mirroring the fixed header layout.
struct ElfBuilder64 {
    buffer: Vec<u8>,
    endian: Endian,
    segment_index: usize,
}

impl ElfBuilder64 {
    const E_PHOFF: usize = 0x40;
    const E_PHENTSIZE: usize = 0x38;

    fn new(endian: Endian) -> ElfBuilder64 {
        let mut elf = ElfBuilder64 {
            buffer: vec![0; 8192],
            endian,
            segment_index: 0,
        };

        write_u32(&mut elf.buffer[0..4], 0x7f454c46, Endian::Big);
        elf.write_u8(4, 0x02);
        match endian {
            Endian::Big => elf.write_u8(5, 0x02),
            Endian::Little => elf.write_u8(5, 0x01),
        }
        elf.write_u8(6, 0x01);
        elf.write_u32(20, 0x01);
        elf
    }

    fn set_os_abi(&mut self, abi: OsAbi) -> &mut Self {
        self.write_u8(7, u8::from(abi));
        self
    }

    fn set_abi_version(&mut self, abi_version: u8) -> &mut Self {
        self.write_u8(8, abi_version);
        self
    }

    fn set_executable_type(&mut self, exec_type: ExecutableType) -> &mut Self {
        self.write_u16(16, u16::from(exec_type));
        self
    }

    fn set_machine(&mut self, machine: Machine) -> &mut Self {
        self.write_u16(18, u16::from(machine));
        self
    }

    fn set_entry(&mut self, entry: u64) -> &mut Self {
        self.write_u64(24, entry);
        self
    }

    fn set_flags(&mut self, flags: u32) -> &mut Self {
        self.write_u32(48, flags);
        self
    }

    fn write_u8(&mut self, offset: usize, value: u8) {
        write_u8(&mut self.buffer[offset..], value);
    }

    fn write_u16(&mut self, offset: usize, value: u16) {
        write_u16(&mut self.buffer[offset..], value, self.endian);
    }

    fn write_u32(&mut self, offset: usize, value: u32) {
        write_u32(&mut self.buffer[offset..], value, self.endian);
    }

    fn write_u64(&mut self, offset: usize, value: u64) {
        write_u64(&mut self.buffer[offset..], value, self.endian);
    }

    fn buffer(&self) -> &[u8] {
        &self.buffer
    }

    fn add_segment(&mut self, segment: &ProgramHeader) {
        let segment_base = ElfBuilder64::E_PHOFF + self.segment_index * ElfBuilder64::E_PHENTSIZE;

        self.write_u32(segment_base, u32::from(segment.segment_type));
        self.write_u32(segment_base + 4, u32::from(segment.flags));
        self.write_u64(segment_base + 8, segment.file_offset);
        self.write_u64(segment_base + 16, segment.virtual_address);
        self.write_u64(segment_base + 24, segment.physical_address);
        self.write_u64(segment_base + 32, segment.file_size);
        self.write_u64(segment_base + 40, segment.memory_size);
        self.write_u64(segment_base + 48, segment.alignment);

        self.segment_index += 1;
        self.write_u64(32, ElfBuilder64::E_PHOFF as u64);
        self.write_u16(54, ElfBuilder64::E_PHENTSIZE as u16);
        self.write_u16(56, self.segment_index as u16);
    }
}

fn get_header_32() -> Vec<u8> {
    let buff: Vec<u8> = vec![
        0x7f, 0x45, 0x4c, 0x46, 0x01, 0x01, 0x01, 0x00, 0x00, 0x00, 0x00, 0x00, 0x00, 0x00, 0x00,
        0x00, 0x02, 0x00, 0x03, 0x00, 0x01, 0x00, 0x00, 0x00, 0x8e, 0x55, 0x06, 0x08, 0x34, 0x00,
        0x00, 0x00, 0xc8, 0x49, 0x13, 0x00, 0x00, 0x00, 0x00, 0x00, 0x34, 0x00, 0x20, 0x00, 0x09,
        0x00, 0x28, 0x00, 0x1e, 0x00, 0x1d, 0x00, 0x06, 0x00, 0x00, 0x00, 0x34, 0x00, 0x00, 0x00,
        0x34, 0x80, 0x04, 0x08,
    ];
    buff
}

fn get_header_64() -> Vec<u8> {
    let buff: Vec<u8> = vec![
        0x7f, 0x45, 0x4c, 0x46, 0x02, 0x01, 0x01, 0x00, 0x00, 0x00, 0x00, 0x00, 0x00, 0x00, 0x00,
        0x00, 0x02, 0x00, 0xb7, 0x00, 0x01, 0x00, 0x00, 0x00, 0x58, 0x5c, 0x42, 0x00, 0x00, 0x00,
        0x00, 0x00, 0x40, 0x00, 0x00, 0x00, 0x00, 0x00, 0x00, 0x00, 0xd8, 0x79, 0x0f, 0x00, 0x00,
        0x00, 0x00, 0x00, 0x00, 0x00, 0x00, 0x00, 0x40, 0x00, 0x38, 0x00, 0x08, 0x00, 0x40, 0x00,
        0x1c, 0x00, 0x1b, 0x00,
    ];
    buff
}

#[test]
fn elf_header_precondition() {
    let buff = get_header_64();
    let slice = buff.as_slice();

    // Check that this test image actually parses. Later, when tests expect
    // a failure, it is known the image was fine beforehand.
    let elf_file = ReadElf::from_slice(slice);
    assert!(elf_file.is_some());
}

#[test]
fn elf_header_no_magic() {
    let mut buff = get_header_64();
    buff[0] = 0;

    let elf_file = ReadElf::from_vec(buff);
    assert!(elf_file.is_none());
}

#[test]
fn elf_header_any_magic_corruption_fails() {
    for p in 0..4_usize {
        for i in 0..=255_u8 {
            let mut buff = get_header_64();
            if buff[p] != i {
                buff[p] = i;
                let elf_file = ReadElf::from_vec(buff);
                assert!(elf_file.is_none(), "Offset:{} Value:{}", p, i);
            }
        }
    }
}

#[test]
fn elf_header_invalid_class() {
    for i in 0..=255_u8 {
        if i == 0 || i > 2 {
            let mut buff = get_header_64();

            // Class (32-bit/64-bit) is offset 4.
            buff[4] = i;

            let elf_file = ReadElf::from_vec(buff);
            assert!(elf_file.is_none());
        }
    }
}

#[test]
fn elf_header_invalid_data() {
    for i in 0..=255_u8 {
        if i == 0 || i > 2 {
            let mut buff = get_header_64();

            // Data (endianness) is offset 5.
            buff[5] = i;

            let elf_file = ReadElf::from_vec(buff);
            assert!(elf_file.is_none());
        }
    }
}

#[test]
fn elf_header_invalid_version_ident() {
    for i in 0..=255_u8 {
        if i != 1 {
            let mut buff = get_header_64();

            // Version is offset 6.
            buff[6] = i;

            let elf_file = ReadElf::from_vec(buff);
            assert!(elf_file.is_none());
        }
    }
}

#[test]
fn elf_header_invalid_version() {
    for p in vec![20, 23].into_iter() {
        for i in 0..=255_u8 {
            if i != 1 {
                let mut buff = get_header_64();

                buff[20] = 0; // Ensure that when p != 20 the test case works
                buff[p] = i;

                let elf_file = ReadElf::from_vec(buff);
                assert!(elf_file.is_none(), "Offset:{} Value:{}", p, i);
            }
        }
    }
}

#[test]
fn elf_header_invalid_version_both() {
    for i in 0..=255_u8 {
        if i != 1 {
            let mut buff = get_header_64();

            // Version (identification block) is offset 6.
            buff[6] = i;
            buff[20] = i;

            let elf_file = ReadElf::from_vec(buff);
            assert!(elf_file.is_none());
        }
    }
}

#[test]
fn elf_header_all_osabi() {
    for i in 0..=255_u8 {
        let mut buff = get_header_64();

        // All values of osabi should work.
        buff[7] = i;

        let elf_file = ReadElf::from_vec(buff);
        assert!(elf_file.is_some());
    }
}

#[test]
fn elf_header_all_abi_version() {
    for i in 0..=255_u8 {
        let mut buff = get_header_64();

        // All values of abi_version should work.
        buff[8] = i;

        let elf_file = ReadElf::from_vec(buff);
        assert!(elf_file.is_some());
    }
}

#[test]
fn elf_header_all_type() {
    for i in 0..=65535_u16 {
        let mut buff = get_header_64();

        buff[16] = (i & 0xFF) as u8;
        buff[17] = (i >> 8) as u8;

        let elf_file = ReadElf::from_vec(buff);
        assert!(elf_file.is_some(), "Type:{:x}", i);
    }
}

#[test]
fn elf_header_all_machine() {
    for i in 0..=65535_u16 {
        let mut buff = get_header_64();

        // All values of machine should work.
        buff[18] = (i & 0xFF) as u8;
        buff[19] = (i >> 8) as u8;

        let elf_file = ReadElf::from_vec(buff);
        assert!(elf_file.is_some());
    }
}

#[test]
fn zero_length_file() {
    let buff: Vec<u8> = vec![];
    let elf_file = ReadElf::from_vec(buff);
    assert!(elf_file.is_none());
}

#[test]
fn zero_file_small() {
    let buff: Vec<u8> = vec![0, 0, 0, 0];
    for i in 0..4 {
        let elf_file = ReadElf::from_slice(&buff.as_slice()[0..i]);
        assert!(elf_file.is_none(), "Valid file with length {}", i);
    }
}

#[test]
fn very_small_file_32() {
    let buff = get_header_32();
    for i in 0..52 {
        let elf_file = ReadElf::from_slice(&buff.as_slice()[0..i]);
        assert!(elf_file.is_none(), "Valid file with length {}", i);
    }
}

#[test]
fn very_small_file_64() {
    let buff = get_header_64();
    for i in 0..64 {
        let elf_file = ReadElf::from_slice(&buff.as_slice()[0..i]);
        assert!(elf_file.is_none(), "Valid file with length {}", i);
    }
}

#[test]
fn exact_length_parses() {
    let buff_32 = get_header_32();
    assert!(ReadElf::from_slice(&buff_32.as_slice()[0..52]).is_some());

    let buff_64 = get_header_64();
    assert!(ReadElf::from_slice(&buff_64.as_slice()[0..64]).is_some());
}

#[test]
fn slice_and_vec_agree_on_fields() {
    let buff = get_header_32();
    let a = ReadElf::from_slice(buff.as_slice()).unwrap();
    let b = ReadElf::from_vec(buff.clone()).unwrap();

    assert_eq!(a.class, b.class);
    assert_eq!(a.data, b.data);
    assert_eq!(a.version, b.version);
    assert_eq!(a.osabi, b.osabi);
    assert_eq!(a.abi_version, b.abi_version);
    assert_eq!(a.exec_type, b.exec_type);
    assert_eq!(a.machine, b.machine);
    assert_eq!(a.entry, b.entry);
    assert_eq!(a.flags, b.flags);
}

#[test]
fn header_32_fields() {
    let buff = get_header_32();
    let elf = ReadElf::from_vec(buff).unwrap();

    assert_eq!(elf.class, Class::Elf32);
    assert_eq!(elf.data, Endian::Little);
    assert_eq!(elf.version, 1);
    assert_eq!(elf.osabi.os_abi(), 0);
    assert_eq!(elf.abi_version, 0);
    assert_eq!(elf.exec_type, ExecutableType::Executable);
    assert_eq!(elf.machine.machine(), Machine::INTEL_386);
    assert_eq!(elf.entry, 0x0806558E);
    assert_eq!(elf.flags, 0x00000000);
}

#[test]
fn segments_elf32_little_program_header_only() {
    let mut elf_builder = ElfBuilder32::new(Endian::Little);
    elf_builder
        .set_os_abi(OsAbi::from(OsAbi::NONE))
        .set_abi_version(0)
        .set_executable_type(ExecutableType::Executable)
        .set_machine(Machine::from(Machine::X86_64))
        .set_entry(0x1000)
        .set_flags(0x00000000);
    let elf = ReadElf::from_slice(elf_builder.buffer()).unwrap();
    assert_eq!(elf.osabi, OsAbi::from(OsAbi::NONE));
    assert_eq!(elf.abi_version, 0);
    assert_eq!(elf.exec_type, ExecutableType::Executable);
    assert_eq!(elf.machine, Machine::from(Machine::X86_64));
    assert_eq!(elf.entry, 0x1000);
    assert_eq!(elf.flags, 0x00000000);
    assert!(elf.program_headers().is_empty());
    assert_eq!(elf.program_headers().len(), 0);
}

#[test]
fn segments_elf32_big_program_header_only() {
    let mut elf_builder = ElfBuilder32::new(Endian::Big);
    elf_builder
        .set_os_abi(OsAbi::from(OsAbi::NONE))
        .set_abi_version(0)
        .set_executable_type(ExecutableType::Executable)
        .set_machine(Machine::from(Machine::X86_64))
        .set_entry(0x1000)
        .set_flags(0x00000000);
    let elf = ReadElf::from_slice(elf_builder.buffer()).unwrap();
    assert_eq!(elf.osabi, OsAbi::from(OsAbi::NONE));
    assert_eq!(elf.abi_version, 0);
    assert_eq!(elf.exec_type, ExecutableType::Executable);
    assert_eq!(elf.machine, Machine::from(Machine::X86_64));
    assert_eq!(elf.entry, 0x1000);
    assert_eq!(elf.flags, 0x00000000);
    assert!(elf.program_headers().is_empty());
    assert_eq!(elf.program_headers().len(), 0);
}

#[test]
fn segments_elf64_little_program_header_only() {
    let mut elf_builder = ElfBuilder64::new(Endian::Little);
    elf_builder
        .set_os_abi(OsAbi::from(OsAbi::NONE))
        .set_abi_version(0)
        .set_executable_type(ExecutableType::Executable)
        .set_machine(Machine::from(Machine::X86_64))
        .set_entry(0x1000)
        .set_flags(0x00000000);
    let elf = ReadElf::from_slice(elf_builder.buffer()).unwrap();
    assert_eq!(elf.osabi, OsAbi::from(OsAbi::NONE));
    assert_eq!(elf.abi_version, 0);
    assert_eq!(elf.exec_type, ExecutableType::Executable);
    assert_eq!(elf.machine, Machine::from(Machine::X86_64));
    assert_eq!(elf.entry, 0x1000);
    assert_eq!(elf.flags, 0x00000000);
    assert!(elf.program_headers().is_empty());
    assert_eq!(elf.program_headers().len(), 0);
}

#[test]
fn segments_elf64_big_program_header_only() {
    let mut elf_builder = ElfBuilder64::new(Endian::Big);
    elf_builder
        .set_os_abi(OsAbi::from(OsAbi::NONE))
        .set_abi_version(0)
        .set_executable_type(ExecutableType::Executable)
        .set_machine(Machine::from(Machine::X86_64))
        .set_entry(0x1000)
        .set_flags(0x00000000);
    let elf = ReadElf::from_slice(elf_builder.buffer()).unwrap();
    assert_eq!(elf.osabi, OsAbi::from(OsAbi::NONE));
    assert_eq!(elf.abi_version, 0);
    assert_eq!(elf.exec_type, ExecutableType::Executable);
    assert_eq!(elf.machine, Machine::from(Machine::X86_64));
    assert_eq!(elf.entry, 0x1000);
    assert_eq!(elf.flags, 0x00000000);
    assert!(elf.program_headers().is_empty());
    assert_eq!(elf.program_headers().len(), 0);
}

#[test]
fn segments_elf32_little_null() {
    let mut elf_builder = ElfBuilder32::new(Endian::Little);
    elf_builder
        .set_os_abi(OsAbi::from(OsAbi::NONE))
        .set_abi_version(0)
        .set_executable_type(ExecutableType::Executable)
        .set_machine(Machine::from(Machine::X86_64))
        .set_entry(0x1000)
        .set_flags(0x00000000);
    elf_builder.add_segment(&ProgramHeader {
        segment_type: SegmentType::Null,
        flags: SegmentFlags::from(SegmentFlags::R),
        file_offset: 0x1000,
        virtual_address: 0x2000,
        physical_address: 0x3000,
        file_size: 0x4000,
        memory_size: 0x5000,
        alignment: 0x10,
    });
    let elf = ReadElf::from_slice(elf_builder.buffer()).unwrap();
    assert!(!elf.program_headers().is_empty());
    assert_eq!(elf.program_headers().len(), 1);

    let segments: Vec<ProgramHeader> = elf.program_headers().to_vec();
    assert_eq!(segments.len(), 1);
    assert_eq!(segments[0].segment_type, SegmentType::Null);
    assert_eq!(segments[0].flags, SegmentFlags::from(SegmentFlags::R));
    assert_eq!(segments[0].file_offset, 0x1000);
    assert_eq!(segments[0].virtual_address, 0x2000);
    assert_eq!(segments[0].physical_address, 0x3000);
    assert_eq!(segments[0].file_size, 0x4000);
    assert_eq!(segments[0].memory_size, 0x5000);
    assert_eq!(segments[0].alignment, 0x10);
}

#[test]
fn segments_elf32_big_null() {
    let mut elf_builder = ElfBuilder32::new(Endian::Big);
    elf_builder
        .set_os_abi(OsAbi::from(OsAbi::NONE))
        .set_abi_version(0)
        .set_executable_type(ExecutableType::Executable)
        .set_machine(Machine::from(Machine::X86_64))
        .set_entry(0x1000)
        .set_flags(0x00000000);
    elf_builder.add_segment(&ProgramHeader {
        segment_type: SegmentType::Null,
        flags: SegmentFlags::from(SegmentFlags::R),
        file_offset: 0x1000,
        virtual_address: 0x2000,
        physical_address: 0x3000,
        file_size: 0x4000,
        memory_size: 0x5000,
        alignment: 0x10,
    });
    let elf = ReadElf::from_slice(elf_builder.buffer()).unwrap();
    assert!(!elf.program_headers().is_empty());
    assert_eq!(elf.program_headers().len(), 1);

    let segments: Vec<ProgramHeader> = elf.program_headers().to_vec();
    assert_eq!(segments.len(), 1);
    assert_eq!(segments[0].segment_type, SegmentType::Null);
    assert_eq!(segments[0].flags, SegmentFlags::from(SegmentFlags::R));
    assert_eq!(segments[0].file_offset, 0x1000);
    assert_eq!(segments[0].virtual_address, 0x2000);
    assert_eq!(segments[0].physical_address, 0x3000);
    assert_eq!(segments[0].file_size, 0x4000);
    assert_eq!(segments[0].memory_size, 0x5000);
    assert_eq!(segments[0].alignment, 0x10);
}

#[test]
fn segments_elf64_little_null() {
    let mut elf_builder = ElfBuilder64::new(Endian::Little);
    elf_builder
        .set_os_abi(OsAbi::from(OsAbi::NONE))
        .set_abi_version(0)
        .set_executable_type(ExecutableType::Executable)
        .set_machine(Machine::from(Machine::X86_64))
        .set_entry(0x1000)
        .set_flags(0x00000000);
    elf_builder.add_segment(&ProgramHeader {
        segment_type: SegmentType::Null,
        flags: SegmentFlags::from(SegmentFlags::R),
        file_offset: 0x1000,
        virtual_address: 0x2000,
        physical_address: 0x3000,
        file_size: 0x4000,
        memory_size: 0x5000,
        alignment: 0x10,
    });
    let elf = ReadElf::from_slice(elf_builder.buffer()).unwrap();
    assert!(!elf.program_headers().is_empty());
    assert_eq!(elf.program_headers().len(), 1);

    let segments: Vec<ProgramHeader> = elf.program_headers().to_vec();
    assert_eq!(segments.len(), 1);
    assert_eq!(segments[0].segment_type, SegmentType::Null);
    assert_eq!(segments[0].flags, SegmentFlags::from(SegmentFlags::R));
    assert_eq!(segments[0].file_offset, 0x1000);
    assert_eq!(segments[0].virtual_address, 0x2000);
    assert_eq!(segments[0].physical_address, 0x3000);
    assert_eq!(segments[0].file_size, 0x4000);
    assert_eq!(segments[0].memory_size, 0x5000);
    assert_eq!(segments[0].alignment, 0x10);
}

#[test]
fn segments_elf64_big_null() {
    let mut elf_builder = ElfBuilder64::new(Endian::Big);
    elf_builder
        .set_os_abi(OsAbi::from(OsAbi::NONE))
        .set_abi_version(0)
        .set_executable_type(ExecutableType::Executable)
        .set_machine(Machine::from(Machine::X86_64))
        .set_entry(0x1000)
        .set_flags(0x00000000);
    elf_builder.add_segment(&ProgramHeader {
        segment_type: SegmentType::Null,
        flags: SegmentFlags::from(SegmentFlags::R),
        file_offset: 0x1000,
        virtual_address: 0x2000,
        physical_address: 0x3000,
        file_size: 0x4000,
        memory_size: 0x5000,
        alignment: 0x10,
    });
    let elf = ReadElf::from_slice(elf_builder.buffer()).unwrap();
    assert!(!elf.program_headers().is_empty());
    assert_eq!(elf.program_headers().len(), 1);

    let segments: Vec<ProgramHeader> = elf.program_headers().to_vec();
    assert_eq!(segments.len(), 1);
    assert_eq!(segments[0].segment_type, SegmentType::Null);
    assert_eq!(segments[0].flags, SegmentFlags::from(SegmentFlags::R));
    assert_eq!(segments[0].file_offset, 0x1000);
    assert_eq!(segments[0].virtual_address, 0x2000);
    assert_eq!(segments[0].physical_address, 0x3000);
    assert_eq!(segments[0].file_size, 0x4000);
    assert_eq!(segments[0].memory_size, 0x5000);
    assert_eq!(segments[0].alignment, 0x10);
}

#[test]
fn segments_phoff_umax() {
    let mut elf_builder = ElfBuilder64::new(Endian::Big);
    elf_builder
        .set_os_abi(OsAbi::from(OsAbi::NONE))
        .set_abi_version(0)
        .set_executable_type(ExecutableType::Executable)
        .set_machine(Machine::from(Machine::X86_64))
        .set_entry(0x1000)
        .set_flags(0x00000000);
    elf_builder.add_segment(&ProgramHeader {
        segment_type: SegmentType::Null,
        flags: SegmentFlags::from(SegmentFlags::R),
        file_offset: 0x1000,
        virtual_address: 0x2000,
        physical_address: 0x3000,
        file_size: 0x4000,
        memory_size: 0x5000,
        alignment: 0x10,
    });

    elf_builder.write_u64(0x20, u64::MAX);
    let elf = ReadElf::from_slice(elf_builder.buffer()).unwrap();

    // This reads the declared count, without checking the table contents.
    assert_eq!(elf.program_headers().len(), 1);

    // Only the lazy walk discovers that the entries are unreachable.
    let segments: Vec<ProgramHeader> = elf.program_headers().to_vec();
    assert!(segments.is_empty());

    // An indexed lookup finds nothing either.
    assert!(elf.program_headers().index(0).is_none());
}

#[test]
fn segments_elf32_phentsize_too_small() {
    let mut elf_builder = ElfBuilder64::new(Endian::Big);
    elf_builder
        .set_os_abi(OsAbi::from(OsAbi::NONE))
        .set_abi_version(0)
        .set_executable_type(ExecutableType::Executable)
        .set_machine(Machine::from(Machine::X86_64))
        .set_entry(0x1000)
        .set_flags(0x00000000);
    elf_builder.add_segment(&ProgramHeader {
        segment_type: SegmentType::Null,
        flags: SegmentFlags::from(SegmentFlags::R),
        file_offset: 0x1000,
        virtual_address: 0x2000,
        physical_address: 0x3000,
        file_size: 0x4000,
        memory_size: 0x5000,
        alignment: 0x10,
    });

    // Set `e_phentsize` to one less than the size of the structure.
    elf_builder.write_u16(0x36, 31);
    let elf = ReadElf::from_slice(elf_builder.buffer()).unwrap();

    // This reads the declared count, without checking the table contents.
    assert_eq!(elf.program_headers().len(), 1);

    // Only the lazy walk discovers that the entries are unreachable.
    let segments: Vec<ProgramHeader> = elf.program_headers().to_vec();
    assert!(segments.is_empty());
}

#[test]
fn segments_elf64_phentsize_too_small() {
    let mut elf_builder = ElfBuilder64::new(Endian::Big);
    elf_builder
        .set_os_abi(OsAbi::from(OsAbi::NONE))
        .set_abi_version(0)
        .set_executable_type(ExecutableType::Executable)
        .set_machine(Machine::from(Machine::X86_64))
        .set_entry(0x1000)
        .set_flags(0x00000000);
    elf_builder.add_segment(&ProgramHeader {
        segment_type: SegmentType::Null,
        flags: SegmentFlags::from(SegmentFlags::R),
        file_offset: 0x1000,
        virtual_address: 0x2000,
        physical_address: 0x3000,
        file_size: 0x4000,
        memory_size: 0x5000,
        alignment: 0x10,
    });

    // Set `e_phentsize` to one less than the size of the structure.
    elf_builder.write_u16(0x36, 55);
    let elf = ReadElf::from_slice(elf_builder.buffer()).unwrap();

    // This reads the declared count, without checking the table contents.
    assert_eq!(elf.program_headers().len(), 1);

    // Only the lazy walk discovers that the entries are unreachable.
    let segments: Vec<ProgramHeader> = elf.program_headers().to_vec();
    assert!(segments.is_empty());
}

#[test]
fn segments_aligned() {
    let mut elf_builder = ElfBuilder64::new(Endian::Big);
    elf_builder
        .set_os_abi(OsAbi::from(OsAbi::NONE))
        .set_abi_version(0)
        .set_executable_type(ExecutableType::Executable)
        .set_machine(Machine::from(Machine::X86_64))
        .set_entry(0x1000)
        .set_flags(0x00000000);
    elf_builder.add_segment(&ProgramHeader {
        segment_type: SegmentType::Null,
        flags: SegmentFlags::from(SegmentFlags::NONE),
        file_offset: 0,
        virtual_address: 0,
        physical_address: 0,
        file_size: 0,
        memory_size: 0,
        alignment: 0,
    });
    elf_builder.add_segment(&ProgramHeader {
        segment_type: SegmentType::Note,
        flags: SegmentFlags::from(SegmentFlags::R),
        file_offset: 0x12AE,
        virtual_address: 0x22AE,
        physical_address: 0x0000,
        file_size: 0x1000,
        memory_size: 0x1000,
        alignment: 0x1000,
    });

    let elf = ReadElf::from_slice(elf_builder.buffer()).unwrap();

    assert_eq!(elf.program_headers().len(), 2);
    let segments: Vec<ProgramHeader> = elf.program_headers().to_vec();
    assert!(segments[1].is_aligned());
}

#[test]
fn segments_not_aligned() {
    let mut elf_builder = ElfBuilder64::new(Endian::Big);
    elf_builder
        .set_os_abi(OsAbi::from(OsAbi::NONE))
        .set_abi_version(0)
        .set_executable_type(ExecutableType::Executable)
        .set_machine(Machine::from(Machine::X86_64))
        .set_entry(0x1000)
        .set_flags(0x00000000);
    elf_builder.add_segment(&ProgramHeader {
        segment_type: SegmentType::Null,
        flags: SegmentFlags::from(SegmentFlags::NONE),
        file_offset: 0,
        virtual_address: 0,
        physical_address: 0,
        file_size: 0,
        memory_size: 0,
        alignment: 0,
    });
    elf_builder.add_segment(&ProgramHeader {
        segment_type: SegmentType::Note,
        flags: SegmentFlags::from(SegmentFlags::R),
        file_offset: 0x12AE,
        virtual_address: 0x23AE,
        physical_address: 0x0000,
        file_size: 0x1000,
        memory_size: 0x1000,
        alignment: 0x1000,
    });

    let elf = ReadElf::from_slice(elf_builder.buffer()).unwrap();

    assert_eq!(elf.program_headers().len(), 2);
    let segments: Vec<ProgramHeader> = elf.program_headers().to_vec();
    assert!(!segments[1].is_aligned());
}

#[test]
fn segment_alignment_rule() {
    // Alignment 0 and 1 demand nothing, whatever the addresses say.
    let mut segment = ProgramHeader {
        segment_type: SegmentType::Load,
        flags: SegmentFlags::from(SegmentFlags::R),
        file_offset: 0x123,
        virtual_address: 0x9876,
        physical_address: 0,
        file_size: 0,
        memory_size: 0,
        alignment: 0,
    };
    assert!(segment.is_aligned());
    segment.alignment = 1;
    assert!(segment.is_aligned());

    // A non-power-of-two alignment never passes.
    segment.alignment = 3;
    assert!(!segment.is_aligned());
    segment.alignment = 0x1001;
    assert!(!segment.is_aligned());

    // A power of two demands congruence of the two addresses.
    segment.alignment = 0x1000;
    segment.virtual_address = 0x22AE;
    segment.file_offset = 0x12AE;
    assert!(segment.is_aligned());
    segment.virtual_address = 0x23AE;
    assert!(!segment.is_aligned());

    // The rule is symmetric in the two addresses.
    segment.virtual_address = 0x12AE;
    segment.file_offset = 0x22AE;
    assert!(segment.is_aligned());
}

fn round_trip(class: Class, endian: Endian) {
    let entry: u64 = match class {
        Class::Elf32 => 0x1234,
        Class::Elf64 => 0x1_0000_2345,
    };
    let elf = match class {
        Class::Elf32 => {
            let mut b = ElfBuilder32::new(endian);
            b.set_os_abi(OsAbi::from(OsAbi::FREEBSD))
                .set_abi_version(7)
                .set_executable_type(ExecutableType::Dynamic)
                .set_machine(Machine::from(Machine::PPC))
                .set_entry(entry)
                .set_flags(0x00A5_5A01);
            ReadElf::from_vec(b.buffer.clone()).unwrap()
        },
        Class::Elf64 => {
            let mut b = ElfBuilder64::new(endian);
            b.set_os_abi(OsAbi::from(OsAbi::FREEBSD))
                .set_abi_version(7)
                .set_executable_type(ExecutableType::Dynamic)
                .set_machine(Machine::from(Machine::PPC))
                .set_entry(entry)
                .set_flags(0x00A5_5A01);
            ReadElf::from_vec(b.buffer.clone()).unwrap()
        },
    };
    assert_eq!(elf.class, class);
    assert_eq!(elf.data, endian);
    assert_eq!(elf.osabi, OsAbi::from(OsAbi::FREEBSD));
    assert_eq!(elf.abi_version, 7);
    assert_eq!(elf.exec_type, ExecutableType::Dynamic);
    assert_eq!(elf.machine, Machine::from(Machine::PPC));
    assert_eq!(elf.entry, entry);
    assert_eq!(elf.flags, 0x00A5_5A01);
}

#[test]
fn round_trip_all_classes_and_endians() {
    round_trip(Class::Elf32, Endian::Little);
    round_trip(Class::Elf32, Endian::Big);
    round_trip(Class::Elf64, Endian::Little);
    round_trip(Class::Elf64, Endian::Big);
}

/// A minimal 64-bit little-endian image with three sections and a string
/// table holding exactly `content` at file offset 0x200.
fn section_image(content: &[u8]) -> Vec<u8> {
    let e = Endian::Little;
    let mut buff = vec![0_u8; 0x200 + content.len()];

    write_u32(&mut buff[0..4], 0x7f454c46, Endian::Big);
    buff[4] = 2; // 64-bit
    buff[5] = 1; // little endian
    buff[6] = 1;
    write_u32(&mut buff[20..], 1, e);

    write_u64(&mut buff[40..], 0x40, e); // e_shoff: sections at 0x40
    write_u16(&mut buff[58..], 64, e); // e_shentsize
    write_u16(&mut buff[60..], 3, e); // e_shnum
    write_u16(&mut buff[62..], 2, e); // e_shstrndx

    // Section 0 stays all zero (the null section, name offset 0).
    // Section 1: program data named at string table offset 4.
    let s1 = 0x40 + 64;
    write_u32(&mut buff[s1..], 4, e); // name offset
    write_u32(&mut buff[s1 + 4..], 1, e); // SHT_PROGBITS
    write_u64(&mut buff[s1 + 24..], 0x123, e); // file offset
    write_u64(&mut buff[s1 + 32..], 0x45, e); // file size
    write_u32(&mut buff[s1 + 40..], 9, e); // link
    write_u32(&mut buff[s1 + 44..], 7, e); // info
    write_u64(&mut buff[s1 + 48..], 8, e); // alignment
    write_u64(&mut buff[s1 + 56..], 4, e); // entry size

    // Section 2: the string table itself, named at offset 0.
    let s2 = 0x40 + 2 * 64;
    write_u32(&mut buff[s2..], 0, e); // name offset
    write_u32(&mut buff[s2 + 4..], 3, e); // SHT_STRTAB
    write_u64(&mut buff[s2 + 24..], 0x200, e); // file offset
    write_u64(&mut buff[s2 + 32..], content.len() as u64, e); // file size

    buff[0x200..].copy_from_slice(content);
    buff
}

#[test]
fn string_table_resolves_names() {
    let buff = section_image(b"abc\0def\0");
    let elf = ReadElf::from_vec(buff).unwrap();

    let sections = elf.section_headers();
    assert_eq!(sections.len(), 3);
    assert!(!sections.is_empty());

    let null_section = sections.index(0).unwrap();
    assert_eq!(null_section.name.as_deref(), Some("abc"));
    assert_eq!(null_section.section_type, SectionType::Null);

    let data_section = sections.index(1).unwrap();
    assert_eq!(data_section.name.as_deref(), Some("def"));
    assert_eq!(data_section.section_type, SectionType::ProgBits);
    assert_eq!(data_section.file_offset, 0x123);
    assert_eq!(data_section.file_size, 0x45);
    assert_eq!(data_section.section_link, 9);
    assert_eq!(data_section.section_info, 7);
    assert_eq!(data_section.alignment, 8);
    assert_eq!(data_section.entry_size, 4);
    assert!(data_section.is_aligned());

    let table_section = sections.index(2).unwrap();
    assert_eq!(table_section.name.as_deref(), Some("abc"));
    assert_eq!(table_section.section_type, SectionType::StrTab);

    assert!(sections.index(3).is_none());

    let all = elf.section_headers().to_vec();
    assert_eq!(all.len(), 3);
    assert_eq!(all[1].name.as_deref(), Some("def"));
}

#[test]
fn string_table_unterminated_name_absent() {
    // The name at offset 4 runs to the end of the table with no null
    // terminator, so it resolves to nothing; the section still decodes.
    let buff = section_image(b"abc\0def!");
    let elf = ReadElf::from_vec(buff).unwrap();

    let sections = elf.section_headers();
    let data_section = sections.index(1).unwrap();
    assert_eq!(data_section.name, None);
    assert_eq!(data_section.section_type, SectionType::ProgBits);

    let null_section = sections.index(0).unwrap();
    assert_eq!(null_section.name.as_deref(), Some("abc"));
}

#[test]
fn string_table_invalid_utf8_name_absent() {
    let buff = section_image(b"abc\0\xff\xfe\0\0");
    let elf = ReadElf::from_vec(buff).unwrap();

    let sections = elf.section_headers();
    let data_section = sections.index(1).unwrap();
    assert_eq!(data_section.name, None);
}

#[test]
fn missing_string_table_leaves_names_absent() {
    // Point the string table index at a section that is not a string
    // table: every name stays absent, nothing fails.
    let mut buff = section_image(b"abc\0def\0");
    write_u16(&mut buff[62..], 1, Endian::Little); // e_shstrndx: SHT_PROGBITS
    let elf = ReadElf::from_vec(buff).unwrap();

    let sections = elf.section_headers();
    assert_eq!(sections.len(), 3);
    let data_section = sections.index(1).unwrap();
    assert_eq!(data_section.name, None);
    assert_eq!(data_section.section_type, SectionType::ProgBits);
}

#[test]
fn string_table_index_at_count_rejected() {
    // The string table index must lie within the advertised section
    // count: an index equal to the count designates no section, even when
    // plausible bytes happen to lie just past the table, so every name
    // stays absent.
    let mut buff = section_image(b"abc\0def\0");
    write_u16(&mut buff[62..], 3, Endian::Little); // e_shstrndx == e_shnum
    let elf = ReadElf::from_vec(buff).unwrap();

    let sections = elf.section_headers();
    assert_eq!(sections.len(), 3);
    let data_section = sections.index(1).unwrap();
    assert_eq!(data_section.name, None);
    let table_section = sections.index(2).unwrap();
    assert_eq!(table_section.name, None);
    assert_eq!(table_section.section_type, SectionType::StrTab);
}

#[test]
fn sections_shoff_umax() {
    let mut buff = section_image(b"abc\0def\0");
    write_u64(&mut buff[40..], u64::MAX, Endian::Little); // e_shoff
    let elf = ReadElf::from_vec(buff).unwrap();

    let sections = elf.section_headers();
    assert_eq!(sections.len(), 3);
    assert!(sections.index(0).is_none());
    assert!(sections.index(2).is_none());
    let all = elf.section_headers().to_vec();
    assert!(all.is_empty());
}

#[test]
fn sections_shentsize_too_small() {
    let mut buff = section_image(b"abc\0def\0");
    write_u16(&mut buff[58..], 63, Endian::Little); // e_shentsize below minimum
    let elf = ReadElf::from_vec(buff).unwrap();

    let sections = elf.section_headers();
    assert_eq!(sections.len(), 3);
    let all = elf.section_headers().to_vec();
    assert!(all.is_empty());
}

#[test]
fn program_headers_next_walks_and_exhausts() {
    let mut elf_builder = ElfBuilder64::new(Endian::Little);
    elf_builder
        .set_os_abi(OsAbi::from(OsAbi::NONE))
        .set_abi_version(0)
        .set_executable_type(ExecutableType::Executable)
        .set_machine(Machine::from(Machine::X86_64))
        .set_entry(0x1000)
        .set_flags(0x00000000);
    for i in 0..3_u64 {
        elf_builder.add_segment(&ProgramHeader {
            segment_type: SegmentType::Load,
            flags: SegmentFlags::from(SegmentFlags::R),
            file_offset: 0x1000 * i,
            virtual_address: 0x1000 * i,
            physical_address: 0,
            file_size: 0x1000,
            memory_size: 0x1000,
            alignment: 0,
        });
    }
    let elf = ReadElf::from_slice(elf_builder.buffer()).unwrap();

    let mut walk = elf.program_headers();
    assert_eq!(walk.len(), 3);
    assert_eq!(walk.next().unwrap().file_offset, 0x0000);
    assert_eq!(walk.next().unwrap().file_offset, 0x1000);
    assert_eq!(walk.next().unwrap().file_offset, 0x2000);
    assert!(walk.next().is_none());
    assert!(walk.next().is_none());

    // Indexed lookup agrees with the walk.
    let reader = elf.program_headers();
    assert_eq!(reader.index(1).unwrap().file_offset, 0x1000);
    assert!(reader.index(3).is_none());
}
