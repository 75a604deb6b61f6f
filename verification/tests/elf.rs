use riscv_emu::console::{Terminal, TtyDummy};
use riscv_emu::cpu::cpu::Xlen;
use riscv_emu::elf_loader::{
    EMachine, EType, EVersion, EiClass, EiData, EiOsAbi, EiVersion, ElfLoader, ShType,
};
use riscv_emu::emulator::{Emulator, LoadError};
use riscv_emu::machine::Machine;

const TEXT_AT: usize = 0x1000;
const TOHOST_AT: usize = 0x1010;
const NAMES_AT: usize = 0x1020;
const SECTIONS_AT: usize = 0x1040;
const NAMES: &[u8] = b"\0.text\0.tohost\0.shstrtab\0";

fn put16(image: &mut Vec<u8>, at: usize, v: u16) {
    image[at..at + 2].copy_from_slice(&v.to_le_bytes());
}

fn put32(image: &mut Vec<u8>, at: usize, v: u32) {
    image[at..at + 4].copy_from_slice(&v.to_le_bytes());
}

fn put64(image: &mut Vec<u8>, at: usize, v: u64) {
    image[at..at + 8].copy_from_slice(&v.to_le_bytes());
}

fn section(image: &mut Vec<u8>, k: usize, name: u32, kind: u32, addr: u64, offset: u64, size: u64) {
    let at = SECTIONS_AT + 64 * k;
    put32(image, at, name);
    put32(image, at + 4, kind);
    put64(image, at + 0x08, 0x6);
    put64(image, at + 0x10, addr);
    put64(image, at + 0x18, offset);
    put64(image, at + 0x20, size);
    put32(image, at + 0x28, 1);
    put32(image, at + 0x2c, 2);
    put64(image, at + 0x30, 4);
    put64(image, at + 0x38, 0);
}

/// A 64-bit image whose program stores `code` to the `.tohost` word and then loops.
fn image(code: u32) -> Vec<u8> {
    let mut image = vec![0u8; SECTIONS_AT + 4 * 64];
    image[0..4].copy_from_slice(&[0x7f, b'E', b'L', b'F']);
    image[4] = 2;
    image[5] = 1;
    image[6] = 1;
    image[7] = 0;
    image[8] = 0;
    put16(&mut image, 0x10, 2);
    put16(&mut image, 0x12, 0xf3);
    put32(&mut image, 0x14, 1);
    put64(&mut image, 0x18, 0x8000_0000);
    put64(&mut image, 0x20, 0x40);
    put64(&mut image, 0x28, SECTIONS_AT as u64);
    put32(&mut image, 0x30, 0x5);
    put16(&mut image, 0x34, 64);
    put16(&mut image, 0x36, 56);
    put16(&mut image, 0x38, 1);
    put16(&mut image, 0x3a, 64);
    put16(&mut image, 0x3c, 4);
    put16(&mut image, 0x3e, 3);
    // The program header.
    put32(&mut image, 0x40, 1);
    put32(&mut image, 0x44, 5);
    put64(&mut image, 0x48, TEXT_AT as u64);
    put64(&mut image, 0x50, 0x8000_0000);
    put64(&mut image, 0x58, 0x8000_0000);
    put64(&mut image, 0x60, 16);
    put64(&mut image, 0x68, 16);
    put64(&mut image, 0x70, 0x1000);
    // auipc t0, 0x1; addi t1, x0, code; sw t1, 0(t0); jal x0, 0
    put32(&mut image, TEXT_AT, 0x0000_1297);
    put32(&mut image, TEXT_AT + 4, (code << 20) | (6 << 7) | 0x13);
    put32(&mut image, TEXT_AT + 8, 0x0062_a023);
    put32(&mut image, TEXT_AT + 12, 0x0000_006f);
    image[NAMES_AT..NAMES_AT + NAMES.len()].copy_from_slice(NAMES);
    section(&mut image, 0, 0, 0, 0, 0, 0);
    section(&mut image, 1, 1, 1, 0x8000_0000, TEXT_AT as u64, 16);
    section(&mut image, 2, 7, 1, 0x8000_1000, TOHOST_AT as u64, 8);
    section(&mut image, 3, 15, 3, 0, NAMES_AT as u64, NAMES.len() as u64);
    image
}

fn machine(testmode: bool) -> Emulator {
    Emulator::new(Machine::SiFiveU, Terminal::Dummy(TtyDummy::new()), testmode)
}

#[test]
fn magic_number() {
    assert!(ElfLoader::new(image(1)).is_elf());
    assert!(!ElfLoader::new(vec![0x7f, b'E', b'L']).is_elf());
    assert!(!ElfLoader::new(vec![]).is_elf());
    assert!(!ElfLoader::new(vec![0x7f, b'E', b'L', b'G', 0]).is_elf());
    assert!(ElfLoader::new(vec![0x7f, b'E', b'L', b'F']).is_elf());
}

#[test]
fn header_of_a_64_bit_image() {
    let loader = ElfLoader::new(image(1));
    assert_eq!(loader.len(), SECTIONS_AT + 256);
    assert_eq!(loader.read8(1), b'E');
    let h = loader.get_elf_header();
    assert_eq!(h.e_indent.ei_classs, EiClass::ELFCLASS64);
    assert_eq!(h.e_indent.ei_data, EiData::ELFDATA2LSB);
    assert_eq!(h.e_indent.ei_version, EiVersion::EV_CURRENT);
    assert_eq!(h.e_indent.ei_osabi, EiOsAbi::ELFOSABI_SYSTEM_V);
    assert_eq!(h.e_indent.ei_abiversion, 0);
    assert_eq!(h.e_type, EType::ET_EXEC);
    assert_eq!(h.e_machine, EMachine::EM_RISCV);
    assert_eq!(h.e_version, EVersion::EV_CURRENT);
    assert_eq!(h.e_entry, 0x8000_0000);
    assert_eq!(h.e_phoff, 0x40);
    assert_eq!(h.e_shoff, SECTIONS_AT as u64);
    assert_eq!(h.e_flags, 5);
    assert_eq!(h.e_ehsize, 64);
    assert_eq!(h.e_phentsize, 56);
    assert_eq!(h.e_phnum, 1);
    assert_eq!(h.e_shentsize, 64);
    assert_eq!(h.e_shnum, 4);
    assert_eq!(h.e_shstrndx, 3);
}

#[test]
fn header_of_a_32_bit_image() {
    let mut image = vec![0u8; 0x34];
    image[0..4].copy_from_slice(&[0x7f, b'E', b'L', b'F']);
    image[4] = 1;
    image[5] = 1;
    image[6] = 1;
    image[7] = 3;
    image[8] = 2;
    put16(&mut image, 0x10, 3);
    put16(&mut image, 0x12, 0xf3);
    put32(&mut image, 0x14, 1);
    put32(&mut image, 0x18, 0x8000_0040);
    put32(&mut image, 0x1c, 0x34);
    put32(&mut image, 0x20, 0x1234);
    put32(&mut image, 0x24, 7);
    put16(&mut image, 0x28, 0x34);
    put16(&mut image, 0x2a, 0x20);
    put16(&mut image, 0x2c, 2);
    put16(&mut image, 0x2e, 0x28);
    put16(&mut image, 0x30, 9);
    put16(&mut image, 0x32, 8);
    let h = ElfLoader::new(image.clone()).read_elf_header().unwrap();
    assert_eq!(h.e_indent.ei_classs, EiClass::ELFCLASS32);
    assert_eq!(h.e_indent.ei_osabi, EiOsAbi::ELFOSABI_LINUX);
    assert_eq!(h.e_indent.ei_abiversion, 2);
    assert_eq!(h.e_type, EType::ET_DYN);
    assert_eq!(h.e_entry, 0x8000_0040);
    assert_eq!(h.e_phoff, 0x34);
    assert_eq!(h.e_shoff, 0x1234);
    assert_eq!(h.e_flags, 7);
    assert_eq!(h.e_ehsize, 0x34);
    assert_eq!(h.e_phentsize, 0x20);
    assert_eq!(h.e_phnum, 2);
    assert_eq!(h.e_shentsize, 0x28);
    assert_eq!(h.e_shnum, 9);
    assert_eq!(h.e_shstrndx, 8);
    // One byte less and the header is cut short.
    image.pop();
    assert!(ElfLoader::new(image).read_elf_header().is_none());
}

#[test]
fn header_with_unknown_codes() {
    let cases: [(usize, u8); 7] =
        [(4, 3), (5, 3), (6, 2), (7, 5), (0x10, 5), (0x12, 0x99), (0x14, 2)];
    for (at, value) in cases {
        let mut bytes = image(1);
        bytes[at] = value;
        assert!(ElfLoader::new(bytes).read_elf_header().is_none(), "byte {:#x}", at);
    }
    let mut short = image(1);
    short.truncate(0x3f);
    assert!(ElfLoader::new(short).read_elf_header().is_none());
    assert!(ElfLoader::new(vec![0x7f, b'E', b'L', b'F']).read_elf_header().is_none());
}

#[test]
fn codes_of_the_tables() {
    assert_eq!(EMachine::from_code(0xf3), Some(EMachine::EM_RISCV));
    assert_eq!(EMachine::from_code(0x3e), Some(EMachine::EM_AMD64));
    assert_eq!(EMachine::from_code(0x0b), None);
    assert_eq!(EType::from_code(0xfeff), Some(EType::ET_HIOS));
    assert_eq!(EType::from_code(0x0005), None);
    assert_eq!(EiOsAbi::from_code(0x12), Some(EiOsAbi::ELFOSABI_STARTUS_TECHNOLOGIES_OPEN_VOS));
    assert_eq!(EiOsAbi::from_code(0x05), None);
    assert_eq!(ShType::from_code(0x08), Some(ShType::SHT_NOBITS));
    assert_eq!(ShType::from_code(0x0c), None);
    assert_eq!(ShType::from_code(0x14), None);
    assert_eq!(ShType::from_code(0x7000_0003), Some(ShType::SHT_LOPROC));
    assert_eq!(ShType::from_code(0x8fff_ffff), Some(ShType::SHT_LOUSER));
    assert_eq!(ShType::from_code(0x9000_0000), None);
    assert_eq!(ShType::from_code(0x6fff_ffff), None);
    assert_eq!(EiClass::from_code(2), Some(EiClass::ELFCLASS64));
    assert_eq!(EiData::from_code(2), Some(EiData::ELFDATA2MSB));
    assert_eq!(EiVersion::from_code(0), Some(EiVersion::EV_NONE));
    assert_eq!(EVersion::from_code(1), Some(EVersion::EV_CURRENT));
}

#[test]
fn section_headers() {
    let loader = ElfLoader::new(image(1));
    let h = loader.get_elf_header();
    let sections = loader.get_section_header(&h);
    assert_eq!(sections.len(), 4);
    assert_eq!(sections[0].sh_type, ShType::SHT_NULL);
    assert_eq!(sections[1].sh_type, ShType::SHT_PROGBITS);
    assert_eq!(sections[1].sh_name, 1);
    assert_eq!(sections[1].sh_flags, 6);
    assert_eq!(sections[1].sh_addr, 0x8000_0000);
    assert_eq!(sections[1].sh_offset, TEXT_AT as u64);
    assert_eq!(sections[1].sh_size, 16);
    assert_eq!(sections[1].sh_link, 1);
    assert_eq!(sections[1].sh_info, 2);
    assert_eq!(sections[1].sh_addralign, 4);
    assert_eq!(sections[1].sh_entsize, 0);
    assert_eq!(sections[2].sh_addr, 0x8000_1000);
    assert_eq!(sections[3].sh_type, ShType::SHT_STRTAB);
    assert_eq!(sections[3].sh_offset, NAMES_AT as u64);
}

#[test]
fn program_headers() {
    let loader = ElfLoader::new(image(1));
    let h = loader.get_elf_header();
    let programs = loader.get_program_header(&h);
    assert_eq!(programs.len(), 1);
    assert_eq!(programs[0].p_type, 1);
    assert_eq!(programs[0].p_flags, 5);
    assert_eq!(programs[0].p_offset, TEXT_AT as u64);
    assert_eq!(programs[0].p_vaddr, 0x8000_0000);
    assert_eq!(programs[0].p_paddr, 0x8000_0000);
    assert_eq!(programs[0].p_filesz, 16);
    assert_eq!(programs[0].p_memsz, 16);
    assert_eq!(programs[0].p_align, 0x1000);
}

#[test]
fn tables_that_reach_outside_the_file() {
    let mut bytes = image(1);
    bytes.truncate(SECTIONS_AT + 4 * 64 - 1);
    let loader = ElfLoader::new(bytes);
    let h = loader.get_elf_header();
    assert!(loader.read_section_header(&h).is_none());
    assert!(loader.read_program_header(&h).is_some());
    let mut bytes = image(1);
    put64(&mut bytes, 0x20, u64::MAX - 8);
    let loader = ElfLoader::new(bytes);
    let h = loader.get_elf_header();
    assert!(loader.read_program_header(&h).is_none());
    assert!(loader.read_section_header(&h).is_some());
    // A section of a type that is not known.
    let mut bytes = image(1);
    put32(&mut bytes, SECTIONS_AT + 64 + 4, 0x14);
    let loader = ElfLoader::new(bytes);
    let h = loader.get_elf_header();
    assert!(loader.read_section_header(&h).is_none());
}

#[test]
fn tohost_is_found_by_name() {
    let loader = ElfLoader::new(image(1));
    let h = loader.get_elf_header();
    let sections = loader.get_section_header(&h);
    let progbits = vec![sections[1], sections[2]];
    let strtab = vec![sections[3]];
    assert_eq!(loader.search_tohost(&progbits, &strtab), Some(0x8000_1000));
    assert_eq!(loader.search_tohost(&vec![sections[1]], &strtab), None);
    assert_eq!(loader.search_tohost(&progbits, &vec![]), None);
    assert_eq!(loader.search_tohost(&vec![], &strtab), None);
    // A name that reaches past the end of the file matches nothing.
    let mut far = sections[2];
    far.sh_name = u32::MAX;
    assert_eq!(loader.search_tohost(&vec![far], &strtab), None);
}

#[test]
fn load_program_places_the_sections() {
    let mut emu = machine(true);
    let loader = ElfLoader::new(image(1));
    assert_eq!(emu.load_program(&loader), Ok(()));
    assert_eq!(emu.cpu.pc, 0x8000_0000);
    assert_eq!(emu.cpu.xlen, Xlen::X64);
    assert_eq!(emu.tohost, 0x8000_1000);
    assert_eq!(emu.cpu.mmu.get_bus().read32(0x8000_0000), Ok(0x0000_1297));
    assert_eq!(emu.cpu.mmu.get_bus().read32(0x8000_000c), Ok(0x0000_006f));
    assert_eq!(emu.cpu.mmu.get_bus().read32(0x8000_0010), Ok(0));
    assert_eq!(emu.exit_code(), None);
}

#[test]
fn load_program_follows_the_program_header() {
    let mut bytes = image(1);
    // The program header moves the text to another physical address.
    put64(&mut bytes, 0x58, 0x8000_2000);
    let mut emu = machine(false);
    assert_eq!(emu.load_program(&ElfLoader::new(bytes)), Ok(()));
    assert_eq!(emu.cpu.mmu.get_bus().read32(0x8000_2000), Ok(0x0000_1297));
    assert_eq!(emu.cpu.mmu.get_bus().read32(0x8000_0000), Ok(0));
    // Outside test mode the word is not looked up.
    assert_eq!(emu.tohost, 0);
}

#[test]
fn load_program_skips_sections_below_main_memory() {
    let mut bytes = image(1);
    put64(&mut bytes, SECTIONS_AT + 64 + 0x10, 0x1000);
    put64(&mut bytes, SECTIONS_AT + 128 + 0x18, 0);
    let mut emu = machine(true);
    assert_eq!(emu.load_program(&ElfLoader::new(bytes)), Ok(()));
    assert_eq!(emu.cpu.mmu.get_bus().read32(0x8000_0000), Ok(0));
    assert_eq!(emu.tohost, 0x8000_1000);
}

#[test]
fn load_program_into_the_flash() {
    let mut bytes = image(1);
    put64(&mut bytes, SECTIONS_AT + 64 + 0x10, 0x2000_0000);
    put64(&mut bytes, 0x50, 0x2000_0000);
    put64(&mut bytes, 0x58, 0x2000_0100);
    let mut emu = Emulator::new(Machine::SiFiveE, Terminal::Dummy(TtyDummy::new()), true);
    assert_eq!(emu.load_program(&ElfLoader::new(bytes.clone())), Ok(()));
    assert_eq!(emu.cpu.mmu.get_bus().read32(0x2000_0100), Ok(0x0000_1297));
    assert_eq!(emu.cpu.mmu.get_bus().read32(0x2000_0000), Ok(0));
    assert_eq!(emu.cpu.mmu.get_bus().read32(0x8000_0000), Ok(0));
    assert_eq!(emu.tohost, 0x8000_1000);
    // The other flavour has no flash: the section lies below its memory and is skipped.
    let mut emu = machine(true);
    assert_eq!(emu.load_program(&ElfLoader::new(bytes.clone())), Ok(()));
    assert_eq!(emu.cpu.mmu.get_bus().read32(0x8000_0000), Ok(0));
    // Between the flash and main memory there is nothing to load into.
    put64(&mut bytes, 0x58, 0x4000_0000);
    let mut emu = Emulator::new(Machine::SiFiveE, Terminal::Dummy(TtyDummy::new()), true);
    assert_eq!(emu.load_program(&ElfLoader::new(bytes)), Err(LoadError::Misplaced));
}

#[test]
fn load_program_of_a_32_bit_image_sets_the_width() {
    let mut image = vec![0u8; 0x34];
    image[0..4].copy_from_slice(&[0x7f, b'E', b'L', b'F']);
    image[4] = 1;
    image[5] = 1;
    image[6] = 1;
    put16(&mut image, 0x10, 2);
    put16(&mut image, 0x12, 0xf3);
    put32(&mut image, 0x14, 1);
    put32(&mut image, 0x18, 0x8000_0040);
    let mut emu = machine(true);
    emu.tohost = 5;
    assert_eq!(emu.load_program(&ElfLoader::new(image)), Ok(()));
    assert_eq!(emu.cpu.xlen, Xlen::X32);
    assert_eq!(emu.cpu.pc, 0x8000_0040);
    assert_eq!(emu.tohost, 0);
}

#[test]
fn load_program_errors() {
    let load = |bytes: Vec<u8>| {
        let mut emu = machine(true);
        let r = emu.load_program(&ElfLoader::new(bytes));
        // A refused image changes nothing.
        assert_eq!(emu.cpu.pc, 0);
        assert_eq!(emu.tohost, 0);
        assert_eq!(emu.cpu.mmu.get_bus().read32(0x8000_0000), Ok(0));
        r
    };
    let mut bytes = image(1);
    bytes[0] = 0;
    assert_eq!(load(bytes), Err(LoadError::NotElf));
    assert_eq!(load(vec![]), Err(LoadError::NotElf));
    let mut bytes = image(1);
    bytes[0x12] = 0x99;
    assert_eq!(load(bytes), Err(LoadError::BadHeader));
    let mut bytes = image(1);
    bytes[0x12] = 0x3e;
    assert_eq!(load(bytes), Err(LoadError::NotRiscv));
    let mut bytes = image(1);
    bytes[4] = 0;
    assert_eq!(load(bytes), Err(LoadError::BadClass));
    let mut bytes = image(1);
    put16(&mut bytes, 0x3c, 5);
    assert_eq!(load(bytes), Err(LoadError::BadSectionHeader));
    let mut bytes = image(1);
    put16(&mut bytes, 0x38, 0x100);
    assert_eq!(load(bytes), Err(LoadError::BadProgramHeader));
    // The text reaches past the end of the file.
    let mut bytes = image(1);
    put64(&mut bytes, SECTIONS_AT + 64 + 0x20, 0x10_0000);
    assert_eq!(load(bytes), Err(LoadError::Misplaced));
    // The `.tohost` section lies past the end of main memory.
    let mut bytes = image(1);
    put64(&mut bytes, SECTIONS_AT + 128 + 0x10, 0x8000_0000 + 128 * 1024 * 1024 - 4);
    assert_eq!(load(bytes), Err(LoadError::Misplaced));
    // The program header places the text below main memory.
    let mut bytes = image(1);
    put64(&mut bytes, 0x58, 0x1000);
    assert_eq!(load(bytes), Err(LoadError::Misplaced));
}

#[test]
fn run_until_the_program_reports_success() {
    let mut emu = machine(true);
    emu.load_program(&ElfLoader::new(image(1))).unwrap();
    assert_eq!(emu.step(), None);
    assert_eq!(emu.step(), None);
    assert_eq!(emu.step(), Some(Ok(1)));
    assert_eq!(emu.exit_code(), Some(Ok(1)));
    let mut emu = machine(true);
    emu.load_program(&ElfLoader::new(image(1))).unwrap();
    assert_eq!(emu.run(100), Some(Ok(1)));
    assert_eq!(emu.cpu.pc, 0x8000_000c);
    assert_eq!(emu.cpu.x[5], 0x8000_1000);
}

#[test]
fn run_until_the_program_reports_failure() {
    let mut emu = machine(true);
    emu.load_program(&ElfLoader::new(image(3))).unwrap();
    assert_eq!(emu.run(100), Some(Err(3)));
}

#[test]
fn run_stops_at_the_limit() {
    let mut emu = machine(true);
    emu.load_program(&ElfLoader::new(image(1))).unwrap();
    assert_eq!(emu.run(2), None);
    assert_eq!(emu.cpu.pc, 0x8000_0008);
    assert_eq!(emu.run(0), None);
    assert_eq!(emu.run(1), Some(Ok(1)));
    // Outside test mode the word is not watched.
    let mut emu = machine(false);
    emu.load_program(&ElfLoader::new(image(1))).unwrap();
    assert_eq!(emu.run(10), None);
    assert_eq!(emu.cpu.mmu.get_bus().read32(0x8000_1000), Ok(1));
    // A program that reports 0 has not ended.
    let mut emu = machine(true);
    emu.load_program(&ElfLoader::new(image(0))).unwrap();
    assert_eq!(emu.run(10), None);
}

#[test]
fn emulator_setters() {
    let mut emu = machine(false);
    emu.set_dram_data(vec![0x13, 0, 0, 0]);
    emu.set_disk_data(vec![1, 2, 3]);
    emu.set_pc(0x8000_0000);
    assert_eq!(emu.cpu.pc, 0x8000_0000);
    assert_eq!(emu.step(), None);
    assert_eq!(emu.cpu.pc, 0x8000_0004);
    emu.reset();
    assert_eq!(emu.cpu.pc, 0);
    assert!(!emu.testmode);
}
