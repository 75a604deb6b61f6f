//! Reading of ELF images: the file header, the section and program header tables, and the
//! location of the `.tohost` word that test programs report through.

use crate::dram::{le_u16, le_u32, le_u64};
use vstd::prelude::*;

verus! {

/// The four bytes that open every ELF file: 0x7f 'E' 'L' 'F'.
pub const HEADER_MAGIC: [u8; 4] = [0x7f, 0x45, 0x4c, 0x46];

/// The eight bytes `.tohost\0`, read as a little-endian word.
pub const TOHOST: u64 = 0x0074736f686f742e;

pub struct ElfHeader {
    pub e_indent: Ei,
    pub e_type: EType,
    pub e_machine: EMachine,
    pub e_version: EVersion,
    pub e_entry: u64,
    pub e_phoff: u64,
    pub e_shoff: u64,
    pub e_flags: u32,
    pub e_ehsize: u16,
    pub e_phentsize: u16,
    pub e_phnum: u16,
    pub e_shentsize: u16,
    pub e_shnum: u16,
    pub e_shstrndx: u16,
}

#[derive(Clone, Copy, Debug)]
pub struct SectionHeader {
    pub sh_name: u32,
    pub sh_type: ShType,
    pub sh_flags: u64,
    pub sh_addr: u64,
    pub sh_offset: u64,
    pub sh_size: u64,
    pub sh_link: u32,
    pub sh_info: u32,
    pub sh_addralign: u64,
    pub sh_entsize: u64,
}

#[derive(Clone, Copy, Debug)]
pub struct ProgramHeader {
    pub p_type: u32,
    pub p_flags: u32,
    pub p_offset: u64,
    pub p_vaddr: u64,
    pub p_paddr: u64,
    pub p_filesz: u64,
    pub p_memsz: u64,
    pub p_align: u64,
}

/// The identification bytes at the start of the file header.
#[derive(Debug)]
pub struct Ei {
    pub ei_classs: EiClass,
    pub ei_data: EiData,
    pub ei_version: EiVersion,
    pub ei_osabi: EiOsAbi,
    pub ei_abiversion: u8,
}

/// Kind of a section.
#[allow(non_camel_case_types)]
#[derive(Clone, Copy, Debug, PartialEq, Eq, Structural)]
pub enum ShType {
    SHT_NULL,
    SHT_PROGBITS,
    SHT_SYSMTAB,
    SHT_STRTAB,
    SHT_RELA,
    SHT_HASH,
    SHT_DYNAMIC,
    SHT_NOTE,
    SHT_NOBITS,
    SHT_REL,
    SHT_SHLIB,
    SHT_DYNSYM,
    SHT_INIT_ARRAY,
    SHT_FINI_ARRAY,
    SHT_PREINIT_ARRAY,
    SHT_GROUP,
    SHT_SYMTAB_SHNDX,
    SHT_NUM,
    SHT_LOPROC,
    SHT_HIPROC,
    SHT_LOUSER,
    SHT_HIUSER,
}

impl ShType {
    /// The ShType that the code `b` stands for, if it is a known one.
    pub open spec fn spec_from_code(b: u32) -> Option<ShType> {
        if b == 0x00 {
            Some(ShType::SHT_NULL)
        } else if b == 0x01 {
            Some(ShType::SHT_PROGBITS)
        } else if b == 0x02 {
            Some(ShType::SHT_SYSMTAB)
        } else if b == 0x03 {
            Some(ShType::SHT_STRTAB)
        } else if b == 0x04 {
            Some(ShType::SHT_RELA)
        } else if b == 0x05 {
            Some(ShType::SHT_HASH)
        } else if b == 0x06 {
            Some(ShType::SHT_DYNAMIC)
        } else if b == 0x07 {
            Some(ShType::SHT_NOTE)
        } else if b == 0x08 {
            Some(ShType::SHT_NOBITS)
        } else if b == 0x09 {
            Some(ShType::SHT_REL)
        } else if b == 0x0A {
            Some(ShType::SHT_SHLIB)
        } else if b == 0x0B {
            Some(ShType::SHT_DYNSYM)
        } else if b == 0x0E {
            Some(ShType::SHT_INIT_ARRAY)
        } else if b == 0x0F {
            Some(ShType::SHT_FINI_ARRAY)
        } else if b == 0x10 {
            Some(ShType::SHT_PREINIT_ARRAY)
        } else if b == 0x11 {
            Some(ShType::SHT_GROUP)
        } else if b == 0x12 {
            Some(ShType::SHT_SYMTAB_SHNDX)
        } else if b == 0x13 {
            Some(ShType::SHT_NUM)
        } else if 0x7000_0000 <= b <= 0x7FFF_FFFF {
            Some(ShType::SHT_LOPROC)
        } else if 0x8000_0000 <= b <= 0x8FFF_FFFF {
            Some(ShType::SHT_LOUSER)
        } else {
            None
        }
    }

    #[verifier::when_used_as_spec(spec_from_code)]
    pub fn from_code(b: u32) -> (r: Option<ShType>)
        ensures
            r == Self::spec_from_code(b),
    {
        if b == 0x00 {
            Some(ShType::SHT_NULL)
        } else if b == 0x01 {
            Some(ShType::SHT_PROGBITS)
        } else if b == 0x02 {
            Some(ShType::SHT_SYSMTAB)
        } else if b == 0x03 {
            Some(ShType::SHT_STRTAB)
        } else if b == 0x04 {
            Some(ShType::SHT_RELA)
        } else if b == 0x05 {
            Some(ShType::SHT_HASH)
        } else if b == 0x06 {
            Some(ShType::SHT_DYNAMIC)
        } else if b == 0x07 {
            Some(ShType::SHT_NOTE)
        } else if b == 0x08 {
            Some(ShType::SHT_NOBITS)
        } else if b == 0x09 {
            Some(ShType::SHT_REL)
        } else if b == 0x0A {
            Some(ShType::SHT_SHLIB)
        } else if b == 0x0B {
            Some(ShType::SHT_DYNSYM)
        } else if b == 0x0E {
            Some(ShType::SHT_INIT_ARRAY)
        } else if b == 0x0F {
            Some(ShType::SHT_FINI_ARRAY)
        } else if b == 0x10 {
            Some(ShType::SHT_PREINIT_ARRAY)
        } else if b == 0x11 {
            Some(ShType::SHT_GROUP)
        } else if b == 0x12 {
            Some(ShType::SHT_SYMTAB_SHNDX)
        } else if b == 0x13 {
            Some(ShType::SHT_NUM)
        } else if 0x7000_0000 <= b && b <= 0x7FFF_FFFF {
            Some(ShType::SHT_LOPROC)
        } else if 0x8000_0000 <= b && b <= 0x8FFF_FFFF {
            Some(ShType::SHT_LOUSER)
        } else {
            None
        }
    }
}

/// Width of the file's addresses.
#[allow(non_camel_case_types)]
#[derive(Clone, Copy, Debug, PartialEq, Eq, Structural)]
pub enum EiClass {
    ELFCLASSNONE,
    ELFCLASS32,
    ELFCLASS64,
}

impl EiClass {
    /// The EiClass that the code `b` stands for, if it is a known one.
    pub open spec fn spec_from_code(b: u8) -> Option<EiClass> {
        if b == 0 {
            Some(EiClass::ELFCLASSNONE)
        } else if b == 1 {
            Some(EiClass::ELFCLASS32)
        } else if b == 2 {
            Some(EiClass::ELFCLASS64)
        } else {
            None
        }
    }

    #[verifier::when_used_as_spec(spec_from_code)]
    pub fn from_code(b: u8) -> (r: Option<EiClass>)
        ensures
            r == Self::spec_from_code(b),
    {
        if b == 0 {
            Some(EiClass::ELFCLASSNONE)
        } else if b == 1 {
            Some(EiClass::ELFCLASS32)
        } else if b == 2 {
            Some(EiClass::ELFCLASS64)
        } else {
            None
        }
    }
}

/// Byte order of the file.
#[allow(non_camel_case_types)]
#[derive(Clone, Copy, Debug, PartialEq, Eq, Structural)]
pub enum EiData {
    ELFDATANONE,
    ELFDATA2LSB,
    ELFDATA2MSB,
}

impl EiData {
    /// The EiData that the code `b` stands for, if it is a known one.
    pub open spec fn spec_from_code(b: u8) -> Option<EiData> {
        if b == 0 {
            Some(EiData::ELFDATANONE)
        } else if b == 1 {
            Some(EiData::ELFDATA2LSB)
        } else if b == 2 {
            Some(EiData::ELFDATA2MSB)
        } else {
            None
        }
    }

    #[verifier::when_used_as_spec(spec_from_code)]
    pub fn from_code(b: u8) -> (r: Option<EiData>)
        ensures
            r == Self::spec_from_code(b),
    {
        if b == 0 {
            Some(EiData::ELFDATANONE)
        } else if b == 1 {
            Some(EiData::ELFDATA2LSB)
        } else if b == 2 {
            Some(EiData::ELFDATA2MSB)
        } else {
            None
        }
    }
}

/// Version of the identification bytes.
#[allow(non_camel_case_types)]
#[derive(Clone, Copy, Debug, PartialEq, Eq, Structural)]
pub enum EiVersion {
    EV_NONE,
    EV_CURRENT,
}

impl EiVersion {
    /// The EiVersion that the code `b` stands for, if it is a known one.
    pub open spec fn spec_from_code(b: u8) -> Option<EiVersion> {
        if b == 0 {
            Some(EiVersion::EV_NONE)
        } else if b == 1 {
            Some(EiVersion::EV_CURRENT)
        } else {
            None
        }
    }

    #[verifier::when_used_as_spec(spec_from_code)]
    pub fn from_code(b: u8) -> (r: Option<EiVersion>)
        ensures
            r == Self::spec_from_code(b),
    {
        if b == 0 {
            Some(EiVersion::EV_NONE)
        } else if b == 1 {
            Some(EiVersion::EV_CURRENT)
        } else {
            None
        }
    }
}

/// Operating system ABI that the file targets.
#[allow(non_camel_case_types)]
#[derive(Clone, Copy, Debug, PartialEq, Eq, Structural)]
pub enum EiOsAbi {
    ELFOSABI_SYSTEM_V,
    ELFOSABI_HP_UX,
    ELFOSABI_NETBSD,
    ELFOSABI_LINUX,
    ELFOSABI_GNU_HURD,
    ELFOSABI_SOLARIS,
    ELFOSABI_AIX,
    ELFOSABI_IRIX,
    ELFOSABI_FREEBSD,
    ELFOSABI_TRU64,
    ELFOSABI_NOVELL_MODESTO,
    ELFOSABI_OPEN_BSD,
    ELFOSABI_OPEN_VMS,
    ELFOSABI_NON_STOP_KERNEL,
    ELFOSABI_AROS,
    ELFOSABI_FENIX_OS,
    ELFOSABI_CLOUD_ABI,
    ELFOSABI_STARTUS_TECHNOLOGIES_OPEN_VOS,
}

impl EiOsAbi {
    /// The EiOsAbi that the code `b` stands for, if it is a known one.
    pub open spec fn spec_from_code(b: u8) -> Option<EiOsAbi> {
        if b == 0x00 {
            Some(EiOsAbi::ELFOSABI_SYSTEM_V)
        } else if b == 0x01 {
            Some(EiOsAbi::ELFOSABI_HP_UX)
        } else if b == 0x02 {
            Some(EiOsAbi::ELFOSABI_NETBSD)
        } else if b == 0x03 {
            Some(EiOsAbi::ELFOSABI_LINUX)
        } else if b == 0x04 {
            Some(EiOsAbi::ELFOSABI_GNU_HURD)
        } else if b == 0x06 {
            Some(EiOsAbi::ELFOSABI_SOLARIS)
        } else if b == 0x07 {
            Some(EiOsAbi::ELFOSABI_AIX)
        } else if b == 0x08 {
            Some(EiOsAbi::ELFOSABI_IRIX)
        } else if b == 0x09 {
            Some(EiOsAbi::ELFOSABI_FREEBSD)
        } else if b == 0x0A {
            Some(EiOsAbi::ELFOSABI_TRU64)
        } else if b == 0x0B {
            Some(EiOsAbi::ELFOSABI_NOVELL_MODESTO)
        } else if b == 0x0C {
            Some(EiOsAbi::ELFOSABI_OPEN_BSD)
        } else if b == 0x0D {
            Some(EiOsAbi::ELFOSABI_OPEN_VMS)
        } else if b == 0x0E {
            Some(EiOsAbi::ELFOSABI_NON_STOP_KERNEL)
        } else if b == 0x0F {
            Some(EiOsAbi::ELFOSABI_AROS)
        } else if b == 0x10 {
            Some(EiOsAbi::ELFOSABI_FENIX_OS)
        } else if b == 0x11 {
            Some(EiOsAbi::ELFOSABI_CLOUD_ABI)
        } else if b == 0x12 {
            Some(EiOsAbi::ELFOSABI_STARTUS_TECHNOLOGIES_OPEN_VOS)
        } else {
            None
        }
    }

    #[verifier::when_used_as_spec(spec_from_code)]
    pub fn from_code(b: u8) -> (r: Option<EiOsAbi>)
        ensures
            r == Self::spec_from_code(b),
    {
        if b == 0x00 {
            Some(EiOsAbi::ELFOSABI_SYSTEM_V)
        } else if b == 0x01 {
            Some(EiOsAbi::ELFOSABI_HP_UX)
        } else if b == 0x02 {
            Some(EiOsAbi::ELFOSABI_NETBSD)
        } else if b == 0x03 {
            Some(EiOsAbi::ELFOSABI_LINUX)
        } else if b == 0x04 {
            Some(EiOsAbi::ELFOSABI_GNU_HURD)
        } else if b == 0x06 {
            Some(EiOsAbi::ELFOSABI_SOLARIS)
        } else if b == 0x07 {
            Some(EiOsAbi::ELFOSABI_AIX)
        } else if b == 0x08 {
            Some(EiOsAbi::ELFOSABI_IRIX)
        } else if b == 0x09 {
            Some(EiOsAbi::ELFOSABI_FREEBSD)
        } else if b == 0x0A {
            Some(EiOsAbi::ELFOSABI_TRU64)
        } else if b == 0x0B {
            Some(EiOsAbi::ELFOSABI_NOVELL_MODESTO)
        } else if b == 0x0C {
            Some(EiOsAbi::ELFOSABI_OPEN_BSD)
        } else if b == 0x0D {
            Some(EiOsAbi::ELFOSABI_OPEN_VMS)
        } else if b == 0x0E {
            Some(EiOsAbi::ELFOSABI_NON_STOP_KERNEL)
        } else if b == 0x0F {
            Some(EiOsAbi::ELFOSABI_AROS)
        } else if b == 0x10 {
            Some(EiOsAbi::ELFOSABI_FENIX_OS)
        } else if b == 0x11 {
            Some(EiOsAbi::ELFOSABI_CLOUD_ABI)
        } else if b == 0x12 {
            Some(EiOsAbi::ELFOSABI_STARTUS_TECHNOLOGIES_OPEN_VOS)
        } else {
            None
        }
    }
}

/// Kind of object file.
#[allow(non_camel_case_types)]
#[derive(Clone, Copy, Debug, PartialEq, Eq, Structural)]
pub enum EType {
    ET_NONE,
    ET_REL,
    ET_EXEC,
    ET_DYN,
    ET_CORE,
    ET_LOOS,
    ET_HIOS,
    ET_LOPROC,
    ET_HIPROC,
}

impl EType {
    /// The EType that the code `b` stands for, if it is a known one.
    pub open spec fn spec_from_code(b: u16) -> Option<EType> {
        if b == 0x0000 {
            Some(EType::ET_NONE)
        } else if b == 0x0001 {
            Some(EType::ET_REL)
        } else if b == 0x0002 {
            Some(EType::ET_EXEC)
        } else if b == 0x0003 {
            Some(EType::ET_DYN)
        } else if b == 0x0004 {
            Some(EType::ET_CORE)
        } else if b == 0xFE00 {
            Some(EType::ET_LOOS)
        } else if b == 0xFEFF {
            Some(EType::ET_HIOS)
        } else if b == 0xFF00 {
            Some(EType::ET_LOPROC)
        } else if b == 0xFFFF {
            Some(EType::ET_HIPROC)
        } else {
            None
        }
    }

    #[verifier::when_used_as_spec(spec_from_code)]
    pub fn from_code(b: u16) -> (r: Option<EType>)
        ensures
            r == Self::spec_from_code(b),
    {
        if b == 0x0000 {
            Some(EType::ET_NONE)
        } else if b == 0x0001 {
            Some(EType::ET_REL)
        } else if b == 0x0002 {
            Some(EType::ET_EXEC)
        } else if b == 0x0003 {
            Some(EType::ET_DYN)
        } else if b == 0x0004 {
            Some(EType::ET_CORE)
        } else if b == 0xFE00 {
            Some(EType::ET_LOOS)
        } else if b == 0xFEFF {
            Some(EType::ET_HIOS)
        } else if b == 0xFF00 {
            Some(EType::ET_LOPROC)
        } else if b == 0xFFFF {
            Some(EType::ET_HIPROC)
        } else {
            None
        }
    }
}

/// Instruction set that the file targets.
#[allow(non_camel_case_types)]
#[derive(Clone, Copy, Debug, PartialEq, Eq, Structural)]
pub enum EMachine {
    EM_NONE,
    EM_M32,
    EM_SPARC,
    EM_x86,
    EM_68K,
    EM_88K,
    EM_486,
    EM_860,
    EM_MIPS,
    EM_MIPS_RS4_BE,
    EM_PARISC,
    EM_960,
    EM_PPC,
    EM_PPC64,
    EM_S390,
    EM_ARM,
    EM_SUPERH,
    EM_IA64,
    EM_AMD64,
    EM_TMS320,
    EM_ARM64,
    EM_RISCV,
}

impl EMachine {
    /// The EMachine that the code `b` stands for, if it is a known one.
    pub open spec fn spec_from_code(b: u8) -> Option<EMachine> {
        if b == 0x00 {
            Some(EMachine::EM_NONE)
        } else if b == 0x01 {
            Some(EMachine::EM_M32)
        } else if b == 0x02 {
            Some(EMachine::EM_SPARC)
        } else if b == 0x03 {
            Some(EMachine::EM_x86)
        } else if b == 0x04 {
            Some(EMachine::EM_68K)
        } else if b == 0x05 {
            Some(EMachine::EM_88K)
        } else if b == 0x06 {
            Some(EMachine::EM_486)
        } else if b == 0x07 {
            Some(EMachine::EM_860)
        } else if b == 0x08 {
            Some(EMachine::EM_MIPS)
        } else if b == 0x09 {
            Some(EMachine::EM_MIPS_RS4_BE)
        } else if b == 0x0A {
            Some(EMachine::EM_PARISC)
        } else if b == 0x13 {
            Some(EMachine::EM_960)
        } else if b == 0x14 {
            Some(EMachine::EM_PPC)
        } else if b == 0x15 {
            Some(EMachine::EM_PPC64)
        } else if b == 0x16 {
            Some(EMachine::EM_S390)
        } else if b == 0x28 {
            Some(EMachine::EM_ARM)
        } else if b == 0x2A {
            Some(EMachine::EM_SUPERH)
        } else if b == 0x32 {
            Some(EMachine::EM_IA64)
        } else if b == 0x3E {
            Some(EMachine::EM_AMD64)
        } else if b == 0x8C {
            Some(EMachine::EM_TMS320)
        } else if b == 0xB7 {
            Some(EMachine::EM_ARM64)
        } else if b == 0xF3 {
            Some(EMachine::EM_RISCV)
        } else {
            None
        }
    }

    #[verifier::when_used_as_spec(spec_from_code)]
    pub fn from_code(b: u8) -> (r: Option<EMachine>)
        ensures
            r == Self::spec_from_code(b),
    {
        if b == 0x00 {
            Some(EMachine::EM_NONE)
        } else if b == 0x01 {
            Some(EMachine::EM_M32)
        } else if b == 0x02 {
            Some(EMachine::EM_SPARC)
        } else if b == 0x03 {
            Some(EMachine::EM_x86)
        } else if b == 0x04 {
            Some(EMachine::EM_68K)
        } else if b == 0x05 {
            Some(EMachine::EM_88K)
        } else if b == 0x06 {
            Some(EMachine::EM_486)
        } else if b == 0x07 {
            Some(EMachine::EM_860)
        } else if b == 0x08 {
            Some(EMachine::EM_MIPS)
        } else if b == 0x09 {
            Some(EMachine::EM_MIPS_RS4_BE)
        } else if b == 0x0A {
            Some(EMachine::EM_PARISC)
        } else if b == 0x13 {
            Some(EMachine::EM_960)
        } else if b == 0x14 {
            Some(EMachine::EM_PPC)
        } else if b == 0x15 {
            Some(EMachine::EM_PPC64)
        } else if b == 0x16 {
            Some(EMachine::EM_S390)
        } else if b == 0x28 {
            Some(EMachine::EM_ARM)
        } else if b == 0x2A {
            Some(EMachine::EM_SUPERH)
        } else if b == 0x32 {
            Some(EMachine::EM_IA64)
        } else if b == 0x3E {
            Some(EMachine::EM_AMD64)
        } else if b == 0x8C {
            Some(EMachine::EM_TMS320)
        } else if b == 0xB7 {
            Some(EMachine::EM_ARM64)
        } else if b == 0xF3 {
            Some(EMachine::EM_RISCV)
        } else {
            None
        }
    }
}

/// Version of the object file format.
#[allow(non_camel_case_types)]
#[derive(Clone, Copy, Debug, PartialEq, Eq, Structural)]
pub enum EVersion {
    EV_NONE,
    EV_CURRENT,
}

impl EVersion {
    /// The EVersion that the code `b` stands for, if it is a known one.
    pub open spec fn spec_from_code(b: u32) -> Option<EVersion> {
        if b == 0 {
            Some(EVersion::EV_NONE)
        } else if b == 1 {
            Some(EVersion::EV_CURRENT)
        } else {
            None
        }
    }

    #[verifier::when_used_as_spec(spec_from_code)]
    pub fn from_code(b: u32) -> (r: Option<EVersion>)
        ensures
            r == Self::spec_from_code(b),
    {
        if b == 0 {
            Some(EVersion::EV_NONE)
        } else if b == 1 {
            Some(EVersion::EV_CURRENT)
        } else {
            None
        }
    }
}

/// Whether the file uses the 32-bit layout; every other class is read with the 64-bit one.
pub open spec fn is_class32(c: EiClass) -> bool {
    c == EiClass::ELFCLASS32
}

/// Number of bytes of the file header.
pub open spec fn header_size(c: EiClass) -> int {
    if is_class32(c) {
        0x34
    } else {
        0x40
    }
}

/// Number of bytes of one entry of the section header table.
pub open spec fn section_entry_size(c: EiClass) -> int {
    if is_class32(c) {
        0x28
    } else {
        0x40
    }
}

/// Number of bytes of one entry of the program header table.
pub open spec fn program_entry_size(c: EiClass) -> int {
    if is_class32(c) {
        0x20
    } else {
        0x38
    }
}

/// The address-sized field of a file with class `c`: 32 bits at `at32` or 64 bits at `at64`.
pub open spec fn le_addr(s: Seq<u8>, c: EiClass, at32: int, at64: int) -> u64 {
    if is_class32(c) {
        le_u32(s, at32) as u64
    } else {
        le_u64(s, at64)
    }
}

/// The identification bytes of the file `s`, where every code in them is a known one.
pub open spec fn ident_of(s: Seq<u8>) -> Option<Ei> {
    if s.len() < 9 {
        None
    } else {
        match (
            EiClass::from_code(s[4]),
            EiData::from_code(s[5]),
            EiVersion::from_code(s[6]),
            EiOsAbi::from_code(s[7]),
        ) {
            (Some(c), Some(d), Some(v), Some(o)) => Some(
                Ei {
                    ei_classs: c,
                    ei_data: d,
                    ei_version: v,
                    ei_osabi: o,
                    ei_abiversion: s[8],
                },
            ),
            _ => None,
        }
    }
}

/// The file header of `s`: present where the file holds a whole header for its class and
/// every code in it is a known one.
pub open spec fn header_of(s: Seq<u8>) -> Option<ElfHeader> {
    match ident_of(s) {
        None => None,
        Some(ei) => {
            let c = ei.ei_classs;
            if s.len() < header_size(c) {
                None
            } else {
                match (
                    EType::from_code(le_u16(s, 0x10)),
                    EMachine::from_code(s[0x12]),
                    EVersion::from_code(le_u32(s, 0x14)),
                ) {
                    (Some(t), Some(m), Some(v)) => Some(
                        ElfHeader {
                            e_indent: ei,
                            e_type: t,
                            e_machine: m,
                            e_version: v,
                            e_entry: le_addr(s, c, 0x18, 0x18),
                            e_phoff: le_addr(s, c, 0x1C, 0x20),
                            e_shoff: le_addr(s, c, 0x20, 0x28),
                            e_flags: le_u32(s, if is_class32(c) { 0x24 } else { 0x30 }),
                            e_ehsize: le_u16(s, if is_class32(c) { 0x28 } else { 0x34 }),
                            e_phentsize: le_u16(s, if is_class32(c) { 0x2A } else { 0x36 }),
                            e_phnum: le_u16(s, if is_class32(c) { 0x2C } else { 0x38 }),
                            e_shentsize: le_u16(s, if is_class32(c) { 0x2E } else { 0x3A }),
                            e_shnum: le_u16(s, if is_class32(c) { 0x30 } else { 0x3C }),
                            e_shstrndx: le_u16(s, if is_class32(c) { 0x32 } else { 0x3E }),
                        },
                    ),
                    _ => None,
                }
            }
        },
    }
}

/// File offset of entry `i` of the section header table.
pub open spec fn section_offset(h: ElfHeader, i: int) -> int {
    h.e_shoff + h.e_shentsize * i
}

/// Entry `i` of the section header table: present where the entry lies within the file and
/// its type is a known one.
pub open spec fn section_at(s: Seq<u8>, h: ElfHeader, i: int) -> Option<SectionHeader> {
    let c = h.e_indent.ei_classs;
    let o = section_offset(h, i);
    if o + section_entry_size(c) > s.len() {
        None
    } else {
        match ShType::from_code(le_u32(s, o + 4)) {
            None => None,
            Some(t) => Some(
                SectionHeader {
                    sh_name: le_u32(s, o),
                    sh_type: t,
                    sh_flags: le_addr(s, c, o + 0x08, o + 0x08),
                    sh_addr: le_addr(s, c, o + 0x0C, o + 0x10),
                    sh_offset: le_addr(s, c, o + 0x10, o + 0x18),
                    sh_size: le_addr(s, c, o + 0x14, o + 0x20),
                    sh_link: le_u32(s, if is_class32(c) { o + 0x18 } else { o + 0x28 }),
                    sh_info: le_u32(s, if is_class32(c) { o + 0x1C } else { o + 0x2C }),
                    sh_addralign: le_addr(s, c, o + 0x20, o + 0x30),
                    sh_entsize: le_addr(s, c, o + 0x24, o + 0x38),
                },
            ),
        }
    }
}

/// File offset of entry `i` of the program header table.
pub open spec fn program_offset(h: ElfHeader, i: int) -> int {
    h.e_phoff + h.e_phentsize * i
}

/// Entry `i` of the program header table: present where the entry lies within the file.
pub open spec fn program_at(s: Seq<u8>, h: ElfHeader, i: int) -> Option<ProgramHeader> {
    let c = h.e_indent.ei_classs;
    let o = program_offset(h, i);
    if o + program_entry_size(c) > s.len() {
        None
    } else {
        Some(
            ProgramHeader {
                p_type: le_u32(s, o),
                p_flags: le_u32(s, if is_class32(c) { o + 0x18 } else { o + 0x04 }),
                p_offset: le_addr(s, c, o + 0x04, o + 0x08),
                p_vaddr: le_addr(s, c, o + 0x08, o + 0x10),
                p_paddr: le_addr(s, c, o + 0x0C, o + 0x18),
                p_filesz: le_addr(s, c, o + 0x10, o + 0x20),
                p_memsz: le_addr(s, c, o + 0x14, o + 0x28),
                p_align: le_addr(s, c, o + 0x1C, o + 0x30),
            },
        )
    }
}

/// Whether every entry of the section header table is well-formed.
pub open spec fn sections_ok(file: Seq<u8>, h: ElfHeader) -> bool {
    forall|i: int| 0 <= i < h.e_shnum ==> (#[trigger] section_at(file, h, i)).is_some()
}

/// Whether every entry of the program header table lies within the file.
pub open spec fn programs_ok(file: Seq<u8>, h: ElfHeader) -> bool {
    forall|i: int| 0 <= i < h.e_phnum ==> (#[trigger] program_at(file, h, i)).is_some()
}

/// The section header table of `file`.
pub open spec fn sections_of(file: Seq<u8>, h: ElfHeader) -> Seq<SectionHeader> {
    Seq::new(h.e_shnum as nat, |i: int| section_at(file, h, i).unwrap())
}

/// The program header table of `file`.
pub open spec fn programs_of(file: Seq<u8>, h: ElfHeader) -> Seq<ProgramHeader> {
    Seq::new(h.e_phnum as nat, |i: int| program_at(file, h, i).unwrap())
}

/// Whether the name of section `p`, looked up in the string table `t`, is `.tohost`.
pub open spec fn names_tohost(s: Seq<u8>, p: SectionHeader, t: SectionHeader) -> bool {
    let o = p.sh_name + t.sh_offset;
    o + 8 <= s.len() && le_u64(s, o) == TOHOST
}

/// Address of the first section among `p[i..]` that one of the string tables `t` names
/// `.tohost`; for `p[i]` itself only the tables `t[j..]` count.
pub open spec fn tohost_from(
    s: Seq<u8>,
    p: Seq<SectionHeader>,
    t: Seq<SectionHeader>,
    i: int,
    j: int,
) -> Option<u64>
    decreases p.len() - i, t.len() - j,
{
    if i < 0 || j < 0 || i >= p.len() {
        None
    } else if j >= t.len() {
        tohost_from(s, p, t, i + 1, 0)
    } else if names_tohost(s, p[i], t[j]) {
        Some(p[i].sh_addr)
    } else {
        tohost_from(s, p, t, i, j + 1)
    }
}

/// An ELF image held in memory.
pub struct ElfLoader {
    mapped_file: Vec<u8>,
}

impl View for ElfLoader {
    type V = Seq<u8>;

    closed spec fn view(&self) -> Seq<u8> {
        self.mapped_file@
    }
}

impl ElfLoader {
    /// Takes the bytes of the file.
    pub fn new(data: Vec<u8>) -> (r: Self)
        ensures
            r@ == data@,
    {
        ElfLoader { mapped_file: data }
    }

    /// The bytes of the file.
    pub fn bytes(&self) -> (r: &Vec<u8>)
        ensures
            r@ == self@,
    {
        &self.mapped_file
    }

    /// Number of bytes of the file.
    pub fn len(&self) -> (n: usize)
        ensures
            n == self@.len(),
    {
        self.mapped_file.len()
    }

    /// Whether the file opens with the ELF magic number.
    pub fn is_elf(&self) -> (r: bool)
        ensures
            r == (self@.len() >= 4 && self@.subrange(0, 4) == HEADER_MAGIC@),
    {
        if self.mapped_file.len() < 4 {
            return false;
        }
        let r = self.mapped_file[0] == HEADER_MAGIC[0] && self.mapped_file[1] == HEADER_MAGIC[1]
            && self.mapped_file[2] == HEADER_MAGIC[2] && self.mapped_file[3] == HEADER_MAGIC[3];
        proof {
            let sub = self@.subrange(0, 4);
            if r {
                assert(sub =~= HEADER_MAGIC@);
            } else {
                assert(sub[0] == self@[0] && sub[1] == self@[1] && sub[2] == self@[2] && sub[3]
                    == self@[3]);
            }
        }
        r
    }

    pub fn read8(&self, offset: usize) -> (r: u8)
        requires
            offset < self@.len(),
        ensures
            r == self@[offset as int],
    {
        self.mapped_file[offset]
    }

    fn read16(&self, offset: usize) -> (r: u16)
        requires
            offset + 2 <= self@.len(),
        ensures
            r == le_u16(self@, offset as int),
    {
        let n = self.mapped_file.len();
        (self.mapped_file[offset] as u16) | ((self.mapped_file[offset + 1] as u16) << 8)
    }

    fn read32(&self, offset: usize) -> (r: u32)
        requires
            offset + 4 <= self@.len(),
        ensures
            r == le_u32(self@, offset as int),
    {
        let n = self.mapped_file.len();
        (self.read16(offset) as u32) | ((self.read16(offset + 2) as u32) << 16)
    }

    fn read64(&self, offset: usize) -> (r: u64)
        requires
            offset + 8 <= self@.len(),
        ensures
            r == le_u64(self@, offset as int),
    {
        let n = self.mapped_file.len();
        (self.read32(offset) as u64) | ((self.read32(offset + 4) as u64) << 32)
    }

    /// Reads the 32-bit field at `o + at32` or the one at `o + at64`.
    fn read_word(&self, class32: bool, o: usize, at32: usize, at64: usize) -> (r: u32)
        requires
            class32 ==> o + at32 + 4 <= self@.len(),
            !class32 ==> o + at64 + 4 <= self@.len(),
        ensures
            r == le_u32(self@, if class32 { o + at32 } else { o + at64 }),
    {
        let n = self.mapped_file.len();
        if class32 {
            self.read32(o + at32)
        } else {
            self.read32(o + at64)
        }
    }

    /// Reads the 16-bit field at `o + at32` or the one at `o + at64`.
    fn read_half(&self, class32: bool, o: usize, at32: usize, at64: usize) -> (r: u16)
        requires
            class32 ==> o + at32 + 2 <= self@.len(),
            !class32 ==> o + at64 + 2 <= self@.len(),
        ensures
            r == le_u16(self@, if class32 { o + at32 } else { o + at64 }),
    {
        let n = self.mapped_file.len();
        if class32 {
            self.read16(o + at32)
        } else {
            self.read16(o + at64)
        }
    }

    /// Reads an address-sized field: 32 bits at `o + at32` or 64 bits at `o + at64`.
    fn read_addr(&self, class32: bool, o: usize, at32: usize, at64: usize) -> (r: u64)
        requires
            class32 ==> o + at32 + 4 <= self@.len(),
            !class32 ==> o + at64 + 8 <= self@.len(),
        ensures
            class32 ==> r == le_u32(self@, o + at32) as u64,
            !class32 ==> r == le_u64(self@, o + at64),
    {
        let n = self.mapped_file.len();
        if class32 {
            self.read32(o + at32) as u64
        } else {
            self.read64(o + at64)
        }
    }

    fn read_ident(&self) -> (r: Option<Ei>)
        ensures
            r == ident_of(self@),
    {
        if self.mapped_file.len() < 9 {
            return None;
        }
        let c = EiClass::from_code(self.mapped_file[4])?;
        let d = EiData::from_code(self.mapped_file[5])?;
        let v = EiVersion::from_code(self.mapped_file[6])?;
        let o = EiOsAbi::from_code(self.mapped_file[7])?;
        Some(
            Ei {
                ei_classs: c,
                ei_data: d,
                ei_version: v,
                ei_osabi: o,
                ei_abiversion: self.mapped_file[8],
            },
        )
    }

    /// The file header, or `None` where the file is too short for one or holds a code that
    /// is not known.
    pub fn read_elf_header(&self) -> (r: Option<ElfHeader>)
        ensures
            r == header_of(self@),
    {
        let ei = self.read_ident()?;
        let class32 = matches!(ei.ei_classs, EiClass::ELFCLASS32);
        let need: usize = if class32 {
            0x34
        } else {
            0x40
        };
        if self.mapped_file.len() < need {
            return None;
        }
        let t = EType::from_code(self.read16(0x10))?;
        let m = EMachine::from_code(self.mapped_file[0x12])?;
        let v = EVersion::from_code(self.read32(0x14))?;
        Some(
            ElfHeader {
                e_indent: ei,
                e_type: t,
                e_machine: m,
                e_version: v,
                e_entry: self.read_addr(class32, 0, 0x18, 0x18),
                e_phoff: self.read_addr(class32, 0, 0x1C, 0x20),
                e_shoff: self.read_addr(class32, 0, 0x20, 0x28),
                e_flags: self.read_word(class32, 0, 0x24, 0x30),
                e_ehsize: self.read_half(class32, 0, 0x28, 0x34),
                e_phentsize: self.read_half(class32, 0, 0x2A, 0x36),
                e_phnum: self.read_half(class32, 0, 0x2C, 0x38),
                e_shentsize: self.read_half(class32, 0, 0x2E, 0x3A),
                e_shnum: self.read_half(class32, 0, 0x30, 0x3C),
                e_shstrndx: self.read_half(class32, 0, 0x32, 0x3E),
            },
        )
    }

    /// The file header of a file that holds a well-formed one.
    pub fn get_elf_header(&self) -> (r: ElfHeader)
        requires
            header_of(self@).is_some(),
        ensures
            Some(r) == header_of(self@),
    {
        match self.read_elf_header() {
            Some(h) => h,
            None => vstd::pervasive::unreached(),
        }
    }

    /// Start of entry `i` of a table that begins at `base` with entries `entsize` apart, where
    /// `need` bytes from there on lie within the file.
    fn entry_offset(&self, base: u64, entsize: u16, i: u16, need: u64) -> (r: Option<usize>)
        requires
            need <= 0x40,
        ensures
            r == if base + entsize * i + need <= self@.len() {
                Some((base + entsize * i) as usize)
            } else {
                None
            },
    {
        let len = self.mapped_file.len() as u64;
        if base > len {
            return None;
        }
        assert(entsize * i <= 0xffff * 0xffff) by (nonlinear_arith)
            requires
                entsize <= 0xffff,
                i <= 0xffff,
        ;
        let rel = (entsize as u64) * (i as u64);
        if rel > len - base {
            return None;
        }
        let o = base + rel;
        if need > len - o {
            return None;
        }
        Some(o as usize)
    }

    fn read_section(&self, h: &ElfHeader, i: u16) -> (r: Option<SectionHeader>)
        ensures
            r == section_at(self@, *h, i as int),
    {
        let class32 = matches!(h.e_indent.ei_classs, EiClass::ELFCLASS32);
        let o = self.entry_offset(h.e_shoff, h.e_shentsize, i, if class32 { 0x28 } else { 0x40 })?;
        let n = self.mapped_file.len();
        let t = ShType::from_code(self.read32(o + 4))?;
        Some(
            SectionHeader {
                sh_name: self.read32(o),
                sh_type: t,
                sh_flags: self.read_addr(class32, o, 0x08, 0x08),
                sh_addr: self.read_addr(class32, o, 0x0C, 0x10),
                sh_offset: self.read_addr(class32, o, 0x10, 0x18),
                sh_size: self.read_addr(class32, o, 0x14, 0x20),
                sh_link: self.read_word(class32, o, 0x18, 0x28),
                sh_info: self.read_word(class32, o, 0x1C, 0x2C),
                sh_addralign: self.read_addr(class32, o, 0x20, 0x30),
                sh_entsize: self.read_addr(class32, o, 0x24, 0x38),
            },
        )
    }

    /// The section header table, or `None` where one of its entries reaches past the end of
    /// the file or has a type that is not known.
    pub fn read_section_header(&self, elf_header: &ElfHeader) -> (r: Option<Vec<SectionHeader>>)
        ensures
            r.is_some() == sections_ok(self@, *elf_header),
            r.is_some() ==> r.unwrap()@ == sections_of(self@, *elf_header),
    {
        let mut shs: Vec<SectionHeader> = Vec::new();
        let mut i: u16 = 0;
        while i < elf_header.e_shnum
            invariant
                i <= elf_header.e_shnum,
                shs@.len() == i,
                forall|k: int|
                    0 <= k < i ==> (#[trigger] section_at(self@, *elf_header, k)) == Some(shs@[k]),
            decreases elf_header.e_shnum - i,
        {
            match self.read_section(elf_header, i) {
                Some(sh) => shs.push(sh),
                None => {
                    assert(section_at(self@, *elf_header, i as int).is_none());
                    return None;
                },
            }
            i += 1;
        }
        assert(shs@ =~= sections_of(self@, *elf_header));
        Some(shs)
    }

    /// The section header table of a file in which every entry is well-formed.
    pub fn get_section_header(&self, elf_header: &ElfHeader) -> (shs: Vec<SectionHeader>)
        requires
            sections_ok(self@, *elf_header),
        ensures
            shs@ == sections_of(self@, *elf_header),
    {
        match self.read_section_header(elf_header) {
            Some(shs) => shs,
            None => vstd::pervasive::unreached(),
        }
    }

    fn read_program(&self, h: &ElfHeader, i: u16) -> (r: Option<ProgramHeader>)
        ensures
            r == program_at(self@, *h, i as int),
    {
        let class32 = matches!(h.e_indent.ei_classs, EiClass::ELFCLASS32);
        let n = self.mapped_file.len();
        let o = self.entry_offset(h.e_phoff, h.e_phentsize, i, if class32 { 0x20 } else { 0x38 })?;
        Some(
            ProgramHeader {
                p_type: self.read32(o),
                p_flags: self.read_word(class32, o, 0x18, 0x04),
                p_offset: self.read_addr(class32, o, 0x04, 0x08),
                p_vaddr: self.read_addr(class32, o, 0x08, 0x10),
                p_paddr: self.read_addr(class32, o, 0x0C, 0x18),
                p_filesz: self.read_addr(class32, o, 0x10, 0x20),
                p_memsz: self.read_addr(class32, o, 0x14, 0x28),
                p_align: self.read_addr(class32, o, 0x1C, 0x30),
            },
        )
    }

    /// The program header table, or `None` where one of its entries reaches past the end of
    /// the file.
    pub fn read_program_header(&self, elf_header: &ElfHeader) -> (r: Option<Vec<ProgramHeader>>)
        ensures
            r.is_some() == programs_ok(self@, *elf_header),
            r.is_some() ==> r.unwrap()@ == programs_of(self@, *elf_header),
    {
        let mut phs: Vec<ProgramHeader> = Vec::new();
        let mut i: u16 = 0;
        while i < elf_header.e_phnum
            invariant
                i <= elf_header.e_phnum,
                phs@.len() == i,
                forall|k: int|
                    0 <= k < i ==> (#[trigger] program_at(self@, *elf_header, k)) == Some(phs@[k]),
            decreases elf_header.e_phnum - i,
        {
            match self.read_program(elf_header, i) {
                Some(ph) => phs.push(ph),
                None => {
                    assert(program_at(self@, *elf_header, i as int).is_none());
                    return None;
                },
            }
            i += 1;
        }
        assert(phs@ =~= programs_of(self@, *elf_header));
        Some(phs)
    }

    /// The program header table of a file in which every entry lies within the file.
    pub fn get_program_header(&self, elf_header: &ElfHeader) -> (phs: Vec<ProgramHeader>)
        requires
            programs_ok(self@, *elf_header),
        ensures
            phs@ == programs_of(self@, *elf_header),
    {
        match self.read_program_header(elf_header) {
            Some(phs) => phs,
            None => vstd::pervasive::unreached(),
        }
    }

    fn is_tohost(&self, p: &SectionHeader, t: &SectionHeader) -> (r: bool)
        ensures
            r == names_tohost(self@, *p, *t),
    {
        let len = self.mapped_file.len() as u64;
        if t.sh_offset > len {
            return false;
        }
        if p.sh_name as u64 > len - t.sh_offset {
            return false;
        }
        let o = p.sh_name as u64 + t.sh_offset;
        if 8 > len - o {
            return false;
        }
        self.read64(o as usize) == TOHOST
    }

    /// Address of the first program section that one of the string tables names `.tohost`.
    pub fn search_tohost(
        &self,
        progbits_sec_headers: &Vec<SectionHeader>,
        strtab_sec_headers: &Vec<SectionHeader>,
    ) -> (r: Option<u64>)
        ensures
            r == tohost_from(self@, progbits_sec_headers@, strtab_sec_headers@, 0, 0),
    {
        let mut i: usize = 0;
        while i < progbits_sec_headers.len()
            invariant
                i <= progbits_sec_headers@.len(),
                tohost_from(self@, progbits_sec_headers@, strtab_sec_headers@, 0, 0)
                    == tohost_from(self@, progbits_sec_headers@, strtab_sec_headers@, i as int, 0),
            decreases progbits_sec_headers@.len() - i,
        {
            let mut j: usize = 0;
            while j < strtab_sec_headers.len()
                invariant
                    i < progbits_sec_headers@.len(),
                    j <= strtab_sec_headers@.len(),
                    tohost_from(self@, progbits_sec_headers@, strtab_sec_headers@, 0, 0)
                        == tohost_from(
                        self@,
                        progbits_sec_headers@,
                        strtab_sec_headers@,
                        i as int,
                        j as int,
                    ),
                decreases strtab_sec_headers@.len() - j,
            {
                if self.is_tohost(&progbits_sec_headers[i], &strtab_sec_headers[j]) {
                    return Some(progbits_sec_headers[i].sh_addr);
                }
                j += 1;
            }
            i += 1;
        }
        None
    }
}

} // verus!
