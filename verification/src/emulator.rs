//! The machine as a whole: a hart, the program loaded into its memory, and the word
//! through which a test program reports how it ended.

use crate::console::Terminal;
use crate::cpu::cpu::{Cpu, CpuView, Xlen};
use crate::elf_loader::{
    header_of, programs_of, programs_ok, sections_of, sections_ok, tohost_from, EMachine, EiClass,
    ElfHeader, ElfLoader, ProgramHeader, SectionHeader, ShType, HEADER_MAGIC,
};
use crate::machine::Machine;
use crate::mmu::MmuView;
use crate::system_bus::BusView;
use vstd::prelude::*;

verus! {

/// Why a program cannot be loaded.
#[derive(Clone, Copy, Debug, PartialEq, Eq, Structural)]
pub enum LoadError {
    /// The file does not open with the ELF magic number.
    NotElf,
    /// The file header is cut short or holds a code that is not known.
    BadHeader,
    /// The program is for another machine than RISC-V.
    NotRiscv,
    /// The file is neither of the 32-bit nor of the 64-bit class.
    BadClass,
    /// An entry of the section header table reaches outside the file or has a type that
    /// is not known.
    BadSectionHeader,
    /// An entry of the program header table reaches outside the file.
    BadProgramHeader,
    /// A section to load reaches outside the file or outside the memory.
    Misplaced,
}

pub struct Emulator {
    pub cpu: Cpu,
    /// Whether the machine watches the `.tohost` word.
    pub testmode: bool,
    /// Address of the `.tohost` word; 0 where the program has none.
    pub tohost: u64,
}

/// What an `Emulator` holds.
pub struct EmulatorView {
    pub cpu: CpuView,
    pub testmode: bool,
    pub tohost: u64,
}

impl View for Emulator {
    type V = EmulatorView;

    open spec fn view(&self) -> EmulatorView {
        EmulatorView { cpu: self.cpu@, testmode: self.testmode, tohost: self.tohost }
    }
}

/// Whether a section holds program data.
pub open spec fn is_progbits(s: SectionHeader) -> bool {
    s.sh_type == ShType::SHT_PROGBITS
}

/// Whether a section is a string table.
pub open spec fn is_strtab(s: SectionHeader) -> bool {
    s.sh_type == ShType::SHT_STRTAB
}

/// Whether a section is copied into the machine: it holds program data, lies at or above
/// the address `base` and has contents in the file.
pub open spec fn loadable(s: SectionHeader, base: u64) -> bool {
    is_progbits(s) && s.sh_addr >= base && s.sh_offset > 0
}

/// The physical address of a section: that of the first program header among
/// `programs[k..]` whose virtual address is the section's address, and the section's
/// address where there is none.
pub open spec fn physical_from(s: SectionHeader, programs: Seq<ProgramHeader>, k: int) -> u64
    decreases programs.len() - k,
{
    if k < 0 || k >= programs.len() {
        s.sh_addr
    } else if programs[k].p_vaddr == s.sh_addr {
        programs[k].p_paddr
    } else {
        physical_from(s, programs, k + 1)
    }
}

/// Whether the contents of a section lie within the file and its place lies within the
/// memory behind `bus`.
pub open spec fn placed(file: Seq<u8>, bus: BusView, s: SectionHeader, programs: Seq<ProgramHeader>) -> bool {
    s.sh_offset + s.sh_size <= file.len() && bus.holds(
        physical_from(s, programs, 0),
        s.sh_size as int,
    )
}

/// The bus after the first `k` sections were loaded, one after the other.
pub open spec fn image(
    bus: BusView,
    file: Seq<u8>,
    sections: Seq<SectionHeader>,
    programs: Seq<ProgramHeader>,
    k: int,
) -> BusView
    decreases k,
{
    if k <= 0 {
        bus.release()
    } else {
        let b = image(bus, file, sections, programs, k - 1);
        let s = sections[k - 1];
        if loadable(s, bus.image_base()) {
            b.with_image(
                physical_from(s, programs, 0),
                file.subrange(s.sh_offset as int, s.sh_offset + s.sh_size),
            )
        } else {
            b
        }
    }
}

/// Whether every section to load lies within the file and has its place within the memory
/// behind `bus`.
pub open spec fn all_placed(
    file: Seq<u8>,
    bus: BusView,
    sections: Seq<SectionHeader>,
    programs: Seq<ProgramHeader>,
) -> bool {
    forall|i: int|
        0 <= i < sections.len() && loadable(#[trigger] sections[i], bus.image_base()) ==> placed(
            file,
            bus,
            sections[i],
            programs,
        )
}

/// Why the tables of `file` cannot be read; `None` where they can.
pub open spec fn table_error(file: Seq<u8>) -> Option<LoadError> {
    if !(file.len() >= 4 && file.subrange(0, 4) == HEADER_MAGIC@) {
        Some(LoadError::NotElf)
    } else if header_of(file).is_none() {
        Some(LoadError::BadHeader)
    } else if header_of(file).unwrap().e_machine != EMachine::EM_RISCV {
        Some(LoadError::NotRiscv)
    } else if header_of(file).unwrap().e_indent.ei_classs == EiClass::ELFCLASSNONE {
        Some(LoadError::BadClass)
    } else if !sections_ok(file, header_of(file).unwrap()) {
        Some(LoadError::BadSectionHeader)
    } else if !programs_ok(file, header_of(file).unwrap()) {
        Some(LoadError::BadProgramHeader)
    } else {
        None
    }
}

/// Why `file` cannot be loaded into the memory behind `bus`; `None` where it can.
pub open spec fn load_error(file: Seq<u8>, bus: BusView) -> Option<LoadError> {
    match table_error(file) {
        Some(e) => Some(e),
        None => if !all_placed(
            file,
            bus,
            sections_of(file, header_of(file).unwrap()),
            programs_of(file, header_of(file).unwrap()),
        ) {
            Some(LoadError::Misplaced)
        } else {
            None
        },
    }
}

impl EmulatorView {
    /// The machine `machine` as it is built around the terminal `tty`, with no program
    /// loaded.
    pub open spec fn init(
        machine: Machine,
        tty: crate::console::TerminalView,
        testmode: bool,
    ) -> EmulatorView {
        EmulatorView { cpu: CpuView::init(machine, tty), testmode, tohost: 0 }
    }

    /// The machine after `bus` took the place of its bus.
    pub open spec fn with_bus(self, bus: BusView) -> EmulatorView {
        EmulatorView {
            cpu: CpuView { mmu: MmuView { bus, ..self.cpu.mmu }, ..self.cpu },
            ..self
        }
    }

    /// The machine with the program of `file` loaded: the hart stands at the program's
    /// entry with the width of the file's class, the memory holds the sections, and in test
    /// mode the `.tohost` word is the one that the file names, or none.
    pub open spec fn loaded(self, file: Seq<u8>) -> EmulatorView {
        let h = header_of(file).unwrap();
        let sections = sections_of(file, h);
        let programs = programs_of(file, h);
        let xlen = if h.e_indent.ei_classs == EiClass::ELFCLASS32 {
            Xlen::X32
        } else {
            Xlen::X64
        };
        EmulatorView {
            cpu: CpuView {
                pc: h.e_entry,
                xlen,
                mmu: MmuView {
                    xlen,
                    bus: image(self.cpu.mmu.bus, file, sections, programs, sections.len() as int),
                    ..self.cpu.mmu
                },
                ..self.cpu
            },
            tohost: if self.testmode {
                match tohost_from(
                    file,
                    sections.filter(|s: SectionHeader| is_progbits(s)),
                    sections.filter(|s: SectionHeader| is_strtab(s)),
                    0,
                    0,
                ) {
                    Some(addr) => addr,
                    None => 0,
                }
            } else {
                self.tohost
            },
            ..self
        }
    }

    /// How the test program has ended, if it has: in test mode with a `.tohost` word in
    /// main memory, a word of 1 reports success and any other word but 0 a failure with
    /// that code.
    pub open spec fn exit_code(self) -> Option<Result<u32, u32>> {
        if !self.testmode || self.tohost == 0 {
            None
        } else {
            match self.cpu.mmu.bus.dram_value(self.tohost, 4) {
                None => None,
                Some(v) => if v as u32 == 0 {
                    None
                } else if v as u32 == 1 {
                    Some(Ok(1))
                } else {
                    Some(Err(v as u32))
                },
            }
        }
    }

    /// The machine one tick later.
    pub open spec fn step(self) -> EmulatorView {
        EmulatorView { cpu: self.cpu.tick(), ..self }
    }

    /// The machine after it has run until the test program ended, for `n` ticks at most.
    pub open spec fn run(self, n: nat) -> EmulatorView
        decreases n,
    {
        if n == 0 || self.step().exit_code().is_some() {
            if n == 0 {
                self
            } else {
                self.step()
            }
        } else {
            self.step().run((n - 1) as nat)
        }
    }

    /// How the test program ended within `n` ticks; `None` where it has not ended.
    pub open spec fn run_result(self, n: nat) -> Option<Result<u32, u32>>
        decreases n,
    {
        if n == 0 {
            None
        } else if self.step().exit_code().is_some() {
            self.step().exit_code()
        } else {
            self.step().run_result((n - 1) as nat)
        }
    }
}

impl Emulator {
    pub fn new(machine: Machine, tty: Terminal, testmode_: bool) -> (r: Emulator)
        ensures
            r@ == EmulatorView::init(machine, tty@, testmode_),
    {
        Self { cpu: Cpu::new(machine, tty), testmode: testmode_, tohost: 0 }
    }

    pub fn reset(&mut self)
        ensures
            final(self)@ == (EmulatorView {
                cpu: CpuView {
                    pc: 0,
                    privilege: crate::cpu::cpu::Privilege::Machine,
                    ..old(self)@.cpu
                },
                ..old(self)@
            }),
    {
        self.cpu.reset()
    }

    pub fn set_pc(&mut self, addr: u64)
        ensures
            final(self)@ == (EmulatorView {
                cpu: CpuView { pc: addr, ..old(self)@.cpu },
                ..old(self)@
            }),
    {
        self.cpu.set_pc(addr)
    }

    /// Gives the block device its backing blob.
    pub fn set_disk_data(&mut self, data: Vec<u8>)
        ensures
            final(self)@ == old(self)@.with_bus(
                BusView {
                    virtio: crate::peripherals::virtio::VirtioView {
                        disk: data@,
                        ..old(self)@.cpu.mmu.bus.virtio
                    },
                    ..old(self)@.cpu.mmu.bus
                },
            ),
    {
        self.cpu.mmu.get_bus().set_disk_data(data);
    }

    /// Copies `data` to the start of main memory.
    pub fn set_dram_data(&mut self, data: Vec<u8>)
        requires
            data@.len() <= old(self)@.cpu.mmu.bus.dram.len(),
        ensures
            final(self)@ == old(self)@.with_bus(
                BusView {
                    dram: data@ + old(self)@.cpu.mmu.bus.dram.subrange(
                        data@.len() as int,
                        old(self)@.cpu.mmu.bus.dram.len() as int,
                    ),
                    ..old(self)@.cpu.mmu.bus
                },
            ),
    {
        self.cpu.mmu.get_bus().set_dram_data(data);
    }

    /// The physical address of the section `s`.
    fn physical_of(s: &SectionHeader, programs: &Vec<ProgramHeader>) -> (r: u64)
        ensures
            r == physical_from(*s, programs@, 0),
    {
        let mut k: usize = 0;
        while k < programs.len()
            invariant
                k <= programs@.len(),
                physical_from(*s, programs@, 0) == physical_from(*s, programs@, k as int),
            decreases programs@.len() - k,
        {
            if programs[k].p_vaddr == s.sh_addr {
                return programs[k].p_paddr;
            }
            k += 1;
        }
        s.sh_addr
    }

    /// Whether the section `s` can be copied.
    fn is_placed(&mut self, file_len: usize, s: &SectionHeader, programs: &Vec<ProgramHeader>) -> (r:
        bool)
        ensures
            final(self)@ == old(self)@,
            r == (s.sh_offset + s.sh_size <= file_len && old(self)@.cpu.mmu.bus.holds(
                physical_from(*s, programs@, 0),
                s.sh_size as int,
            )),
    {
        let pa = Self::physical_of(s, programs);
        let len = file_len as u64;
        s.sh_offset <= len && s.sh_size <= len - s.sh_offset && self.cpu.mmu.get_bus().holds(
            pa,
            s.sh_size,
        )
    }

    /// The sections of `sections` of the type `kind`, in their order.
    fn of_type(sections: &Vec<SectionHeader>, progbits: bool) -> (r: Vec<SectionHeader>)
        ensures
            progbits ==> r@ == sections@.filter(|s: SectionHeader| is_progbits(s)),
            !progbits ==> r@ == sections@.filter(|s: SectionHeader| is_strtab(s)),
    {
        let ghost pred = if progbits {
            |s: SectionHeader| is_progbits(s)
        } else {
            |s: SectionHeader| is_strtab(s)
        };
        let mut r: Vec<SectionHeader> = Vec::new();
        let mut k: usize = 0;
        proof {
            reveal(Seq::filter);
            assert(sections@.take(0) =~= Seq::<SectionHeader>::empty());
        }
        while k < sections.len()
            invariant
                k <= sections@.len(),
                pred == if progbits {
                    |s: SectionHeader| is_progbits(s)
                } else {
                    |s: SectionHeader| is_strtab(s)
                },
                r@ == sections@.take(k as int).filter(pred),
            decreases sections@.len() - k,
        {
            let s = sections[k];
            let keep = if progbits {
                matches!(s.sh_type, ShType::SHT_PROGBITS)
            } else {
                matches!(s.sh_type, ShType::SHT_STRTAB)
            };
            proof {
                reveal(Seq::filter);
                assert(sections@.take(k + 1).drop_last() =~= sections@.take(k as int));
                assert(sections@.take(k + 1).last() == sections@[k as int]);
            }
            if keep {
                r.push(s);
            }
            k += 1;
        }
        proof {
            assert(sections@.take(sections@.len() as int) =~= sections@);
        }
        r
    }

    /// Whether every section to load can be copied.
    fn sections_placed(
        &mut self,
        loader: &ElfLoader,
        sections: &Vec<SectionHeader>,
        programs: &Vec<ProgramHeader>,
    ) -> (r: bool)
        ensures
            final(self)@ == old(self)@,
            r == all_placed(loader@, old(self)@.cpu.mmu.bus, sections@, programs@),
    {
        let base = self.cpu.mmu.get_bus().image_base();
        let mut k: usize = 0;
        while k < sections.len()
            invariant
                k <= sections@.len(),
                self@ == old(self)@,
                base == self@.cpu.mmu.bus.image_base(),
                forall|j: int|
                    0 <= j < k && loadable(#[trigger] sections@[j], base) ==> placed(
                        loader@,
                        self@.cpu.mmu.bus,
                        sections@[j],
                        programs@,
                    ),
            decreases sections@.len() - k,
        {
            let s = &sections[k];
            if matches!(s.sh_type, ShType::SHT_PROGBITS) && s.sh_addr >= base && s.sh_offset > 0
                && !self.is_placed(loader.len(), s, programs) {
                assert(loadable(sections@[k as int], base) && !placed(
                    loader@,
                    self@.cpu.mmu.bus,
                    sections@[k as int],
                    programs@,
                ));
                return false;
            }
            k += 1;
        }
        true
    }

    /// Copies the sections to load into the memory, one after the other.
    fn copy_sections(
        &mut self,
        loader: &ElfLoader,
        sections: &Vec<SectionHeader>,
        programs: &Vec<ProgramHeader>,
    )
        requires
            all_placed(loader@, old(self)@.cpu.mmu.bus, sections@, programs@),
        ensures
            final(self)@ == old(self)@.with_bus(
                image(old(self)@.cpu.mmu.bus, loader@, sections@, programs@, sections@.len() as int),
            ),
    {
        self.cpu.mmu.release();
        let base = self.cpu.mmu.get_bus().image_base();
        let file_len = loader.len();
        let mut k: usize = 0;
        while k < sections.len()
            invariant
                k <= sections@.len(),
                file_len == loader@.len(),
                base == old(self)@.cpu.mmu.bus.image_base(),
                all_placed(loader@, old(self)@.cpu.mmu.bus, sections@, programs@),
                self@ == old(self)@.with_bus(
                    image(old(self)@.cpu.mmu.bus, loader@, sections@, programs@, k as int),
                ),
                self@.cpu.mmu.bus.dram.len() == old(self)@.cpu.mmu.bus.dram.len(),
                self@.cpu.mmu.bus.flash.len() == old(self)@.cpu.mmu.bus.flash.len(),
                self@.cpu.mmu.bus.machine == old(self)@.cpu.mmu.bus.machine,
            decreases sections@.len() - k,
        {
            let s = &sections[k];
            if matches!(s.sh_type, ShType::SHT_PROGBITS) && s.sh_addr >= base && s.sh_offset > 0 {
                let pa = Self::physical_of(s, programs);
                self.cpu.mmu.get_bus().load_image(
                    pa,
                    loader.bytes(),
                    s.sh_offset as usize,
                    s.sh_size as usize,
                );
            }
            k += 1;
        }
    }

    /// The `.tohost` word that the image names, or 0.
    fn find_tohost(loader: &ElfLoader, sections: &Vec<SectionHeader>) -> (r: u64)
        ensures
            r == match tohost_from(
                loader@,
                sections@.filter(|s: SectionHeader| is_progbits(s)),
                sections@.filter(|s: SectionHeader| is_strtab(s)),
                0,
                0,
            ) {
                Some(addr) => addr,
                None => 0,
            },
    {
        let progbits_sec_headers = Self::of_type(sections, true);
        let strtab_sec_headers = Self::of_type(sections, false);
        match loader.search_tohost(&progbits_sec_headers, &strtab_sec_headers) {
            Some(addr) => addr,
            None => 0,
        }
    }

    /// Reads the tables of the image.
    fn read_tables(loader: &ElfLoader) -> (r: Result<
        (ElfHeader, Vec<SectionHeader>, Vec<ProgramHeader>),
        LoadError,
    >)
        ensures
            match r {
                Ok((h, sections, programs)) => table_error(loader@).is_none() && header_of(
                    loader@,
                ) == Some(h) && sections@ == sections_of(loader@, h) && programs@ == programs_of(
                    loader@,
                    h,
                ),
                Err(e) => table_error(loader@) == Some(e),
            },
    {
        if !loader.is_elf() {
            return Err(LoadError::NotElf);
        }
        let elf_header = match loader.read_elf_header() {
            Some(h) => h,
            None => {
                return Err(LoadError::BadHeader);
            },
        };
        if !matches!(elf_header.e_machine, EMachine::EM_RISCV) {
            return Err(LoadError::NotRiscv);
        }
        if matches!(elf_header.e_indent.ei_classs, EiClass::ELFCLASSNONE) {
            return Err(LoadError::BadClass);
        }
        let sec_headers = match loader.read_section_header(&elf_header) {
            Some(s) => s,
            None => {
                return Err(LoadError::BadSectionHeader);
            },
        };
        let program_headers = match loader.read_program_header(&elf_header) {
            Some(p) => p,
            None => {
                return Err(LoadError::BadProgramHeader);
            },
        };
        Ok((elf_header, sec_headers, program_headers))
    }

    /// Loads the program of the ELF image `loader`: sets the hart's program counter and
    /// width, copies the sections that hold program data into main memory and, in test
    /// mode, looks up the `.tohost` word. An image that cannot be loaded changes nothing.
    pub fn load_program(&mut self, loader: &ElfLoader) -> (r: Result<(), LoadError>)
        ensures
            match r {
                Ok(_) => load_error(loader@, old(self)@.cpu.mmu.bus).is_none() && final(self)@
                    == old(self)@.loaded(loader@),
                Err(e) => load_error(loader@, old(self)@.cpu.mmu.bus) == Some(e) && final(self)@
                    == old(self)@,
            },
    {
        let (elf_header, sec_headers, program_headers) = match Self::read_tables(loader) {
            Ok(t) => t,
            Err(e) => {
                return Err(e);
            },
        };
        if !self.sections_placed(loader, &sec_headers, &program_headers) {
            return Err(LoadError::Misplaced);
        }
        self.cpu.set_pc(elf_header.e_entry);
        self.cpu.set_xlen(
            match elf_header.e_indent.ei_classs {
                EiClass::ELFCLASS32 => Xlen::X32,
                _ => Xlen::X64,
            },
        );
        self.copy_sections(loader, &sec_headers, &program_headers);
        if self.testmode {
            self.tohost = Self::find_tohost(loader, &sec_headers);
        }
        Ok(())
    }

    /// How the test program has ended, if it has.
    pub fn exit_code(&self) -> (r: Option<Result<u32, u32>>)
        ensures
            r == self@.exit_code(),
    {
        if !self.testmode || self.tohost == 0 {
            return None;
        }
        match self.cpu.mmu.read_dram(self.tohost, 4) {
            None => None,
            Some(v) => if v as u32 == 0 {
                None
            } else if v as u32 == 1 {
                Some(Ok(1))
            } else {
                Some(Err(v as u32))
            },
        }
    }

    /// Advances the machine by one tick and tells how the test program has ended, if it
    /// has.
    pub fn step(&mut self) -> (r: Option<Result<u32, u32>>)
        ensures
            final(self)@ == old(self)@.step(),
            r == final(self)@.exit_code(),
    {
        self.cpu.tick();
        self.exit_code()
    }

    /// Runs the machine until the test program ends, for `limit` ticks at most, and tells
    /// how the program ended; `None` where it has not ended within the limit.
    pub fn run(&mut self, limit: u64) -> (r: Option<Result<u32, u32>>)
        ensures
            final(self)@ == old(self)@.run(limit as nat),
            r == old(self)@.run_result(limit as nat),
    {
        let mut left = limit;
        while left > 0
            invariant
                old(self)@.run(limit as nat) == self@.run(left as nat),
                old(self)@.run_result(limit as nat) == self@.run_result(left as nat),
            decreases left,
        {
            let code = self.step();
            if code.is_some() {
                return code;
            }
            left -= 1;
        }
        None
    }
}

} // verus!
