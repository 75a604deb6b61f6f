//! Architectural state of the hart and the loop that advances it.

use crate::console::Terminal;
use crate::cpu::cpu_alu::{alu, branch_taken, extend};
use crate::cpu::cpu_csr::{
    permitted, read_value, refusal, written, Csr, CSR_COUNT, CSR_CYCLE, CSR_INSTRET, CSR_MEDELEG,
    CSR_MIDELEG, CSR_MIE, CSR_MIP, CSR_MSTATUS, CSR_SATP, CSR_SEDELEG, CSR_SIDELEG, CSR_TIME,
};
use crate::cpu::cpu_instruction::{
    decode, signed, unsigned, AluOp, AmoOp, CsrOp, Instruction, Operation, Width,
};
use crate::cpu::cpu_instruction_comp::instruction_decompress;
use crate::cpu::trap::{
    boxed, cause_of, cause_slot, delegated, ecall_of, epc_slot, global_enable, lines_to_mip,
    previous_privilege, select_interrupt, status_on_entry, status_on_return, tval_slot, tvec_slot,
    vector,
};
use crate::machine::Machine;
use crate::mmu::{misaligned, AccessKind, Mmu, MmuView};
use crate::system_bus::SystemBus;
use crate::trap::{Trap, Traps};
use vstd::prelude::*;

verus! {

/// Width of the integer registers.
#[derive(Clone, Copy, Debug, PartialEq, Eq, Structural)]
pub enum Xlen {
    X32,
    X64,
}

/// Privilege level of the hart. `Hypervisor` is reserved: no trap and no return from a trap
/// enters it.
#[derive(Clone, Copy, Debug, PartialEq, Eq, Structural)]
pub enum Privilege {
    User,
    Supervisor,
    Hypervisor,
    Machine,
}

impl Privilege {
    /// The two-bit encoding of the level.
    pub open spec fn spec_level(self) -> u8 {
        match self {
            Privilege::User => 0,
            Privilege::Supervisor => 1,
            Privilege::Hypervisor => 2,
            Privilege::Machine => 3,
        }
    }

    #[verifier::when_used_as_spec(spec_level)]
    pub fn level(self) -> (r: u8)
        ensures
            r == self.spec_level(),
            r <= 3,
    {
        match self {
            Privilege::User => 0,
            Privilege::Supervisor => 1,
            Privilege::Hypervisor => 2,
            Privilege::Machine => 3,
        }
    }

    /// The level that the two low bits of `code` encode.
    pub open spec fn spec_from_level(code: u64) -> Privilege {
        let c = code & 3;
        if c == 0 {
            Privilege::User
        } else if c == 1 {
            Privilege::Supervisor
        } else if c == 2 {
            Privilege::Hypervisor
        } else {
            Privilege::Machine
        }
    }

    #[verifier::when_used_as_spec(spec_from_level)]
    pub fn from_level(code: u64) -> (r: Privilege)
        ensures
            r == Self::spec_from_level(code),
    {
        let c = code & 3;
        if c == 0 {
            Privilege::User
        } else if c == 1 {
            Privilege::Supervisor
        } else if c == 2 {
            Privilege::Hypervisor
        } else {
            Privilege::Machine
        }
    }
}

pub struct Cpu {
    pub pc: u64,
    pub wfi: bool,
    pub xlen: Xlen,
    pub privilege: Privilege,
    pub x: [i64; 32],
    /// The floating-point registers, each as the 64 bits that it holds.
    pub f: [u64; 32],
    pub csr: Csr,
    pub mmu: Mmu,
}

/// What a `Cpu` holds.
pub struct CpuView {
    pub pc: u64,
    /// Whether the hart waits for an interrupt.
    pub wfi: bool,
    pub xlen: Xlen,
    pub privilege: Privilege,
    pub x: Seq<i64>,
    pub f: Seq<u64>,
    pub csr: Seq<u64>,
    pub mmu: MmuView,
}

impl View for Cpu {
    type V = CpuView;

    open spec fn view(&self) -> CpuView {
        CpuView {
            pc: self.pc,
            wfi: self.wfi,
            xlen: self.xlen,
            privilege: self.privilege,
            x: self.x@,
            f: self.f@,
            csr: self.csr@,
            mmu: self.mmu@,
        }
    }
}

/// The exception of an instruction that the hart refuses.
pub open spec fn illegal(value: u64) -> Trap {
    Trap { factor: Traps::IllegalInstruction, value }
}

impl CpuView {
    /// A 64-bit hart in machine mode at address 0 with every register zero, in front of
    /// the bus of the machine `machine` with the terminal `tty`.
    pub open spec fn init(machine: Machine, tty: crate::console::TerminalView) -> CpuView {
        CpuView {
            pc: 0,
            wfi: false,
            xlen: Xlen::X64,
            privilege: Privilege::Machine,
            x: Seq::new(32, |i: int| 0i64),
            f: Seq::new(32, |i: int| 0u64),
            csr: Seq::new(CSR_COUNT as nat, |i: int| 0u64),
            mmu: MmuView::init(Xlen::X64, crate::system_bus::BusView::init(machine, tty)),
        }
    }

    /// The shape that every hart has.
    pub open spec fn wf(self) -> bool {
        self.x.len() == 32 && self.f.len() == 32 && self.csr.len() == CSR_COUNT && self.mmu.wf()
    }

    /// The hart after `v` was written to the register `rd`: register 0 takes nothing, and a
    /// 32-bit hart keeps the low 32 bits, sign-extended.
    pub open spec fn set_x(self, rd: u8, v: i64) -> CpuView {
        if rd == 0 {
            self
        } else {
            CpuView { x: self.x.update(rd as int, signed(self.xlen, v)), ..self }
        }
    }

    /// The hart after a jump to `target`.
    pub open spec fn set_pc(self, target: u64) -> CpuView {
        CpuView { pc: unsigned(self.xlen, target as i64), ..self }
    }

    /// The level that takes a trap with the cause `factor`: the delegation registers for
    /// interrupts decide for an interrupt, those for exceptions for an exception.
    pub open spec fn target_of(self, factor: Traps) -> Privilege {
        if factor.is_interrupt() {
            delegated(
                self.csr[CSR_MIDELEG as int],
                self.csr[CSR_SIDELEG as int],
                factor.code(),
            )
        } else {
            delegated(
                self.csr[CSR_MEDELEG as int],
                self.csr[CSR_SEDELEG as int],
                factor.code(),
            )
        }
    }

    /// The hart after it has taken the trap `trap` with `epc` as the address to return to.
    /// The level that takes the trap saves `epc`, the cause and the trap value in its
    /// registers; its interrupt enable moves to the previous-enable bit and is cleared; its
    /// previous-privilege field takes the level that the hart comes from; the hart goes to
    /// that level and to the address that the level's trap vector gives; the hart no
    /// longer waits for an interrupt, and its reservation is given up.
    pub open spec fn entered(self, trap: Trap, epc: u64) -> CpuView {
        let target = self.target_of(trap.factor);
        CpuView {
            csr: self.csr.update(
                CSR_MSTATUS as int,
                status_on_entry(self.csr[CSR_MSTATUS as int], target, self.privilege),
            ).update(epc_slot(target) as int, epc).update(
                cause_slot(target) as int,
                cause_of(self.xlen, trap.factor),
            ).update(tval_slot(target) as int, trap.value),
            privilege: target,
            pc: vector(self.xlen, self.csr[tvec_slot(target) as int], trap.factor),
            wfi: false,
            mmu: MmuView { bus: self.mmu.bus.release(), ..self.mmu },
            ..self
        }
    }

    /// The interrupt that the hart takes before its next instruction, if any.
    pub open spec fn interrupt(self) -> Option<Traps> {
        select_interrupt(
            self.csr[CSR_MIP as int] & self.csr[CSR_MIE as int],
            self.csr[CSR_MIDELEG as int],
            self.csr[CSR_SIDELEG as int],
            self.csr[CSR_MSTATUS as int],
            self.privilege,
        )
    }

    /// The address that a load or store instruction accesses: the base register plus the
    /// immediate.
    pub open spec fn address(self, i: Instruction) -> u64 {
        self.x[i.rs1 as int].wrapping_add(i.imm) as u64
    }

    /// The hart after a load, and the fault that the load raises, if any.
    pub open spec fn load(self, i: Instruction, width: Width, is_signed: bool) -> (
        CpuView,
        Result<(), Trap>,
    ) {
        let va = self.address(i);
        let c = CpuView { mmu: self.mmu.loaded(va, width.bytes() as int), ..self };
        match self.mmu.load_value(va, width.bytes() as int) {
            Ok(v) => (c.set_x(i.rd, extend(v, width, is_signed)), Ok(())),
            Err(e) => (c, Err(e)),
        }
    }

    /// The hart after a store of the low bytes of `data`, and the fault that the store
    /// raises, if any.
    pub open spec fn store(self, i: Instruction, width: Width, data: u64) -> (
        CpuView,
        Result<(), Trap>,
    ) {
        let va = self.address(i);
        let c = CpuView { mmu: self.mmu.stored(va, data, width.bytes() as int), ..self };
        match self.mmu.store_value(va, data, width.bytes() as int) {
            Ok(_) => (c, Ok(())),
            Err(e) => (c, Err(e)),
        }
    }

    /// The hart after a floating-point load, and the fault that the load raises, if any.
    pub open spec fn fp_load(self, i: Instruction, width: Width) -> (CpuView, Result<(), Trap>) {
        let va = self.address(i);
        let c = CpuView { mmu: self.mmu.loaded(va, width.bytes() as int), ..self };
        match self.mmu.load_value(va, width.bytes() as int) {
            Ok(v) => (CpuView { f: c.f.update(i.rd as int, boxed(v, width)), ..c }, Ok(())),
            Err(e) => (c, Err(e)),
        }
    }

    /// The hart after an arithmetic instruction: the destination takes what the operation
    /// makes of the first source and of the second source or the immediate, at the width of
    /// the hart or, for the forms on words, at 32 bits.
    pub open spec fn arithmetic(self, i: Instruction, op: AluOp, word: bool, immediate: bool) -> CpuView {
        self.set_x(
            i.rd,
            alu(
                op,
                if word {
                    Xlen::X32
                } else {
                    self.xlen
                },
                self.x[i.rs1 as int],
                if immediate {
                    i.imm
                } else {
                    self.x[i.rs2 as int]
                },
            ),
        )
    }

    /// The operand of a CSR instruction: the first source or, in the immediate forms, the
    /// number in its place.
    pub open spec fn csr_operand(self, i: Instruction, immediate: bool) -> u64 {
        if immediate {
            i.rs1 as u64
        } else {
            self.x[i.rs1 as int] as u64
        }
    }

    /// The hart after a CSR instruction at `addr`, and the exception that it raises, if
    /// any. An access from too low a privilege raises an illegal-instruction exception and
    /// changes nothing. Otherwise the destination takes the value of the register; the
    /// register takes the operand (CSRRW), or has the bits of the operand set (CSRRS) or
    /// cleared (CSRRC), where for the last two nothing is written if the first source is
    /// register 0 or immediate 0.
    pub open spec fn csr_access(self, i: Instruction, action: CsrOp, immediate: bool, addr: u64) -> (
        CpuView,
        Result<(), Trap>,
    ) {
        let a = i.imm as u16;
        let operand = self.csr_operand(i, immediate);
        let before = read_value(self.csr, a);
        if !permitted(a, self.privilege) {
            (self, Err(refusal(addr)))
        } else {
            let c = match action {
                CsrOp::ReadWrite => CpuView { csr: written(self.csr, a, operand), ..self },
                CsrOp::ReadSet => if i.rs1 != 0 {
                    CpuView { csr: written(self.csr, a, before | operand), ..self }
                } else {
                    self
                },
                CsrOp::ReadClear => if i.rs1 != 0 {
                    CpuView { csr: written(self.csr, a, before & !operand), ..self }
                } else {
                    self
                },
            };
            (c.set_x(i.rd, before as i64), Ok(()))
        }
    }

    /// The hart after a return from a trap of the level `level` at `addr`, and the
    /// exception that it raises, if any: below that level the instruction is illegal.
    /// Otherwise the hart goes to the level's exception program counter and to the level in
    /// the previous-privilege field; the level's interrupt enable takes the previous-enable
    /// bit, which is set; the previous-privilege field is set to user.
    pub open spec fn trap_return(self, level: Privilege, addr: u64) -> (CpuView, Result<(), Trap>) {
        if self.privilege.level() < level.level() {
            (self, Err(illegal(addr)))
        } else {
            (
                CpuView {
                    pc: unsigned(self.xlen, self.csr[epc_slot(level) as int] as i64),
                    privilege: previous_privilege(self.csr[CSR_MSTATUS as int], level),
                    csr: self.csr.update(
                        CSR_MSTATUS as int,
                        status_on_return(self.csr[CSR_MSTATUS as int], level),
                    ),
                    ..self
                },
                Ok(()),
            )
        }
    }

    /// The hart after SFENCE.VMA at `addr`, and the exception that it raises, if any: the
    /// translation cache is emptied; at user level the instruction is illegal.
    pub open spec fn fence_vma(self, addr: u64) -> (CpuView, Result<(), Trap>) {
        if self.privilege == Privilege::User {
            (self, Err(illegal(addr)))
        } else {
            (CpuView { mmu: self.mmu.flushed(), ..self }, Ok(()))
        }
    }

    /// The hart after a load-reserved, and the fault that it raises, if any.
    pub open spec fn load_reserved(self, i: Instruction, width: Width) -> (
        CpuView,
        Result<(), Trap>,
    ) {
        let (m, r) = self.mmu.reserved_load(self.x[i.rs1 as int] as u64, width.bytes() as int);
        let c = CpuView { mmu: m, ..self };
        match r {
            Ok(v) => (c.set_x(i.rd, extend(v, width, true)), Ok(())),
            Err(e) => (c, Err(e)),
        }
    }

    /// The hart after a store-conditional, and the fault that it raises, if any: the
    /// destination takes 0 where the store was performed and 1 where it was not.
    pub open spec fn store_conditional(self, i: Instruction, width: Width) -> (
        CpuView,
        Result<(), Trap>,
    ) {
        let (m, r) = self.mmu.conditional_store(
            self.x[i.rs1 as int] as u64,
            self.x[i.rs2 as int] as u64,
            width.bytes() as int,
        );
        let c = CpuView { mmu: m, ..self };
        match r {
            Ok(done) => (
                c.set_x(
                    i.rd,
                    if done {
                        0
                    } else {
                        1
                    },
                ),
                Ok(()),
            ),
            Err(e) => (c, Err(e)),
        }
    }

    /// The hart after an atomic memory operation, and the fault that it raises, if any: the
    /// destination takes the value that the memory held.
    pub open spec fn atomic(self, i: Instruction, op: AmoOp, width: Width) -> (
        CpuView,
        Result<(), Trap>,
    ) {
        let (m, r) = self.mmu.atomic(self.x[i.rs1 as int] as u64, op, width, self.x[i.rs2 as int]);
        let c = CpuView { mmu: m, ..self };
        match r {
            Ok(v) => (c.set_x(i.rd, extend(v, width, true)), Ok(())),
            Err(e) => (c, Err(e)),
        }
    }

    /// The hart after the instruction `i`, fetched at `addr`, and the exception that the
    /// instruction raises, if any. The program counter of the hart already points behind
    /// the instruction.
    pub open spec fn execute(self, i: Instruction, addr: u64) -> (CpuView, Result<(), Trap>) {
        match i.operation {
            Operation::Load { width, signed } => self.load(i, width, signed),
            Operation::Store { width } => self.store(i, width, self.x[i.rs2 as int] as u64),
            Operation::FpLoad { width } => self.fp_load(i, width),
            Operation::FpStore { width } => self.store(i, width, self.f[i.rs2 as int]),
            Operation::Fence => (self, Ok(())),
            Operation::Alu { op, word, immediate } => (
                self.arithmetic(i, op, word, immediate),
                Ok(()),
            ),
            Operation::Lui => (self.set_x(i.rd, i.imm), Ok(())),
            Operation::Auipc => (self.set_x(i.rd, addr.wrapping_add(i.imm as u64) as i64), Ok(())),
            Operation::Jal => (
                self.set_pc(addr.wrapping_add(i.imm as u64)).set_x(i.rd, self.pc as i64),
                Ok(()),
            ),
            Operation::Jalr => (
                self.set_pc(
                    (self.x[i.rs1 as int].wrapping_add(i.imm) as u64) & 0xffff_ffff_ffff_fffe,
                ).set_x(i.rd, self.pc as i64),
                Ok(()),
            ),
            Operation::Branch(op) => (
                if branch_taken(op, self.xlen, self.x[i.rs1 as int], self.x[i.rs2 as int]) {
                    self.set_pc(addr.wrapping_add(i.imm as u64))
                } else {
                    self
                },
                Ok(()),
            ),
            Operation::Csr { action, immediate } => self.csr_access(i, action, immediate, addr),
            Operation::Ecall => (self, Err(Trap { factor: ecall_of(self.privilege), value: 0 })),
            Operation::Ebreak => (self, Err(Trap { factor: Traps::Breakpoint, value: addr })),
            Operation::Uret => self.trap_return(Privilege::User, addr),
            Operation::Sret => self.trap_return(Privilege::Supervisor, addr),
            Operation::Mret => self.trap_return(Privilege::Machine, addr),
            Operation::Wfi => (CpuView { wfi: true, ..self }, Ok(())),
            Operation::SfenceVma => self.fence_vma(addr),
            Operation::LoadReserved { width } => self.load_reserved(i, width),
            Operation::StoreConditional { width } => self.store_conditional(i, width),
            Operation::Amo { combine, width } => self.atomic(i, combine, width),
        }
    }

    /// The hart after the fetch of the instruction at its program counter, and the
    /// instruction word, expanded where it is a compressed one, or the exception raised. An
    /// odd program counter raises a misaligned-fetch exception; a fault of the fetch of
    /// either half-word is raised with the program counter as its value; a half-word that
    /// is no compressed instruction raises an illegal-instruction exception with the
    /// half-word as its value. After a fetch the program counter points behind the
    /// instruction.
    pub open spec fn fetch(self) -> (CpuView, Result<u32, Trap>) {
        let pc = self.pc;
        if pc % 2 != 0 {
            (self, Err(misaligned(AccessKind::Fetch, pc)))
        } else {
            let m1 = self.mmu.fetched(pc);
            match self.mmu.fetch_value(pc) {
                Err(e) => (CpuView { mmu: m1, ..self }, Err(Trap { factor: e.factor, value: pc })),
                Ok(lo) => if (lo as u16) & 0x3 == 0x3 {
                    let m2 = m1.fetched(pc.wrapping_add(2));
                    match m1.fetch_value(pc.wrapping_add(2)) {
                        Err(e) => (
                            CpuView { mmu: m2, ..self },
                            Err(Trap { factor: e.factor, value: pc }),
                        ),
                        Ok(hi) => (
                            CpuView { mmu: m2, pc: pc.wrapping_add(4), ..self },
                            Ok(((lo as u16) as u32) | (((hi as u16) as u32) << 16)),
                        ),
                    }
                } else {
                    let c = CpuView { mmu: m1, pc: pc.wrapping_add(2), ..self };
                    match instruction_decompress(self.xlen, (lo as u16) as u32) {
                        Some(word) => (c, Ok(word)),
                        None => (c, Err(illegal((lo as u16) as u64))),
                    }
                },
            }
        }
    }

    /// The hart after the attempt to fetch and execute one instruction, and the exception
    /// that the attempt raises, if any. A word that encodes no instruction raises an
    /// illegal-instruction exception with the word as its value.
    pub open spec fn tick_do(self) -> (CpuView, Result<(), Trap>) {
        let (c, fetched) = self.fetch();
        match fetched {
            Err(e) => (c, Err(e)),
            Ok(word) => match decode(self.xlen, word) {
                None => (c, Err(illegal(word as u64))),
                Some(i) => c.execute(i, self.pc),
            },
        }
    }

    /// The hart with its memory-management unit told the hart's width, privilege level,
    /// `satp` and `mstatus`.
    pub open spec fn synced(self) -> CpuView {
        CpuView {
            mmu: self.mmu.with_context(
                self.xlen,
                self.privilege,
                self.csr[CSR_SATP as int],
                self.csr[CSR_MSTATUS as int],
            ),
            ..self
        }
    }

    /// The hart after the bus has advanced by one tick: the driven bits of `mip` follow
    /// the interrupt lines, the cycle counter has advanced and the time register shows the
    /// timer's counter.
    pub open spec fn advanced(self) -> CpuView {
        let bus = self.mmu.bus.tick();
        let lines = self.mmu.bus.tick_lines();
        CpuView {
            mmu: MmuView { bus, ..self.mmu },
            csr: self.csr.update(
                CSR_MIP as int,
                lines_to_mip(
                    self.csr[CSR_MIP as int],
                    lines[3],
                    lines[1],
                    lines[0],
                    bus.timer.spec_timer(0),
                    bus.timer.spec_software(0),
                ),
            ).update(CSR_CYCLE as int, self.csr[CSR_CYCLE as int].wrapping_add(1)).update(
                CSR_TIME as int,
                bus.timer.mtime,
            ),
            ..self
        }
    }

    /// The hart after an instruction has retired: the counter of retired instructions has
    /// advanced.
    pub open spec fn retired(self) -> CpuView {
        CpuView {
            csr: self.csr.update(
                CSR_INSTRET as int,
                self.csr[CSR_INSTRET as int].wrapping_add(1),
            ),
            ..self
        }
    }

    /// The hart with register 0 rewritten to zero.
    pub open spec fn zeroed(self) -> CpuView {
        CpuView { x: self.x.update(0, 0), ..self }
    }

    /// Whether the hart stays halted: it waits for an interrupt and none is both pending
    /// and enabled in `mie`.
    pub open spec fn halted(self) -> bool {
        self.wfi && (self.csr[CSR_MIP as int] & self.csr[CSR_MIE as int]) == 0
    }

    /// The hart after the instruction step of a tick: an interrupt is taken where one is
    /// due; otherwise one instruction is fetched and executed, and it retires or its
    /// exception is taken with the instruction's address as the address to return to.
    pub open spec fn stepped(self) -> CpuView {
        match self.interrupt() {
            Some(factor) => self.entered(Trap { factor, value: 0 }, self.pc),
            None => {
                let (c, r) = self.synced().tick_do();
                match r {
                    Ok(_) => c.retired(),
                    Err(e) => c.entered(e, self.pc),
                }
            },
        }
    }

    /// The hart one tick later: the bus advances; then a hart that stays halted does
    /// nothing more, and any other hart stops waiting and takes its instruction step; at
    /// the end register 0 is zero.
    pub open spec fn tick(self) -> CpuView {
        let a = self.advanced();
        if a.halted() {
            a.zeroed()
        } else {
            (CpuView { wfi: false, ..a }).stepped().zeroed()
        }
    }
}

impl Cpu {
    pub fn new(machine: Machine, tty: Terminal) -> (cpu: Self)
        ensures
            cpu@ == CpuView::init(machine, tty@),
            cpu@.wf(),
    {
        let cpu = Cpu {
            pc: 0,
            wfi: false,
            xlen: Xlen::X64,
            privilege: Privilege::Machine,
            x: [0; 32],
            f: [0; 32],
            csr: Csr::new(),
            mmu: Mmu::new(Xlen::X64, SystemBus::new(machine, tty)),
        };
        assert(cpu@.x =~= Seq::new(32, |i: int| 0i64));
        assert(cpu@.f =~= Seq::new(32, |i: int| 0u64));
        proof {
            cpu.csr.lemma_len();
            cpu.mmu.lemma_wf();
        }
        cpu
    }

    /// Every hart has the shape `wf`.
    pub proof fn lemma_wf(&self)
        ensures
            self@.wf(),
    {
        self.csr.lemma_len();
        self.mmu.lemma_wf();
    }

    pub fn reset(&mut self)
        ensures
            final(self)@ == (CpuView { pc: 0, privilege: Privilege::Machine, ..old(self)@ }),
    {
        self.pc = 0;
        self.privilege = Privilege::Machine;
    }

    pub fn set_pc(&mut self, pc: u64)
        ensures
            final(self)@ == (CpuView { pc, ..old(self)@ }),
    {
        self.pc = pc;
    }

    pub fn set_xlen(&mut self, xlen: Xlen)
        ensures
            final(self)@ == (CpuView {
                xlen,
                mmu: MmuView { xlen, ..old(self)@.mmu },
                ..old(self)@
            }),
    {
        self.xlen = xlen;
        self.mmu.set_xlen(&self.xlen);
    }

    /// Writes `v` to the register `rd`.
    pub fn write_x(&mut self, rd: u8, v: i64)
        requires
            rd < 32,
        ensures
            final(self)@ == old(self)@.set_x(rd, v),
    {
        if rd != 0 {
            self.x[rd as usize] = signed(self.xlen, v);
        }
    }

    /// Takes the trap `trap` with `addr` as the address to return to.
    pub fn catch_exception(&mut self, trap: Trap, addr: u64)
        ensures
            final(self)@ == old(self)@.entered(trap, addr),
    {
        let code = trap.factor.code();
        let target = if trap.factor.is_interrupt() {
            delegated(
                self.csr.read_direct(CSR_MIDELEG),
                self.csr.read_direct(CSR_SIDELEG),
                code,
            )
        } else {
            delegated(
                self.csr.read_direct(CSR_MEDELEG),
                self.csr.read_direct(CSR_SEDELEG),
                code,
            )
        };
        let tvec = self.csr.read_direct(tvec_slot(target));
        let mstatus = self.csr.read_direct(CSR_MSTATUS);
        self.csr.write_direct(CSR_MSTATUS, status_on_entry(mstatus, target, self.privilege));
        self.csr.write_direct(epc_slot(target), addr);
        self.csr.write_direct(cause_slot(target), cause_of(self.xlen, trap.factor));
        self.csr.write_direct(tval_slot(target), trap.value);
        self.privilege = target;
        self.pc = vector(self.xlen, tvec, trap.factor);
        self.wfi = false;
        self.mmu.release();
    }

    /// The interrupt that the hart takes before its next instruction, if any.
    pub fn check_interrupt(&self) -> (r: Option<Traps>)
        ensures
            r == self@.interrupt(),
    {
        select_interrupt(
            self.csr.read_direct(CSR_MIP) & self.csr.read_direct(CSR_MIE),
            self.csr.read_direct(CSR_MIDELEG),
            self.csr.read_direct(CSR_SIDELEG),
            self.csr.read_direct(CSR_MSTATUS),
            self.privilege,
        )
    }

    /// Takes the interrupt `interrupt` between two instructions.
    pub fn interrupt_handler(&mut self, interrupt: Traps)
        ensures
            final(self)@ == old(self)@.entered(Trap { factor: interrupt, value: 0 }, old(self)@.pc),
    {
        let pc = self.pc;
        self.catch_exception(Trap { factor: interrupt, value: 0 }, pc);
    }

    fn load(&mut self, i: &Instruction, width: Width, is_signed: bool) -> (r: Result<(), Trap>)
        requires
            i.wf(),
        ensures
            (final(self)@, r) == old(self)@.load(*i, width, is_signed),
    {
        let va = self.x[i.rs1 as usize].wrapping_add(i.imm) as u64;
        let v = self.mmu.load(va, width.bytes())?;
        self.write_x(i.rd, extend(v, width, is_signed));
        Ok(())
    }

    fn store(&mut self, i: &Instruction, width: Width, data: u64) -> (r: Result<(), Trap>)
        requires
            i.wf(),
        ensures
            (final(self)@, r) == old(self)@.store(*i, width, data),
    {
        let va = self.x[i.rs1 as usize].wrapping_add(i.imm) as u64;
        match self.mmu.store(va, data, width.bytes()) {
            Ok(_) => Ok(()),
            Err(e) => Err(e),
        }
    }

    fn fp_load(&mut self, i: &Instruction, width: Width) -> (r: Result<(), Trap>)
        requires
            i.wf(),
        ensures
            (final(self)@, r) == old(self)@.fp_load(*i, width),
    {
        let va = self.x[i.rs1 as usize].wrapping_add(i.imm) as u64;
        let v = self.mmu.load(va, width.bytes())?;
        self.f[i.rd as usize] = boxed(v, width);
        Ok(())
    }

    fn csr_access(&mut self, i: &Instruction, action: CsrOp, immediate: bool, addr: u64) -> (r:
        Result<(), Trap>)
        requires
            i.wf(),
            i.operation is Csr,
        ensures
            (final(self)@, r) == old(self)@.csr_access(*i, action, immediate, addr),
    {
        let a = i.imm as u16;
        let operand = if immediate {
            i.rs1 as u64
        } else {
            self.x[i.rs1 as usize] as u64
        };
        let before = self.csr.read(a, addr, &self.privilege)?;
        match action {
            CsrOp::ReadWrite => {
                let _ = self.csr.write(a, operand, addr, &self.privilege);
            },
            CsrOp::ReadSet => {
                if i.rs1 != 0 {
                    let _ = self.csr.write(a, before | operand, addr, &self.privilege);
                }
            },
            CsrOp::ReadClear => {
                if i.rs1 != 0 {
                    let _ = self.csr.write(a, before & !operand, addr, &self.privilege);
                }
            },
        }
        self.write_x(i.rd, before as i64);
        Ok(())
    }

    fn trap_return(&mut self, level: Privilege, addr: u64) -> (r: Result<(), Trap>)
        ensures
            (final(self)@, r) == old(self)@.trap_return(level, addr),
    {
        if self.privilege.level() < level.level() {
            return Err(Trap { factor: Traps::IllegalInstruction, value: addr });
        }
        let mstatus = self.csr.read_direct(CSR_MSTATUS);
        self.pc = unsigned(self.xlen, self.csr.read_direct(epc_slot(level)) as i64);
        self.privilege = previous_privilege(mstatus, level);
        self.csr.write_direct(CSR_MSTATUS, status_on_return(mstatus, level));
        Ok(())
    }

    fn fence_vma(&mut self, addr: u64) -> (r: Result<(), Trap>)
        ensures
            (final(self)@, r) == old(self)@.fence_vma(addr),
    {
        if matches!(self.privilege, Privilege::User) {
            return Err(Trap { factor: Traps::IllegalInstruction, value: addr });
        }
        self.mmu.flush();
        Ok(())
    }

    fn load_reserved(&mut self, i: &Instruction, width: Width) -> (r: Result<(), Trap>)
        requires
            i.wf(),
        ensures
            (final(self)@, r) == old(self)@.load_reserved(*i, width),
    {
        let v = self.mmu.load_reserved(self.x[i.rs1 as usize] as u64, width.bytes())?;
        self.write_x(i.rd, extend(v, width, true));
        Ok(())
    }

    fn store_conditional(&mut self, i: &Instruction, width: Width) -> (r: Result<(), Trap>)
        requires
            i.wf(),
        ensures
            (final(self)@, r) == old(self)@.store_conditional(*i, width),
    {
        let done = self.mmu.store_conditional(
            self.x[i.rs1 as usize] as u64,
            self.x[i.rs2 as usize] as u64,
            width.bytes(),
        )?;
        self.write_x(
            i.rd,
            if done {
                0
            } else {
                1
            },
        );
        Ok(())
    }

    fn atomic(&mut self, i: &Instruction, op: AmoOp, width: Width) -> (r: Result<(), Trap>)
        requires
            i.wf(),
        ensures
            (final(self)@, r) == old(self)@.atomic(*i, op, width),
    {
        let v = self.mmu.atomic(self.x[i.rs1 as usize] as u64, op, width, self.x[i.rs2 as usize])?;
        self.write_x(i.rd, extend(v, width, true));
        Ok(())
    }

    /// Executes the instruction `i` that was fetched at `addr`.
    pub fn execute(&mut self, i: &Instruction, addr: u64) -> (r: Result<(), Trap>)
        requires
            i.wf(),
        ensures
            (final(self)@, r) == old(self)@.execute(*i, addr),
    {
        match i.operation {
            Operation::Load { width, signed } => self.load(i, width, signed),
            Operation::Store { width } => {
                let data = self.x[i.rs2 as usize] as u64;
                self.store(i, width, data)
            },
            Operation::FpLoad { width } => self.fp_load(i, width),
            Operation::FpStore { width } => {
                let data = self.f[i.rs2 as usize];
                self.store(i, width, data)
            },
            Operation::Fence => Ok(()),
            Operation::Alu { op, word, immediate } => {
                let b = if immediate {
                    i.imm
                } else {
                    self.x[i.rs2 as usize]
                };
                let w = if word {
                    Xlen::X32
                } else {
                    self.xlen
                };
                let v = alu(op, w, self.x[i.rs1 as usize], b);
                self.write_x(i.rd, v);
                Ok(())
            },
            Operation::Lui => {
                self.write_x(i.rd, i.imm);
                Ok(())
            },
            Operation::Auipc => {
                self.write_x(i.rd, addr.wrapping_add(i.imm as u64) as i64);
                Ok(())
            },
            Operation::Jal => {
                let link = self.pc as i64;
                self.pc = unsigned(self.xlen, addr.wrapping_add(i.imm as u64) as i64);
                self.write_x(i.rd, link);
                Ok(())
            },
            Operation::Jalr => {
                let link = self.pc as i64;
                let target = (self.x[i.rs1 as usize].wrapping_add(i.imm) as u64)
                    & 0xffff_ffff_ffff_fffe;
                self.pc = unsigned(self.xlen, target as i64);
                self.write_x(i.rd, link);
                Ok(())
            },
            Operation::Branch(op) => {
                if branch_taken(op, self.xlen, self.x[i.rs1 as usize], self.x[i.rs2 as usize]) {
                    self.pc = unsigned(self.xlen, addr.wrapping_add(i.imm as u64) as i64);
                }
                Ok(())
            },
            Operation::Csr { action, immediate } => self.csr_access(i, action, immediate, addr),
            Operation::Ecall => Err(Trap { factor: ecall_of(self.privilege), value: 0 }),
            Operation::Ebreak => Err(Trap { factor: Traps::Breakpoint, value: addr }),
            Operation::Uret => self.trap_return(Privilege::User, addr),
            Operation::Sret => self.trap_return(Privilege::Supervisor, addr),
            Operation::Mret => self.trap_return(Privilege::Machine, addr),
            Operation::Wfi => {
                self.wfi = true;
                Ok(())
            },
            Operation::SfenceVma => self.fence_vma(addr),
            Operation::LoadReserved { width } => self.load_reserved(i, width),
            Operation::StoreConditional { width } => self.store_conditional(i, width),
            Operation::Amo { combine, width } => self.atomic(i, combine, width),
        }
    }

    /// Fetches the instruction at the program counter and moves the program counter
    /// behind it.
    pub fn fetch(&mut self) -> (r: Result<u32, Trap>)
        ensures
            (final(self)@, r) == old(self)@.fetch(),
    {
        let pc = self.pc;
        if pc % 2 != 0 {
            return Err(misaligned(AccessKind::Fetch, pc));
        }
        let lo = match self.mmu.fetch16(pc) {
            Ok(h) => h,
            Err(e) => {
                return Err(Trap { factor: e.factor, value: pc });
            },
        };
        if lo & 0x3 == 0x3 {
            let hi = match self.mmu.fetch16(pc.wrapping_add(2)) {
                Ok(h) => h,
                Err(e) => {
                    return Err(Trap { factor: e.factor, value: pc });
                },
            };
            self.pc = pc.wrapping_add(4);
            Ok((lo as u32) | ((hi as u32) << 16))
        } else {
            self.pc = pc.wrapping_add(2);
            match instruction_decompress(self.xlen, lo as u32) {
                Some(word) => Ok(word),
                None => Err(Trap { factor: Traps::IllegalInstruction, value: lo as u64 }),
            }
        }
    }

    /// Fetches and executes one instruction.
    pub fn tick_do(&mut self) -> (r: Result<(), Trap>)
        ensures
            (final(self)@, r) == old(self)@.tick_do(),
    {
        let instruction_addr = self.pc;
        let word = self.fetch()?;
        match decode(self.xlen, word) {
            None => Err(Trap { factor: Traps::IllegalInstruction, value: word as u64 }),
            Some(i) => self.execute(&i, instruction_addr),
        }
    }

    /// Advances the bus by one tick and samples its interrupt lines.
    fn advance(&mut self)
        ensures
            final(self)@ == old(self)@.advanced(),
    {
        let irqs = self.mmu.get_bus().tick();
        let timer = self.mmu.get_bus().is_pending_timer_interrupt(0);
        let software = self.mmu.get_bus().is_pending_software_interrupt(0);
        let mtime = self.mmu.get_bus().mtime();
        let mip = self.csr.read_direct(CSR_MIP);
        let cycle = self.csr.read_direct(CSR_CYCLE);
        self.csr.write_direct(
            CSR_MIP,
            lines_to_mip(mip, irqs[3], irqs[1], irqs[0], timer, software),
        );
        self.csr.write_direct(CSR_CYCLE, cycle.wrapping_add(1));
        self.csr.write_direct(CSR_TIME, mtime);
    }

    /// The instruction step of a tick.
    fn step(&mut self)
        ensures
            final(self)@ == old(self)@.stepped(),
    {
        match self.check_interrupt() {
            Some(interrupt) => self.interrupt_handler(interrupt),
            None => {
                let instruction_addr = self.pc;
                self.mmu.set_context(
                    self.xlen,
                    self.privilege,
                    self.csr.read_direct(CSR_SATP),
                    self.csr.read_direct(CSR_MSTATUS),
                );
                match self.tick_do() {
                    Ok(()) => {
                        let n = self.csr.read_direct(CSR_INSTRET);
                        self.csr.write_direct(CSR_INSTRET, n.wrapping_add(1));
                    },
                    Err(e) => self.catch_exception(e, instruction_addr),
                }
            },
        }
    }

    /// Advances the hart by one tick: the bus advances once, and the hart retires at most
    /// one instruction, takes a trap, or stays halted.
    pub fn tick(&mut self)
        ensures
            final(self)@ == old(self)@.tick(),
            final(self)@.x[0] == 0,
    {
        self.advance();
        let halted = self.wfi && (self.csr.read_direct(CSR_MIP) & self.csr.read_direct(CSR_MIE))
            == 0;
        if !halted {
            self.wfi = false;
            self.step();
        }
        self.x[0] = 0;
    }
}


/// Whether `v` is a 32-bit value, sign-extended.
pub open spec fn fits_word(v: i64) -> bool {
    v as i32 as i64 == v
}

/// What a register of a 32-bit hart takes is a 32-bit value, sign-extended.
proof fn lemma_signed_fits(v: i64)
    by (bit_vector)
    ensures
        ((v as i32) as i64) as i32 as i64 == (v as i32) as i64,
        (0i64 as i32) as i64 == 0i64,
{
}

/// The fields of `mstatus` that a trap sets: the interrupt enable of the level that takes
/// the trap is clear, and the previous-privilege field holds the level that the hart came
/// from, as far as the field has room for it.
proof fn lemma_status_fields(mstatus: u64, from: u64)
    by (bit_vector)
    requires
        from <= 3,
    ensures
        ((mstatus & !0x1888u64) | (((mstatus >> 3) & 1) << 7) | (from << 11)) & 0x8 == 0,
        (((mstatus & !0x1888u64) | (((mstatus >> 3) & 1) << 7) | (from << 11)) >> 11) & 3 == from,
        ((mstatus & !0x122u64) | (((mstatus >> 1) & 1) << 5) | ((from & 1) << 8)) & 0x2 == 0,
        ((((mstatus & !0x122u64) | (((mstatus >> 1) & 1) << 5) | ((from & 1) << 8)) >> 8) & 1) & 3
            == from & 1,
        ((mstatus & !0x11u64) | ((mstatus & 1) << 4)) & 0x1 == 0,
        from & 3 == from,
        (from & 1) <= 1,
{
}

/// Whether the integer registers of `after` are those of `c` but for at most one, which
/// holds a value as the width of `c` extends it.
pub open spec fn writes_one(c: CpuView, after: CpuView) -> bool {
    after.x == c.x || exists|rd: int, v: i64|
        0 <= rd < 32 && after.x == #[trigger] c.x.update(rd, signed(c.xlen, v))
}

/// A write to a register changes at most that register.
proof fn lemma_set_x(c: CpuView, base: CpuView, rd: u8, v: i64)
    requires
        base.x == c.x,
        base.xlen == c.xlen,
        rd < 32,
    ensures
        writes_one(c, base.set_x(rd, v)),
{
    if rd != 0 {
        assert(base.set_x(rd, v).x == c.x.update(rd as int, signed(c.xlen, v)));
    }
}

/// A load changes at most its destination register.
proof fn lemma_load_writes_one(c: CpuView, i: Instruction, width: Width, is_signed: bool)
    requires
        i.wf(),
    ensures
        writes_one(c, c.load(i, width, is_signed).0),
{
    let va = c.address(i);
    let base = CpuView { mmu: c.mmu.loaded(va, width.bytes() as int), ..c };
    match c.mmu.load_value(va, width.bytes() as int) {
        Ok(v) => lemma_set_x(c, base, i.rd, extend(v, width, is_signed)),
        Err(e) => {},
    }
}

/// A load-reserved changes at most its destination register.
proof fn lemma_load_reserved_writes_one(c: CpuView, i: Instruction, width: Width)
    requires
        i.wf(),
    ensures
        writes_one(c, c.load_reserved(i, width).0),
{
    let (m, r) = c.mmu.reserved_load(c.x[i.rs1 as int] as u64, width.bytes() as int);
    let base = CpuView { mmu: m, ..c };
    match r {
        Ok(v) => lemma_set_x(c, base, i.rd, extend(v, width, true)),
        Err(e) => {},
    }
}

/// A store-conditional changes at most its destination register.
proof fn lemma_store_conditional_writes_one(c: CpuView, i: Instruction, width: Width)
    requires
        i.wf(),
    ensures
        writes_one(c, c.store_conditional(i, width).0),
{
    let (m, r) = c.mmu.conditional_store(
        c.x[i.rs1 as int] as u64,
        c.x[i.rs2 as int] as u64,
        width.bytes() as int,
    );
    let base = CpuView { mmu: m, ..c };
    match r {
        Ok(done) => lemma_set_x(
            c,
            base,
            i.rd,
            if done {
                0
            } else {
                1
            },
        ),
        Err(e) => {},
    }
}

/// An atomic memory operation changes at most its destination register.
proof fn lemma_atomic_writes_one(c: CpuView, i: Instruction, op: AmoOp, width: Width)
    requires
        i.wf(),
    ensures
        writes_one(c, c.atomic(i, op, width).0),
{
    let (m, r) = c.mmu.atomic(c.x[i.rs1 as int] as u64, op, width, c.x[i.rs2 as int]);
    let base = CpuView { mmu: m, ..c };
    match r {
        Ok(v) => lemma_set_x(c, base, i.rd, extend(v, width, true)),
        Err(e) => {},
    }
}

/// An instruction changes at most one integer register, and what it writes is a value as
/// the hart's width extends it.
pub proof fn lemma_writes_one(c: CpuView, i: Instruction, addr: u64)
    requires
        c.wf(),
        i.wf(),
    ensures
        writes_one(c, c.execute(i, addr).0),
{
    match i.operation {
        Operation::Load { width, signed } => lemma_load_writes_one(c, i, width, signed),
        Operation::LoadReserved { width } => lemma_load_reserved_writes_one(c, i, width),
        Operation::StoreConditional { width } => lemma_store_conditional_writes_one(c, i, width),
        Operation::Amo { combine, width } => lemma_atomic_writes_one(c, i, combine, width),
        Operation::Alu { op, word, immediate } => lemma_set_x(
            c,
            c,
            i.rd,
            alu(
                op,
                if word {
                    Xlen::X32
                } else {
                    c.xlen
                },
                c.x[i.rs1 as int],
                if immediate {
                    i.imm
                } else {
                    c.x[i.rs2 as int]
                },
            ),
        ),
        Operation::Lui => lemma_set_x(c, c, i.rd, i.imm),
        Operation::Auipc => lemma_set_x(c, c, i.rd, addr.wrapping_add(i.imm as u64) as i64),
        Operation::Jal => lemma_set_x(
            c,
            c.set_pc(addr.wrapping_add(i.imm as u64)),
            i.rd,
            c.pc as i64,
        ),
        Operation::Jalr => lemma_set_x(
            c,
            c.set_pc((c.x[i.rs1 as int].wrapping_add(i.imm) as u64) & 0xffff_ffff_ffff_fffe),
            i.rd,
            c.pc as i64,
        ),
        Operation::Csr { action, immediate } => {
            let a = i.imm as u16;
            let operand = c.csr_operand(i, immediate);
            let before = read_value(c.csr, a);
            if permitted(a, c.privilege) {
                let base = match action {
                    CsrOp::ReadWrite => CpuView { csr: written(c.csr, a, operand), ..c },
                    CsrOp::ReadSet => if i.rs1 != 0 {
                        CpuView { csr: written(c.csr, a, before | operand), ..c }
                    } else {
                        c
                    },
                    CsrOp::ReadClear => if i.rs1 != 0 {
                        CpuView { csr: written(c.csr, a, before & !operand), ..c }
                    } else {
                        c
                    },
                };
                lemma_set_x(c, base, i.rd, before as i64);
            }
        },
        _ => {},
    }
}

/// An instruction of a 32-bit hart leaves 32-bit values, sign-extended, in the integer
/// registers that held such values, whether it retires or raises an exception.
pub proof fn lemma_word_registers(c: CpuView, i: Instruction, addr: u64)
    requires
        c.wf(),
        i.wf(),
        c.xlen == Xlen::X32,
        forall|r: int| 0 <= r < 32 ==> fits_word(#[trigger] c.x[r]),
    ensures
        forall|r: int| 0 <= r < 32 ==> fits_word(#[trigger] c.execute(i, addr).0.x[r]),
{
    let after = c.execute(i, addr).0;
    lemma_writes_one(c, i, addr);
    if after.x != c.x {
        let (rd, v) = choose|rd: int, v: i64|
            0 <= rd < 32 && after.x == #[trigger] c.x.update(rd, signed(c.xlen, v));
        lemma_signed_fits(v);
        assert forall|r: int| 0 <= r < 32 implies fits_word(#[trigger] after.x[r]) by {
            if r != rd {
                assert(fits_word(c.x[r]));
            }
        }
    }
}

/// A CSR instruction that names a register above the hart's privilege level raises an
/// illegal-instruction exception with the instruction's address, and changes nothing: no
/// register, no CSR, no memory.
pub proof fn lemma_csr_refused(c: CpuView, i: Instruction, addr: u64)
    requires
        i.operation is Csr,
        crate::cpu::cpu_csr::csr_privilege(i.imm as u16) > c.privilege.level(),
    ensures
        c.execute(i, addr) == (c, Err::<(), Trap>(illegal(addr))),
{
}

/// The exception of a refused CSR access is taken with the address of the instruction as
/// the address to return to: the exception program counter of the level that takes it holds
/// that address, and the cause register holds the number of the illegal-instruction
/// exception.
pub proof fn lemma_refusal_taken(c: CpuView, addr: u64)
    requires
        c.wf(),
    ensures
        c.entered(illegal(addr), addr).csr[epc_slot(c.target_of(Traps::IllegalInstruction)) as int]
            == addr,
        c.entered(illegal(addr), addr).csr[cause_slot(
            c.target_of(Traps::IllegalInstruction),
        ) as int] == 2,
{
}

/// After the entry into a trap: the hart is at the level that takes the trap, which is not
/// below the level in the previous-privilege field; the exception program counter of that
/// level holds the address given to return to (the address of the faulting instruction for
/// an exception, of the next instruction for an interrupt); the interrupt enable of that
/// level is clear; and the program counter is the base of the level's trap vector, or for an
/// interrupt in vectored mode the base plus four times the cause number.
pub proof fn lemma_trap_entry(c: CpuView, trap: Trap, epc: u64)
    requires
        c.wf(),
    ensures
        ({
            let target = c.target_of(trap.factor);
            let after = c.entered(trap, epc);
            let tvec = c.csr[tvec_slot(target) as int];
            &&& after.privilege == target
            &&& after.privilege.level() >= previous_privilege(
                after.csr[CSR_MSTATUS as int],
                target,
            ).level()
            &&& after.csr[epc_slot(target) as int] == epc
            &&& !global_enable(after.csr[CSR_MSTATUS as int], target)
            &&& after.pc == if tvec & 3 == 1 && trap.factor.is_interrupt() {
                unsigned(c.xlen, (tvec & !3u64).wrapping_add(trap.factor.code() << 2) as i64)
            } else {
                unsigned(c.xlen, (tvec & !3u64) as i64)
            }
        }),
{
    lemma_status_fields(c.csr[CSR_MSTATUS as int], c.privilege.level() as u64);
}

/// The fields of `mstatus` that a return from a trap sets: the interrupt enable of the
/// level takes the previous-enable bit, which is set, and the previous-privilege field holds
/// user.
proof fn lemma_return_fields(mstatus: u64)
    by (bit_vector)
    ensures
        ((mstatus & !0x1888u64) | (((mstatus >> 7) & 1) << 3) | 0x80) & 0x8 != 0 <==> mstatus
            & 0x80 != 0,
        ((mstatus & !0x1888u64) | (((mstatus >> 7) & 1) << 3) | 0x80) & 0x80 != 0,
        (((mstatus & !0x1888u64) | (((mstatus >> 7) & 1) << 3) | 0x80) >> 11) & 3 == 0,
        ((mstatus & !0x122u64) | (((mstatus >> 5) & 1) << 1) | 0x20) & 0x2 != 0 <==> mstatus & 0x20
            != 0,
        ((mstatus & !0x122u64) | (((mstatus >> 5) & 1) << 1) | 0x20) & 0x20 != 0,
        ((((mstatus & !0x122u64) | (((mstatus >> 5) & 1) << 1) | 0x20) >> 8) & 1) & 3 == 0,
        ((mstatus & !0x11u64) | ((mstatus >> 4) & 1) | 0x10) & 0x1 != 0 <==> mstatus & 0x10 != 0,
        ((mstatus & !0x11u64) | ((mstatus >> 4) & 1) | 0x10) & 0x10 != 0,
{
}

/// Whether the previous-enable bit of the level `level` is set in `mstatus`.
pub open spec fn previous_enable(mstatus: u64, level: Privilege) -> bool {
    match level {
        Privilege::User => mstatus & 0x10 != 0,
        Privilege::Supervisor => mstatus & 0x20 != 0,
        _ => mstatus & 0x80 != 0,
    }
}

/// After a return from a trap of the level `level` that the hart's level allows: the hart
/// is at the level's exception program counter and at the level that the
/// previous-privilege field held; the interrupt enable of the level holds what the
/// previous-enable bit held; the previous-enable bit is set; and the previous-privilege
/// field holds user.
pub proof fn lemma_trap_return(c: CpuView, level: Privilege, addr: u64)
    requires
        c.wf(),
        level != Privilege::Hypervisor,
        c.privilege.level() >= level.level(),
    ensures
        ({
            let before = c.csr[CSR_MSTATUS as int];
            let (after, r) = c.trap_return(level, addr);
            &&& r.is_ok()
            &&& after.pc == unsigned(c.xlen, c.csr[epc_slot(level) as int] as i64)
            &&& after.privilege == previous_privilege(before, level)
            &&& global_enable(after.csr[CSR_MSTATUS as int], level) == previous_enable(before, level)
            &&& previous_enable(after.csr[CSR_MSTATUS as int], level)
            &&& previous_privilege(after.csr[CSR_MSTATUS as int], level) == Privilege::User
        }),
{
    lemma_return_fields(c.csr[CSR_MSTATUS as int]);
}

/// The interrupt enable of a level after a trap to the level and the return from it is the
/// one from before the trap.
proof fn lemma_enable_restored(mstatus: u64, from: u64)
    by (bit_vector)
    requires
        from <= 3,
    ensures
        ({
            let entered = (mstatus & !0x1888u64) | (((mstatus >> 3) & 1) << 7) | (from << 11);
            ((entered & !0x1888u64) | (((entered >> 7) & 1) << 3) | 0x80) & 0x8 != 0 <==> mstatus
                & 0x8 != 0
        }),
        ({
            let entered = (mstatus & !0x122u64) | (((mstatus >> 1) & 1) << 5) | ((from & 1) << 8);
            ((entered & !0x122u64) | (((entered >> 5) & 1) << 1) | 0x20) & 0x2 != 0 <==> mstatus
                & 0x2 != 0
        }),
        ({
            let entered = (mstatus & !0x11u64) | ((mstatus & 1) << 4);
            ((entered & !0x11u64) | ((entered >> 4) & 1) | 0x10) & 0x1 != 0 <==> mstatus & 0x1
                != 0
        }),
        from <= 1 ==> from & 1 == from,
{
}

/// A trap and the return from it undo each other: where a trap is taken at a level that is
/// not below the hart's, the return from the trap of that level brings the hart back to
/// the address given to return to and to the level that it came from, with the interrupt
/// enable of the handling level as it was before the trap.
pub proof fn lemma_trap_round_trip(c: CpuView, trap: Trap, epc: u64, addr: u64)
    requires
        c.wf(),
        c.privilege != Privilege::Hypervisor,
        c.target_of(trap.factor).level() >= c.privilege.level(),
    ensures
        ({
            let target = c.target_of(trap.factor);
            let (after, r) = c.entered(trap, epc).trap_return(target, addr);
            &&& r.is_ok()
            &&& after.pc == unsigned(c.xlen, epc as i64)
            &&& after.privilege == c.privilege
            &&& global_enable(after.csr[CSR_MSTATUS as int], target) == global_enable(
                c.csr[CSR_MSTATUS as int],
                target,
            )
        }),
{
    let target = c.target_of(trap.factor);
    lemma_trap_entry(c, trap, epc);
    lemma_status_fields(c.csr[CSR_MSTATUS as int], c.privilege.level() as u64);
    lemma_enable_restored(c.csr[CSR_MSTATUS as int], c.privilege.level() as u64);
    lemma_trap_return(c.entered(trap, epc), target, addr);
}

/// An interrupt that the hart takes is pending and enabled in `mie`, and the level that
/// handles it is not below the hart's.
pub proof fn lemma_interrupt_taken(c: CpuView)
    requires
        c.wf(),
        c.interrupt().is_some(),
    ensures
        c.interrupt().unwrap().is_interrupt(),
        ((c.csr[CSR_MIP as int] & c.csr[CSR_MIE as int]) >> c.interrupt().unwrap().code()) & 1
            == 1,
        c.target_of(c.interrupt().unwrap()).level() >= c.privilege.level(),
{
}

/// An exception that is raised with bit `k` of `medeleg` set and bit `k` of `sedeleg`
/// clear, `k` being its cause number, is taken at supervisor level; with bit `k` of
/// `medeleg` clear it is taken at machine level.
pub proof fn lemma_delegation(c: CpuView, trap: Trap, epc: u64)
    requires
        c.wf(),
        !trap.factor.is_interrupt(),
    ensures
        (c.csr[CSR_MEDELEG as int] >> trap.factor.code()) & 1 == 1 && (c.csr[CSR_SEDELEG as int]
            >> trap.factor.code()) & 1 != 1 ==> c.entered(trap, epc).privilege
            == Privilege::Supervisor,
        (c.csr[CSR_MEDELEG as int] >> trap.factor.code()) & 1 != 1 ==> c.entered(
            trap,
            epc,
        ).privilege == Privilege::Machine,
{
}

/// A second SFENCE.VMA right after a first one changes nothing.
pub proof fn lemma_fence_idempotent(c: CpuView, first: u64, second: u64)
    requires
        c.wf(),
    ensures
        c.fence_vma(first).0.fence_vma(second).0 == c.fence_vma(first).0,
{
    assert(c.mmu.flushed().flushed().tlb =~= c.mmu.flushed().tlb);
}

/// A load-reserved that retires leaves the line of its physical address reserved.
pub proof fn lemma_load_reserved_reserves(c: CpuView, i: Instruction, width: Width)
    requires
        c.load_reserved(i, width).1.is_ok(),
    ensures
        c.mmu.translate(c.x[i.rs1 as int] as u64, AccessKind::Load).is_ok(),
        c.load_reserved(i, width).0.mmu.bus.reserved(
            c.mmu.translate(c.x[i.rs1 as int] as u64, AccessKind::Load).unwrap(),
        ),
{
}

/// A load on the bus changes neither a byte of memory nor the reservation.
pub proof fn lemma_read_keeps_memory(b: crate::system_bus::BusView, addr: u64, n: int)
    ensures
        b.read(addr, n).dram == b.dram,
        b.read(addr, n).flash == b.flash,
        b.read(addr, n).machine == b.machine,
        b.read(addr, n).reservation == b.reservation,
{
}

/// Without translation of fetches, the fetch of an instruction changes neither a register
/// nor a byte of memory nor the reservation, and leaves the memory-management unit with
/// the same width, privilege level, `satp`, `mstatus` and translation cache.
pub proof fn lemma_fetch_keeps_memory(c: CpuView)
    requires
        !c.mmu.translates(AccessKind::Fetch),
    ensures
        ({
            let after = c.fetch().0;
            &&& after.x == c.x
            &&& after.f == c.f
            &&& after.csr == c.csr
            &&& after.xlen == c.xlen
            &&& after.privilege == c.privilege
            &&& after.mmu == (MmuView { bus: after.mmu.bus, ..c.mmu })
            &&& after.mmu.bus.dram == c.mmu.bus.dram
            &&& after.mmu.bus.flash == c.mmu.bus.flash
            &&& after.mmu.bus.machine == c.mmu.bus.machine
            &&& after.mmu.bus.reservation == c.mmu.bus.reservation
        }),
{
    let pc = c.pc;
    let m1 = c.mmu.fetched(pc);
    lemma_read_keeps_memory(c.mmu.bus, c.mmu.clip(pc), 2);
    assert(m1 == (MmuView { bus: m1.bus, ..c.mmu }));
    assert(!m1.translates(AccessKind::Fetch));
    let m2 = m1.fetched(pc.wrapping_add(2));
    lemma_read_keeps_memory(m1.bus, m1.clip(pc.wrapping_add(2)), 2);
    assert(m2 == (MmuView { bus: m2.bus, ..c.mmu }));
}

/// A store-conditional that finds its reservation is performed: where its address is a
/// multiple of its width and translates to a line that is reserved, and the bus takes the
/// store, it raises nothing, the destination takes 0, the memory takes the low bytes of the
/// second source at the physical address, and the reservation is given up.
pub proof fn lemma_store_conditional_performed(c: CpuView, i: Instruction, width: Width)
    requires
        (c.x[i.rs1 as int] as u64) % width.bytes() == 0,
        c.mmu.translate(c.x[i.rs1 as int] as u64, AccessKind::Store).is_ok(),
        c.mmu.translated(c.x[i.rs1 as int] as u64, AccessKind::Store).bus.reserved(
            c.mmu.translate(c.x[i.rs1 as int] as u64, AccessKind::Store).unwrap(),
        ),
        c.mmu.translated(c.x[i.rs1 as int] as u64, AccessKind::Store).bus.writes(
            c.mmu.translate(c.x[i.rs1 as int] as u64, AccessKind::Store).unwrap(),
            width.bytes() as int,
        ),
    ensures
        ({
            let va = c.x[i.rs1 as int] as u64;
            let pa = c.mmu.translate(va, AccessKind::Store).unwrap();
            let walked = c.mmu.translated(va, AccessKind::Store);
            let (after, r) = c.store_conditional(i, width);
            &&& r == Ok::<(), Trap>(())
            &&& after == (CpuView {
                mmu: MmuView {
                    bus: walked.bus.release().write(
                        pa,
                        c.x[i.rs2 as int] as u64,
                        width.bytes() as int,
                    ),
                    ..walked
                },
                ..c
            }).set_x(i.rd, 0)
            &&& after.mmu.bus.reservation.is_none()
        }),
{
    let va = c.x[i.rs1 as int] as u64;
    let n = width.bytes() as int;
    let pa = c.mmu.translate(va, AccessKind::Store).unwrap();
    let walked = c.mmu.translated(va, AccessKind::Store);
    assert(walked.bus.release().reservation.is_none());
    assert(walked.bus.release().writes(pa, n) == walked.bus.writes(pa, n));
    assert(walked.bus.release().write(pa, c.x[i.rs2 as int] as u64, n).reservation.is_none());
}

/// A store-conditional that does not find its reservation stores nothing: where its
/// address is a multiple of its width and translates, and the line of its physical address
/// is not reserved, it raises nothing, the destination takes 1, no byte of memory changes
/// after the translation, and no reservation is left.
pub proof fn lemma_store_conditional_refused(c: CpuView, i: Instruction, width: Width)
    requires
        (c.x[i.rs1 as int] as u64) % width.bytes() == 0,
        c.mmu.translate(c.x[i.rs1 as int] as u64, AccessKind::Store).is_ok(),
        !c.mmu.translated(c.x[i.rs1 as int] as u64, AccessKind::Store).bus.reserved(
            c.mmu.translate(c.x[i.rs1 as int] as u64, AccessKind::Store).unwrap(),
        ),
    ensures
        ({
            let va = c.x[i.rs1 as int] as u64;
            let walked = c.mmu.translated(va, AccessKind::Store);
            let (after, r) = c.store_conditional(i, width);
            &&& r == Ok::<(), Trap>(())
            &&& after == (CpuView {
                mmu: MmuView { bus: walked.bus.release(), ..walked },
                ..c
            }).set_x(i.rd, 1)
            &&& after.mmu.bus.dram == walked.bus.dram
            &&& after.mmu.bus.reservation.is_none()
        }),
{
}

/// The step that fetches a store-conditional does what the store-conditional does to the
/// hart that the fetch left.
#[verifier::rlimit(100)]
pub proof fn lemma_store_conditional_fetched(c: CpuView, word: u32, i: Instruction, width: Width)
    requires
        c.fetch().1 == Ok::<u32, Trap>(word),
        decode(c.xlen, word) == Some(i),
        i.operation == (Operation::StoreConditional { width }),
    ensures
        c.tick_do() == c.fetch().0.store_conditional(i, width),
{
    let fetched = c.fetch().0;
    lemma_execute_store_conditional(fetched, i, width, c.pc);
    assert(c.tick_do() == fetched.execute(i, c.pc));
}

/// To execute a store-conditional is to perform the store-conditional.
pub proof fn lemma_execute_store_conditional(c: CpuView, i: Instruction, width: Width, addr: u64)
    requires
        i.operation == (Operation::StoreConditional { width }),
    ensures
        c.execute(i, addr) == c.store_conditional(i, width),
{
}

/// The step of a store-conditional in main memory, without translation. Let the
/// instruction at the program counter be a store-conditional to an address of main memory
/// that is a multiple of its width. Where the line of the address is reserved (a
/// load-reserved to the line has retired, and since then no store to the line, no
/// store-conditional and no trap), the step returns `Ok`, the destination takes 0, the
/// memory holds the low bytes of the second source at the address and is unchanged
/// elsewhere, and the reservation is given up. Where the line is not reserved, the step
/// returns `Ok`, the destination takes 1, the memory is unchanged, and no reservation is
/// left.
pub proof fn lemma_store_conditional_step(c: CpuView, word: u32, i: Instruction, width: Width)
    requires
        c.wf(),
        c.mmu.bus.wf(),
        !c.mmu.translates(AccessKind::Fetch),
        !c.mmu.translates(AccessKind::Store),
        c.fetch().1 == Ok::<u32, Trap>(word),
        decode(c.xlen, word) == Some(i),
        i.operation == (Operation::StoreConditional { width }),
        i.rd != 0,
        i.wf(),
        (c.x[i.rs1 as int] as u64) % width.bytes() == 0,
        crate::system_bus::DRAM_ADDRESS_START <= c.mmu.clip(c.x[i.rs1 as int] as u64),
        c.mmu.clip(c.x[i.rs1 as int] as u64) + width.bytes()
            <= crate::system_bus::DRAM_ADDRESS_START + crate::system_bus::MAX_DRAM_SIZE,
    ensures
        ({
            let pa = c.mmu.clip(c.x[i.rs1 as int] as u64);
            let at = pa - crate::system_bus::DRAM_ADDRESS_START;
            let data = c.x[i.rs2 as int] as u64;
            let (after, r) = c.tick_do();
            &&& r == Ok::<(), Trap>(())
            &&& after.mmu.bus.reservation.is_none()
            &&& c.mmu.bus.reserved(pa) ==> after.x[i.rd as int] == 0 && after.mmu.bus.dram
                == crate::dram::store_le(c.mmu.bus.dram, at, data, width.bytes() as int)
                && after.mmu.bus.read_value(pa, width.bytes() as int) == Ok::<u64, ()>(
                crate::dram::cut(data, width.bytes() as int),
            )
            &&& !c.mmu.bus.reserved(pa) ==> after.x[i.rd as int] == 1 && after.mmu.bus.dram
                == c.mmu.bus.dram
        }),
{
    lemma_fetch_keeps_memory(c);
    lemma_store_conditional_fetched(c, word, i, width);
    let fetched = c.fetch().0;
    let va = c.x[i.rs1 as int] as u64;
    let pa = c.mmu.clip(va);
    assert(fetched.mmu.translate(va, AccessKind::Store) == Ok::<u64, Trap>(pa));
    assert(fetched.mmu.translated(va, AccessKind::Store) == fetched.mmu);
    let b = fetched.mmu.bus;
    assert(b.release().wf());
    crate::system_bus::lemma_main_memory_store(
        b.release(),
        pa,
        c.x[i.rs2 as int] as u64,
        width.bytes() as int,
    );
    if c.mmu.bus.reserved(pa) {
        lemma_store_conditional_performed(fetched, i, width);
    } else {
        lemma_store_conditional_refused(fetched, i, width);
    }
}

} // verus!
