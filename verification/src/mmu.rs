//! The memory-management unit: it turns the addresses that the hart uses into physical
//! ones, checks the access against the page tables, and performs the access on the bus.

use crate::console::Terminal;
use crate::cpu::cpu::{Privilege, Xlen};
use crate::cpu::cpu_alu::amo;
use crate::cpu::cpu_instruction::{AmoOp, Width};
use crate::dram::{cut, is_width};
use crate::machine::Machine;
use crate::system_bus::{
    lemma_dram_round_trip, line_of, BusView, SystemBus, DRAM_ADDRESS_START, LINE_SIZE,
};
use crate::trap::{Trap, Traps};
use vstd::prelude::*;

verus! {

/// What an access is made for.
#[derive(Clone, Copy, Debug, PartialEq, Eq, Structural)]
pub enum AccessKind {
    Fetch,
    Load,
    Store,
}

/// Translation scheme that `satp` selects.
#[derive(Clone, Copy, Debug, PartialEq, Eq, Structural)]
pub enum AddressingMode {
    Bare,
    Sv32,
    Sv39,
    Sv48,
}

pub const PTE_V: u64 = 0x01;
pub const PTE_R: u64 = 0x02;
pub const PTE_W: u64 = 0x04;
pub const PTE_X: u64 = 0x08;
pub const PTE_U: u64 = 0x10;
pub const PTE_A: u64 = 0x40;
pub const PTE_D: u64 = 0x80;
pub const MSTATUS_MPRV: u64 = 0x2_0000;
pub const MSTATUS_SUM: u64 = 0x4_0000;
pub const MSTATUS_MXR: u64 = 0x8_0000;

/// Number of entries that the translation cache has for each kind of access.
pub const TLB_WAYS: u64 = 4;

/// Number of entries of the translation cache.
pub const TLB_ENTRIES: usize = 12;

/// A cached translation of one 4 KiB page.
#[derive(Clone, Copy, Debug, PartialEq, Eq, Structural)]
pub struct TlbEntry {
    pub valid: bool,
    /// Virtual page number.
    pub vpn: u64,
    /// Address space that the translation belongs to.
    pub asid: u64,
    /// Physical page number.
    pub ppn: u64,
    /// The permission bits of the page-table entry.
    pub perm: u64,
}

/// How a walk of the page tables ends.
pub enum Walk {
    /// A page-table entry lies outside main memory.
    AccessFault,
    /// An entry is invalid, or the last level holds no leaf.
    PageFault,
    /// A leaf entry `pte` was found at physical address `at`, `level` levels above the last.
    Leaf { pte: u64, at: u64, level: u64 },
}

/// The translation scheme that `satp` selects for a hart of width `xlen`.
pub open spec fn spec_mode_of(xlen: Xlen, satp: u64) -> AddressingMode {
    match xlen {
        Xlen::X32 => if (satp >> 31) & 1 == 1 {
            AddressingMode::Sv32
        } else {
            AddressingMode::Bare
        },
        Xlen::X64 => if (satp >> 60) == 8 {
            AddressingMode::Sv39
        } else if (satp >> 60) == 9 {
            AddressingMode::Sv48
        } else {
            AddressingMode::Bare
        },
    }
}

#[verifier::when_used_as_spec(spec_mode_of)]
pub fn mode_of(xlen: Xlen, satp: u64) -> (r: AddressingMode)
    ensures
        r == spec_mode_of(xlen, satp),
{
    match xlen {
        Xlen::X32 => if (satp >> 31) & 1 == 1 {
            AddressingMode::Sv32
        } else {
            AddressingMode::Bare
        },
        Xlen::X64 => if (satp >> 60) == 8 {
            AddressingMode::Sv39
        } else if (satp >> 60) == 9 {
            AddressingMode::Sv48
        } else {
            AddressingMode::Bare
        },
    }
}

/// Page number of the root page table that `satp` names.
pub open spec fn spec_root_of(xlen: Xlen, satp: u64) -> u64 {
    match xlen {
        Xlen::X32 => satp & 0x3f_ffff,
        Xlen::X64 => satp & 0xfff_ffff_ffff,
    }
}

#[verifier::when_used_as_spec(spec_root_of)]
pub fn root_of(xlen: Xlen, satp: u64) -> (r: u64)
    ensures
        r == spec_root_of(xlen, satp),
{
    match xlen {
        Xlen::X32 => satp & 0x3f_ffff,
        Xlen::X64 => satp & 0xfff_ffff_ffff,
    }
}

/// Address space that `satp` names.
pub open spec fn spec_asid_of(xlen: Xlen, satp: u64) -> u64 {
    match xlen {
        Xlen::X32 => (satp >> 22) & 0x1ff,
        Xlen::X64 => (satp >> 44) & 0xffff,
    }
}

#[verifier::when_used_as_spec(spec_asid_of)]
pub fn asid_of(xlen: Xlen, satp: u64) -> (r: u64)
    ensures
        r == spec_asid_of(xlen, satp),
{
    match xlen {
        Xlen::X32 => (satp >> 22) & 0x1ff,
        Xlen::X64 => (satp >> 44) & 0xffff,
    }
}

/// Number of levels of the page tables.
pub open spec fn spec_levels(mode: AddressingMode) -> u64 {
    match mode {
        AddressingMode::Bare => 0,
        AddressingMode::Sv32 => 2,
        AddressingMode::Sv39 => 3,
        AddressingMode::Sv48 => 4,
    }
}

#[verifier::when_used_as_spec(spec_levels)]
pub fn levels(mode: AddressingMode) -> (r: u64)
    ensures
        r == spec_levels(mode),
{
    match mode {
        AddressingMode::Bare => 0,
        AddressingMode::Sv32 => 2,
        AddressingMode::Sv39 => 3,
        AddressingMode::Sv48 => 4,
    }
}

/// Number of bytes of a page-table entry.
pub open spec fn spec_pte_size(mode: AddressingMode) -> u64 {
    match mode {
        AddressingMode::Sv32 => 4,
        _ => 8,
    }
}

#[verifier::when_used_as_spec(spec_pte_size)]
pub fn pte_size(mode: AddressingMode) -> (r: u64)
    ensures
        r == spec_pte_size(mode),
        is_width(r as int),
{
    match mode {
        AddressingMode::Sv32 => 4,
        _ => 8,
    }
}

/// Physical address of the entry that the table on page `table` holds for `va` at `level`.
pub open spec fn spec_pte_address(mode: AddressingMode, table: u64, va: u64, level: u64) -> u64 {
    match mode {
        AddressingMode::Sv32 => (table << 12) | (((va >> ((12 + 10 * level) as u64)) & 0x3ff)
            << 2),
        _ => (table << 12) | (((va >> ((12 + 9 * level) as u64)) & 0x1ff) << 3),
    }
}

#[verifier::when_used_as_spec(spec_pte_address)]
pub fn pte_address(mode: AddressingMode, table: u64, va: u64, level: u64) -> (r: u64)
    requires
        level < 4,
    ensures
        r == spec_pte_address(mode, table, va, level),
{
    match mode {
        AddressingMode::Sv32 => (table << 12) | (((va >> (12 + 10 * level)) & 0x3ff) << 2),
        _ => (table << 12) | (((va >> (12 + 9 * level)) & 0x1ff) << 3),
    }
}

/// Page number that a page-table entry names.
pub open spec fn spec_pte_ppn(mode: AddressingMode, pte: u64) -> u64 {
    match mode {
        AddressingMode::Sv32 => (pte >> 10) & 0x3f_ffff,
        _ => (pte >> 10) & 0xfff_ffff_ffff,
    }
}

#[verifier::when_used_as_spec(spec_pte_ppn)]
pub fn pte_ppn(mode: AddressingMode, pte: u64) -> (r: u64)
    ensures
        r == spec_pte_ppn(mode, pte),
{
    match mode {
        AddressingMode::Sv32 => (pte >> 10) & 0x3f_ffff,
        _ => (pte >> 10) & 0xfff_ffff_ffff,
    }
}

/// The bits of a page number that a leaf at `level` leaves to the virtual address.
pub open spec fn spec_low_mask(mode: AddressingMode, level: u64) -> u64 {
    match mode {
        AddressingMode::Sv32 => if level == 0 {
            0
        } else {
            0x3ff
        },
        _ => if level == 0 {
            0
        } else if level == 1 {
            0x1ff
        } else if level == 2 {
            0x3_ffff
        } else {
            0x7ff_ffff
        },
    }
}

#[verifier::when_used_as_spec(spec_low_mask)]
pub fn low_mask(mode: AddressingMode, level: u64) -> (r: u64)
    ensures
        r == spec_low_mask(mode, level),
{
    match mode {
        AddressingMode::Sv32 => if level == 0 {
            0
        } else {
            0x3ff
        },
        _ => if level == 0 {
            0
        } else if level == 1 {
            0x1ff
        } else if level == 2 {
            0x3_ffff
        } else {
            0x7ff_ffff
        },
    }
}

/// Whether an entry ends the walk with a page fault: it is not valid, or writable without
/// being readable.
pub open spec fn spec_pte_invalid(pte: u64) -> bool {
    (pte & PTE_V) == 0 || ((pte & PTE_R) == 0 && (pte & PTE_W) != 0)
}

#[verifier::when_used_as_spec(spec_pte_invalid)]
pub fn pte_invalid(pte: u64) -> (r: bool)
    ensures
        r == spec_pte_invalid(pte),
{
    (pte & PTE_V) == 0 || ((pte & PTE_R) == 0 && (pte & PTE_W) != 0)
}

/// Whether an entry maps a page rather than naming the next table.
pub open spec fn spec_pte_leaf(pte: u64) -> bool {
    (pte & PTE_R) != 0 || (pte & PTE_X) != 0
}

#[verifier::when_used_as_spec(spec_pte_leaf)]
pub fn pte_leaf(pte: u64) -> (r: bool)
    ensures
        r == spec_pte_leaf(pte),
{
    (pte & PTE_R) != 0 || (pte & PTE_X) != 0
}

/// The walk of the page tables for `va` from the table on page `table` at `level` down.
pub open spec fn walk_from(
    bus: BusView,
    mode: AddressingMode,
    table: u64,
    va: u64,
    level: u64,
) -> Walk
    decreases level,
{
    let at = pte_address(mode, table, va, level);
    match bus.dram_value(at, pte_size(mode) as int) {
        None => Walk::AccessFault,
        Some(pte) => if pte_invalid(pte) {
            Walk::PageFault
        } else if pte_leaf(pte) {
            Walk::Leaf { pte, at, level }
        } else if level == 0 {
            Walk::PageFault
        } else {
            walk_from(bus, mode, pte_ppn(mode, pte), va, (level - 1) as u64)
        },
    }
}

/// Whether the permission bits `perm` of a leaf allow an access of kind `kind` at
/// privilege `privilege`, with `mstatus` giving SUM and MXR. User pages are closed to
/// supervisor fetches, and to supervisor loads and stores unless SUM is set; other pages are
/// closed to user code. A load needs R, or X where MXR is set; a store needs W; a fetch
/// needs X.
pub open spec fn spec_permits(kind: AccessKind, perm: u64, privilege: Privilege, mstatus: u64) -> bool {
    let user_page = (perm & PTE_U) != 0;
    let level_ok = if privilege == Privilege::User {
        user_page
    } else {
        !user_page || (kind != AccessKind::Fetch && (mstatus & MSTATUS_SUM) != 0)
    };
    let kind_ok = match kind {
        AccessKind::Fetch => (perm & PTE_X) != 0,
        AccessKind::Load => (perm & PTE_R) != 0 || ((mstatus & MSTATUS_MXR) != 0 && (perm
            & PTE_X) != 0),
        AccessKind::Store => (perm & PTE_W) != 0,
    };
    level_ok && kind_ok
}

#[verifier::when_used_as_spec(spec_permits)]
pub fn permits(kind: AccessKind, perm: u64, privilege: Privilege, mstatus: u64) -> (r: bool)
    ensures
        r == spec_permits(kind, perm, privilege, mstatus),
{
    let user_page = (perm & PTE_U) != 0;
    let level_ok = if matches!(privilege, Privilege::User) {
        user_page
    } else {
        !user_page || (!matches!(kind, AccessKind::Fetch) && (mstatus & MSTATUS_SUM) != 0)
    };
    let kind_ok = match kind {
        AccessKind::Fetch => (perm & PTE_X) != 0,
        AccessKind::Load => (perm & PTE_R) != 0 || ((mstatus & MSTATUS_MXR) != 0 && (perm
            & PTE_X) != 0),
        AccessKind::Store => (perm & PTE_W) != 0,
    };
    level_ok && kind_ok
}

/// A leaf entry after an access of kind `kind` went through it: accessed, and dirty after a
/// store.
pub open spec fn spec_touched(pte: u64, kind: AccessKind) -> u64 {
    if kind == AccessKind::Store {
        pte | PTE_A | PTE_D
    } else {
        pte | PTE_A
    }
}

#[verifier::when_used_as_spec(spec_touched)]
pub fn touched(pte: u64, kind: AccessKind) -> (r: u64)
    ensures
        r == spec_touched(pte, kind),
{
    if matches!(kind, AccessKind::Store) {
        pte | PTE_A | PTE_D
    } else {
        pte | PTE_A
    }
}

/// The slot of the translation cache that an access of kind `kind` to `va` uses.
pub open spec fn spec_tlb_index(kind: AccessKind, va: u64) -> int {
    (match kind {
        AccessKind::Fetch => 0int,
        AccessKind::Load => 4int,
        AccessKind::Store => 8int,
    }) + ((va >> 12) % TLB_WAYS) as int
}

/// The page fault of an access of kind `kind` to `va`.
pub open spec fn spec_page_fault(kind: AccessKind, va: u64) -> Trap {
    Trap {
        factor: match kind {
            AccessKind::Fetch => Traps::InstructionPageFault,
            AccessKind::Load => Traps::LoadPageFault,
            AccessKind::Store => Traps::StorePageFault,
        },
        value: va,
    }
}

#[verifier::when_used_as_spec(spec_page_fault)]
pub fn page_fault(kind: AccessKind, va: u64) -> (r: Trap)
    ensures
        r == spec_page_fault(kind, va),
{
    Trap {
        factor: match kind {
            AccessKind::Fetch => Traps::InstructionPageFault,
            AccessKind::Load => Traps::LoadPageFault,
            AccessKind::Store => Traps::StorePageFault,
        },
        value: va,
    }
}

/// The access fault of an access of kind `kind` to `va`.
pub open spec fn spec_access_fault(kind: AccessKind, va: u64) -> Trap {
    Trap {
        factor: match kind {
            AccessKind::Fetch => Traps::InstructionAccessFault,
            AccessKind::Load => Traps::LoadAccessFault,
            AccessKind::Store => Traps::StoreAccessFault,
        },
        value: va,
    }
}

#[verifier::when_used_as_spec(spec_access_fault)]
pub fn access_fault(kind: AccessKind, va: u64) -> (r: Trap)
    ensures
        r == spec_access_fault(kind, va),
{
    Trap {
        factor: match kind {
            AccessKind::Fetch => Traps::InstructionAccessFault,
            AccessKind::Load => Traps::LoadAccessFault,
            AccessKind::Store => Traps::StoreAccessFault,
        },
        value: va,
    }
}

/// The fault of an access whose address is not a multiple of its width, where that is
/// asked for.
pub open spec fn spec_misaligned(kind: AccessKind, va: u64) -> Trap {
    Trap {
        factor: match kind {
            AccessKind::Fetch => Traps::InstructionAddressMisaligned,
            AccessKind::Load => Traps::LoadAddressMisaligned,
            AccessKind::Store => Traps::StoreAddressMisaligned,
        },
        value: va,
    }
}

#[verifier::when_used_as_spec(spec_misaligned)]
pub fn misaligned(kind: AccessKind, va: u64) -> (r: Trap)
    ensures
        r == spec_misaligned(kind, va),
{
    Trap {
        factor: match kind {
            AccessKind::Fetch => Traps::InstructionAddressMisaligned,
            AccessKind::Load => Traps::LoadAddressMisaligned,
            AccessKind::Store => Traps::StoreAddressMisaligned,
        },
        value: va,
    }
}

/// The entry of an empty slot of the translation cache.
pub open spec fn empty_entry() -> TlbEntry {
    TlbEntry { valid: false, vpn: 0, asid: 0, ppn: 0, perm: 0 }
}

pub struct Mmu {
    xlen: Xlen,
    privilege: Privilege,
    satp: u64,
    mstatus: u64,
    bus: SystemBus,
    tlb: [TlbEntry; 12],
}

/// What an `Mmu` holds.
pub struct MmuView {
    pub xlen: Xlen,
    /// Privilege level of the hart.
    pub privilege: Privilege,
    /// The hart's `satp` register.
    pub satp: u64,
    /// The hart's `mstatus` register.
    pub mstatus: u64,
    pub bus: BusView,
    /// The translation cache: four slots for fetches, four for loads, four for stores.
    pub tlb: Seq<TlbEntry>,
}

impl MmuView {
    /// The unit of a hart of width `xlen` in machine mode, in front of the bus `bus`, with
    /// an empty translation cache.
    pub open spec fn init(xlen: Xlen, bus: BusView) -> MmuView {
        MmuView {
            xlen,
            privilege: Privilege::Machine,
            satp: 0,
            mstatus: 0,
            bus,
            tlb: Seq::new(TLB_ENTRIES as nat, |i: int| empty_entry()),
        }
    }

    /// The shape that every unit has.
    pub open spec fn wf(self) -> bool {
        self.tlb.len() == TLB_ENTRIES
    }

    /// The address as the hart's width allows it: a 32-bit hart uses the low 32 bits.
    pub open spec fn clip(self, va: u64) -> u64 {
        match self.xlen {
            Xlen::X32 => va & 0xffff_ffff,
            Xlen::X64 => va,
        }
    }

    /// The privilege that an access of kind `kind` is made with: loads and stores take
    /// that of `mstatus.MPP` while `mstatus.MPRV` is set.
    pub open spec fn effective_privilege(self, kind: AccessKind) -> Privilege {
        if kind != AccessKind::Fetch && (self.mstatus & MSTATUS_MPRV) != 0 {
            Privilege::from_level(self.mstatus >> 11)
        } else {
            self.privilege
        }
    }

    pub open spec fn mode(self) -> AddressingMode {
        mode_of(self.xlen, self.satp)
    }

    /// Whether an access of kind `kind` goes through the page tables.
    pub open spec fn translates(self, kind: AccessKind) -> bool {
        self.effective_privilege(kind) != Privilege::Machine && self.mode()
            != AddressingMode::Bare
    }

    /// Whether the cached translation `e` is one of the page of `va` in the current
    /// address space.
    pub open spec fn hits(self, e: TlbEntry, va: u64) -> bool {
        e.valid && e.vpn == va >> 12 && e.asid == asid_of(self.xlen, self.satp)
    }

    /// The walk of the page tables for `va`.
    pub open spec fn walk(self, va: u64) -> Walk {
        walk_from(
            self.bus,
            self.mode(),
            root_of(self.xlen, self.satp),
            va,
            (levels(self.mode()) - 1) as u64,
        )
    }

    /// The unit after the translation of `va` for an access of kind `kind`. A walk that
    /// ends in a usable leaf marks the leaf accessed (and dirty for a store) in memory and
    /// fills the slot of the translation cache; nothing else changes anything.
    pub open spec fn translated(self, va: u64, kind: AccessKind) -> MmuView {
        let va = self.clip(va);
        let slot = spec_tlb_index(kind, va);
        if !self.translates(kind) || self.hits(self.tlb[slot], va) {
            self
        } else {
            match self.walk(va) {
                Walk::Leaf { pte, at, level } => {
                    let mode = self.mode();
                    let privilege = self.effective_privilege(kind);
                    if (pte_ppn(mode, pte) & low_mask(mode, level)) != 0 || !permits(
                        kind,
                        pte,
                        privilege,
                        self.mstatus,
                    ) {
                        self
                    } else {
                        MmuView {
                            bus: if touched(pte, kind) != pte {
                                self.bus.write(at, touched(pte, kind), pte_size(mode) as int)
                            } else {
                                self.bus
                            },
                            tlb: self.tlb.update(
                                slot,
                                TlbEntry {
                                    valid: true,
                                    vpn: va >> 12,
                                    asid: asid_of(self.xlen, self.satp),
                                    ppn: (pte_ppn(mode, pte) & !low_mask(mode, level)) | ((va
                                        >> 12) & low_mask(mode, level)),
                                    perm: pte & 0xff,
                                },
                            ),
                            ..self
                        }
                    }
                },
                _ => self,
            }
        }
    }

    /// The physical address that `va` translates to for an access of kind `kind`, or the
    /// fault that the translation raises. Without translation the address stands for
    /// itself. A cached translation is used where there is one; otherwise the page tables
    /// are walked. An entry outside main memory gives an access fault; an invalid entry, a
    /// missing leaf, a misaligned superpage or a refused permission gives a page fault.
    pub open spec fn translate(self, va: u64, kind: AccessKind) -> Result<u64, Trap> {
        let va = self.clip(va);
        let e = self.tlb[spec_tlb_index(kind, va)];
        let privilege = self.effective_privilege(kind);
        if !self.translates(kind) {
            Ok(va)
        } else if self.hits(e, va) {
            if permits(kind, e.perm, privilege, self.mstatus) {
                Ok((e.ppn << 12) | (va & 0xfff))
            } else {
                Err(page_fault(kind, va))
            }
        } else {
            match self.walk(va) {
                Walk::AccessFault => Err(access_fault(kind, va)),
                Walk::PageFault => Err(page_fault(kind, va)),
                Walk::Leaf { pte, at, level } => {
                    let mode = self.mode();
                    if (pte_ppn(mode, pte) & low_mask(mode, level)) != 0 || !permits(
                        kind,
                        pte,
                        privilege,
                        self.mstatus,
                    ) {
                        Err(page_fault(kind, va))
                    } else {
                        Ok(
                            ((((pte_ppn(mode, pte) & !low_mask(mode, level)) | ((va >> 12)
                                & low_mask(mode, level))) << 12) | (va & 0xfff)) as u64,
                        )
                    }
                },
            }
        }
    }

    /// The unit with an empty translation cache.
    pub open spec fn flushed(self) -> MmuView {
        MmuView { tlb: Seq::new(TLB_ENTRIES as nat, |i: int| empty_entry()), ..self }
    }

    /// The result of an access of `n` bytes at `va`, done as one access on the bus: for a
    /// load the value, for a store 0; a translation fault, or an access fault where the bus
    /// refuses.
    pub open spec fn access_value(self, va: u64, data: u64, n: int, kind: AccessKind) -> Result<
        u64,
        Trap,
    > {
        match self.translate(va, kind) {
            Err(e) => Err(e),
            Ok(pa) => {
                let bus = self.translated(va, kind).bus;
                if kind == AccessKind::Store {
                    if bus.writes(pa, n) {
                        Ok(0)
                    } else {
                        Err(access_fault(kind, self.clip(va)))
                    }
                } else {
                    match bus.read_value(pa, n) {
                        Ok(v) => Ok(v),
                        Err(_) => Err(access_fault(kind, self.clip(va))),
                    }
                }
            },
        }
    }

    /// The unit after an access of `n` bytes at `va`, done as one access on the bus.
    pub open spec fn accessed(self, va: u64, data: u64, n: int, kind: AccessKind) -> MmuView {
        let m = self.translated(va, kind);
        match self.translate(va, kind) {
            Err(e) => m,
            Ok(pa) => MmuView {
                bus: if kind == AccessKind::Store {
                    m.bus.write(pa, data, n)
                } else {
                    m.bus.read(pa, n)
                },
                ..m
            },
        }
    }

    /// The result of the first `k` byte accesses of an access of `n` bytes at `va` that is
    /// done byte by byte: for a load the bytes as a little-endian value, or the fault of
    /// the first byte that faults.
    #[verifier::opaque]
    pub open spec fn bytes_value(self, va: u64, data: u64, k: int, kind: AccessKind) -> Result<
        u64,
        Trap,
    >
        decreases k,
    {
        if k <= 0 {
            Ok(0)
        } else {
            match self.bytes_value(va, data, k - 1, kind) {
                Err(e) => Err(e),
                Ok(v) => {
                    let m = self.bytes_accessed(va, data, k - 1, kind);
                    let at = byte_address(va, k - 1);
                    match m.access_value(at, byte_of_data(data, k - 1), 1, kind) {
                        Err(e) => Err(e),
                        Ok(b) => Ok(v | (b << ((8 * (k - 1)) as u64))),
                    }
                },
            }
        }
    }

    /// The unit after the first `k` byte accesses of an access at `va` that is done byte by
    /// byte; after a fault no further byte is accessed.
    #[verifier::opaque]
    pub open spec fn bytes_accessed(self, va: u64, data: u64, k: int, kind: AccessKind) -> MmuView
        decreases k,
    {
        if k <= 0 {
            self
        } else {
            let m = self.bytes_accessed(va, data, k - 1, kind);
            match self.bytes_value(va, data, k - 1, kind) {
                Err(e) => m,
                Ok(v) => m.accessed(byte_address(va, k - 1), byte_of_data(data, k - 1), 1, kind),
            }
        }
    }

    /// The result of an access of `n` bytes at `va`: one access on the bus where `va` is a
    /// multiple of `n`, and `n` byte accesses, each translated on its own, where it is not.
    pub open spec fn value(self, va: u64, data: u64, n: int, kind: AccessKind) -> Result<u64, Trap> {
        if va % (n as u64) == 0 {
            self.access_value(va, data, n, kind)
        } else {
            self.bytes_value(va, data, n, kind)
        }
    }

    /// The unit after an access of `n` bytes at `va`.
    pub open spec fn after(self, va: u64, data: u64, n: int, kind: AccessKind) -> MmuView {
        if va % (n as u64) == 0 {
            self.accessed(va, data, n, kind)
        } else {
            self.bytes_accessed(va, data, n, kind)
        }
    }

    /// The value of a load of `n` bytes at `va`, or the fault that it raises.
    pub open spec fn load_value(self, va: u64, n: int) -> Result<u64, Trap> {
        self.value(va, 0, n, AccessKind::Load)
    }

    /// The unit after a load of `n` bytes at `va`.
    pub open spec fn loaded(self, va: u64, n: int) -> MmuView {
        self.after(va, 0, n, AccessKind::Load)
    }

    /// The fault that a store of `n` bytes at `va` raises, if any.
    pub open spec fn store_value(self, va: u64, data: u64, n: int) -> Result<u64, Trap> {
        self.value(va, data, n, AccessKind::Store)
    }

    /// The unit after a store of the `n` low bytes of `data` at `va`.
    pub open spec fn stored(self, va: u64, data: u64, n: int) -> MmuView {
        self.after(va, data, n, AccessKind::Store)
    }

    /// The half-word fetched at `va`, or the fault that the fetch raises.
    pub open spec fn fetch_value(self, va: u64) -> Result<u64, Trap> {
        self.access_value(va, 0, 2, AccessKind::Fetch)
    }

    /// The unit after the fetch of a half-word at `va`.
    pub open spec fn fetched(self, va: u64) -> MmuView {
        self.accessed(va, 0, 2, AccessKind::Fetch)
    }

    /// The unit as the hart's state makes it before an instruction: it takes the width,
    /// the privilege level, `satp` and `mstatus` of the hart; a change of the privilege
    /// level or of `satp` empties the translation cache.
    pub open spec fn with_context(
        self,
        xlen: Xlen,
        privilege: Privilege,
        satp: u64,
        mstatus: u64,
    ) -> MmuView {
        let m = if privilege == self.privilege && satp == self.satp {
            self
        } else {
            self.flushed()
        };
        MmuView { xlen, privilege, satp, mstatus, ..m }
    }

    /// A load-reserved of `n` bytes at `va`: the unit after it, and the value loaded or the
    /// fault raised. The address must be a multiple of `n`; the load reserves the line of
    /// its physical address.
    pub open spec fn reserved_load(self, va: u64, n: int) -> (MmuView, Result<u64, Trap>) {
        if va % (n as u64) != 0 {
            (self, Err(misaligned(AccessKind::Load, self.clip(va))))
        } else {
            let m = self.translated(va, AccessKind::Load);
            match self.translate(va, AccessKind::Load) {
                Err(e) => (m, Err(e)),
                Ok(pa) => match m.bus.read_value(pa, n) {
                    Err(_) => (
                        MmuView { bus: m.bus.read(pa, n), ..m },
                        Err(access_fault(AccessKind::Load, self.clip(va))),
                    ),
                    Ok(v) => (MmuView { bus: m.bus.read(pa, n).reserve(pa), ..m }, Ok(v)),
                },
            }
        }
    }

    /// A store-conditional of the `n` low bytes of `data` at `va`: the unit after it, and
    /// whether the store was performed, or the fault raised. The address must be a multiple
    /// of `n`. The store is performed where the reservation is one of the line of its
    /// physical address; the reservation is given up either way.
    pub open spec fn conditional_store(self, va: u64, data: u64, n: int) -> (
        MmuView,
        Result<bool, Trap>,
    ) {
        if va % (n as u64) != 0 {
            (self, Err(misaligned(AccessKind::Store, self.clip(va))))
        } else {
            let m = self.translated(va, AccessKind::Store);
            match self.translate(va, AccessKind::Store) {
                Err(e) => (m, Err(e)),
                Ok(pa) => if !m.bus.reserved(pa) {
                    (MmuView { bus: m.bus.release(), ..m }, Ok(false))
                } else if m.bus.release().writes(pa, n) {
                    (MmuView { bus: m.bus.release().write(pa, data, n), ..m }, Ok(true))
                } else {
                    (
                        MmuView { bus: m.bus.release(), ..m },
                        Err(access_fault(AccessKind::Store, self.clip(va))),
                    )
                },
            }
        }
    }

    /// An atomic memory operation at `va`: the unit after it, and the value that the memory
    /// held or the fault raised. The address must be a multiple of the width; it is
    /// translated once, as for a store; the memory takes what `op` makes of its value and
    /// of `register`.
    pub open spec fn atomic(self, va: u64, op: AmoOp, width: Width, register: i64) -> (
        MmuView,
        Result<u64, Trap>,
    ) {
        let n = width.bytes() as int;
        if va % width.bytes() != 0 {
            (self, Err(misaligned(AccessKind::Store, self.clip(va))))
        } else {
            let m = self.translated(va, AccessKind::Store);
            match self.translate(va, AccessKind::Store) {
                Err(e) => (m, Err(e)),
                Ok(pa) => match m.bus.read_value(pa, n) {
                    Err(_) => (
                        MmuView { bus: m.bus.read(pa, n), ..m },
                        Err(access_fault(AccessKind::Store, self.clip(va))),
                    ),
                    Ok(v) => {
                        let b = m.bus.read(pa, n);
                        if b.writes(pa, n) {
                            (
                                MmuView { bus: b.write(pa, amo(op, width, v, register), n), ..m },
                                Ok(v),
                            )
                        } else {
                            (
                                MmuView { bus: b, ..m },
                                Err(access_fault(AccessKind::Store, self.clip(va))),
                            )
                        }
                    },
                },
            }
        }
    }
}

/// Address of byte `k` of an access at `va`; addresses wrap around.
pub open spec fn byte_address(va: u64, k: int) -> u64 {
    if va + k > u64::MAX {
        (va + k - 0x1_0000_0000_0000_0000) as u64
    } else {
        (va + k) as u64
    }
}

/// Byte `k` of `data` as the data of a byte access.
pub open spec fn byte_of_data(data: u64, k: int) -> u64 {
    (data >> ((8 * k) as u64)) & 0xff
}

impl View for Mmu {
    type V = MmuView;

    closed spec fn view(&self) -> MmuView {
        MmuView {
            xlen: self.xlen,
            privilege: self.privilege,
            satp: self.satp,
            mstatus: self.mstatus,
            bus: self.bus@,
            tlb: self.tlb@,
        }
    }
}

impl Mmu {
    /// The unit of a hart of width `xlen_` in machine mode, in front of the bus `bus`.
    pub fn new(xlen_: Xlen, bus: SystemBus) -> (r: Self)
        ensures
            r@ == MmuView::init(xlen_, bus@),
    {
        let e = TlbEntry { valid: false, vpn: 0, asid: 0, ppn: 0, perm: 0 };
        let r = Mmu {
            xlen: xlen_,
            privilege: Privilege::Machine,
            satp: 0,
            mstatus: 0,
            bus,
            tlb: [e; 12],
        };
        assert(r@.tlb =~= Seq::new(TLB_ENTRIES as nat, |i: int| empty_entry()));
        r
    }

    /// Every unit has the shape `wf`.
    pub proof fn lemma_wf(&self)
        ensures
            self@.wf(),
    {
    }

    pub fn set_xlen(&mut self, xlen: &Xlen)
        ensures
            final(self)@ == (MmuView { xlen: *xlen, ..old(self)@ }),
    {
        self.xlen = *xlen;
    }

    /// Empties the translation cache.
    pub fn flush(&mut self)
        ensures
            final(self)@ == old(self)@.flushed(),
    {
        let e = TlbEntry { valid: false, vpn: 0, asid: 0, ppn: 0, perm: 0 };
        self.tlb = [e; 12];
        assert(self@.tlb =~= old(self)@.flushed().tlb);
    }

    /// Tells the unit the hart's privilege level; a change of level empties the
    /// translation cache.
    pub fn set_privilege(&mut self, privilege: &Privilege)
        ensures
            final(self)@ == if *privilege == old(self)@.privilege {
                old(self)@
            } else {
                MmuView { privilege: *privilege, ..old(self)@.flushed() }
            },
    {
        if privilege.level() != self.privilege.level() {
            self.privilege = *privilege;
            self.flush();
        }
    }

    /// Tells the unit the hart's `satp` register; a change empties the translation cache.
    pub fn set_satp(&mut self, satp: u64)
        ensures
            final(self)@ == if satp == old(self)@.satp {
                old(self)@
            } else {
                MmuView { satp, ..old(self)@.flushed() }
            },
    {
        if satp != self.satp {
            self.satp = satp;
            self.flush();
        }
    }

    /// Tells the unit the hart's `mstatus` register.
    pub fn set_mstatus(&mut self, mstatus: u64)
        ensures
            final(self)@ == (MmuView { mstatus, ..old(self)@ }),
    {
        self.mstatus = mstatus;
    }

    /// The bus behind the unit.
    pub fn get_bus(&mut self) -> (bus: &mut SystemBus)
        ensures
            bus@ == old(self)@.bus,
            final(self)@ == (MmuView { bus: final(bus)@, ..old(self)@ }),
    {
        &mut self.bus
    }

    /// Gives the unit the hart's width, privilege level, `satp` and `mstatus`.
    pub fn set_context(&mut self, xlen: Xlen, privilege: Privilege, satp: u64, mstatus: u64)
        ensures
            final(self)@ == old(self)@.with_context(xlen, privilege, satp, mstatus),
    {
        if privilege.level() != self.privilege.level() || satp != self.satp {
            self.flush();
        }
        self.xlen = xlen;
        self.privilege = privilege;
        self.satp = satp;
        self.mstatus = mstatus;
    }

    /// Gives up the reservation.
    pub fn release(&mut self)
        ensures
            final(self)@ == (MmuView { bus: old(self)@.bus.release(), ..old(self)@ }),
    {
        self.bus.release();
    }

    /// Performs a load-reserved of `n` bytes at `va`.
    pub fn load_reserved(&mut self, va: u64, n: u64) -> (r: Result<u64, Trap>)
        requires
            is_width(n as int),
        ensures
            (final(self)@, r) == old(self)@.reserved_load(va, n as int),
    {
        if va % n != 0 {
            return Err(misaligned(AccessKind::Load, self.clip(va)));
        }
        let pa = self.translate(va, AccessKind::Load)?;
        match self.bus.read(pa, n) {
            Err(_) => Err(access_fault(AccessKind::Load, self.clip(va))),
            Ok(v) => {
                self.bus.reserve(pa);
                Ok(v)
            },
        }
    }

    /// Performs a store-conditional of the `n` low bytes of `data` at `va`.
    pub fn store_conditional(&mut self, va: u64, data: u64, n: u64) -> (r: Result<bool, Trap>)
        requires
            is_width(n as int),
        ensures
            (final(self)@, r) == old(self)@.conditional_store(va, data, n as int),
    {
        if va % n != 0 {
            return Err(misaligned(AccessKind::Store, self.clip(va)));
        }
        let pa = self.translate(va, AccessKind::Store)?;
        if !self.bus.take_reservation(pa) {
            return Ok(false);
        }
        match self.bus.write(pa, data, n) {
            Ok(()) => Ok(true),
            Err(_) => Err(access_fault(AccessKind::Store, self.clip(va))),
        }
    }

    /// Performs the atomic memory operation `op` of width `width` at `va` with the source
    /// register value `register`, and returns the value that the memory held.
    pub fn atomic(&mut self, va: u64, op: AmoOp, width: Width, register: i64) -> (r: Result<
        u64,
        Trap,
    >)
        ensures
            (final(self)@, r) == old(self)@.atomic(va, op, width, register),
    {
        let n = width.bytes();
        if va % n != 0 {
            return Err(misaligned(AccessKind::Store, self.clip(va)));
        }
        let pa = self.translate(va, AccessKind::Store)?;
        let v = match self.bus.read(pa, n) {
            Ok(v) => v,
            Err(_) => {
                return Err(access_fault(AccessKind::Store, self.clip(va)));
            },
        };
        match self.bus.write(pa, amo(op, width, v, register), n) {
            Ok(()) => Ok(v),
            Err(_) => Err(access_fault(AccessKind::Store, self.clip(va))),
        }
    }

    fn clip(&self, va: u64) -> (r: u64)
        ensures
            r == self@.clip(va),
    {
        match self.xlen {
            Xlen::X32 => va & 0xffff_ffff,
            Xlen::X64 => va,
        }
    }

    fn effective_privilege(&self, kind: AccessKind) -> (r: Privilege)
        ensures
            r == self@.effective_privilege(kind),
    {
        if !matches!(kind, AccessKind::Fetch) && (self.mstatus & MSTATUS_MPRV) != 0 {
            Privilege::from_level(self.mstatus >> 11)
        } else {
            self.privilege
        }
    }

    fn walk(&self, va: u64) -> (r: Walk)
        requires
            self@.mode() != AddressingMode::Bare,
        ensures
            r == self@.walk(va),
    {
        let mode = mode_of(self.xlen, self.satp);
        let mut table = root_of(self.xlen, self.satp);
        let mut level = levels(mode) - 1;
        loop
            invariant
                level < 4,
                mode == self@.mode(),
                walk_from(self@.bus, mode, table, va, level) == self@.walk(va),
            decreases level,
        {
            let at = pte_address(mode, table, va, level);
            let pte = match self.bus.read_dram(at, pte_size(mode)) {
                Some(pte) => pte,
                None => {
                    return Walk::AccessFault;
                },
            };
            if pte_invalid(pte) {
                return Walk::PageFault;
            }
            if pte_leaf(pte) {
                return Walk::Leaf { pte, at, level };
            }
            if level == 0 {
                return Walk::PageFault;
            }
            table = pte_ppn(mode, pte);
            level = level - 1;
        }
    }

    /// Translates `va` for an access of kind `kind`.
    pub fn translate(&mut self, va: u64, kind: AccessKind) -> (r: Result<u64, Trap>)
        ensures
            r == old(self)@.translate(va, kind),
            final(self)@ == old(self)@.translated(va, kind),
    {
        let va = self.clip(va);
        let privilege = self.effective_privilege(kind);
        let mode = mode_of(self.xlen, self.satp);
        if matches!(privilege, Privilege::Machine) || matches!(mode, AddressingMode::Bare) {
            return Ok(va);
        }
        let slot = (match kind {
            AccessKind::Fetch => 0usize,
            AccessKind::Load => 4usize,
            AccessKind::Store => 8usize,
        }) + ((va >> 12) % TLB_WAYS) as usize;
        let asid = asid_of(self.xlen, self.satp);
        let e = self.tlb[slot];
        if e.valid && e.vpn == va >> 12 && e.asid == asid {
            if permits(kind, e.perm, privilege, self.mstatus) {
                return Ok((e.ppn << 12) | (va & 0xfff));
            } else {
                return Err(page_fault(kind, va));
            }
        }
        match self.walk(va) {
            Walk::AccessFault => Err(access_fault(kind, va)),
            Walk::PageFault => Err(page_fault(kind, va)),
            Walk::Leaf { pte, at, level } => {
                let low = low_mask(mode, level);
                if (pte_ppn(mode, pte) & low) != 0 || !permits(kind, pte, privilege, self.mstatus) {
                    return Err(page_fault(kind, va));
                }
                let marked = touched(pte, kind);
                if marked != pte {
                    let _ = self.bus.write(at, marked, pte_size(mode));
                }
                let ppn = (pte_ppn(mode, pte) & !low) | ((va >> 12) & low);
                self.tlb[slot] = TlbEntry { valid: true, vpn: va >> 12, asid, ppn, perm: pte & 0xff };
                Ok((ppn << 12) | (va & 0xfff))
            },
        }
    }

    /// Performs one access of `n` bytes at `va` on the bus.
    fn access(&mut self, va: u64, data: u64, n: u64, kind: AccessKind) -> (r: Result<u64, Trap>)
        requires
            is_width(n as int),
        ensures
            r == old(self)@.access_value(va, data, n as int, kind),
            final(self)@ == old(self)@.accessed(va, data, n as int, kind),
    {
        let pa = self.translate(va, kind)?;
        if matches!(kind, AccessKind::Store) {
            match self.bus.write(pa, data, n) {
                Ok(()) => Ok(0),
                Err(_) => Err(access_fault(kind, self.clip(va))),
            }
        } else {
            match self.bus.read(pa, n) {
                Ok(v) => Ok(v),
                Err(_) => Err(access_fault(kind, self.clip(va))),
            }
        }
    }

    /// Performs an access of `n` bytes at `va`.
    fn perform(&mut self, va: u64, data: u64, n: u64, kind: AccessKind) -> (r: Result<u64, Trap>)
        requires
            is_width(n as int),
        ensures
            r == old(self)@.value(va, data, n as int, kind),
            final(self)@ == old(self)@.after(va, data, n as int, kind),
    {
        if va % n == 0 {
            return self.access(va, data, n, kind);
        }
        let mut v: u64 = 0;
        let mut k: u64 = 0;
        proof {
            lemma_bytes_start(old(self)@, va, data, kind);
        }
        while k < n
            invariant
                k <= n <= 8,
                va % n != 0,
                old(self)@.bytes_value(va, data, k as int, kind) == Ok::<u64, Trap>(v),
                self@ == old(self)@.bytes_accessed(va, data, k as int, kind),
            decreases n - k,
        {
            proof {
                lemma_bytes_step(old(self)@, va, data, k as int, kind);
            }
            let at = va.wrapping_add(k);
            let b = match self.access(at, (data >> (8 * k)) & 0xff, 1, kind) {
                Ok(b) => b,
                Err(e) => {
                    proof {
                        lemma_fault_stays(old(self)@, va, data, k as int + 1, n as int, kind);
                    }
                    return Err(e);
                },
            };
            v = v | (b << (8 * k));
            k += 1;
        }
        Ok(v)
    }

    /// Loads `n` bytes at `va`.
    pub fn load(&mut self, va: u64, n: u64) -> (r: Result<u64, Trap>)
        requires
            is_width(n as int),
        ensures
            r == old(self)@.load_value(va, n as int),
            final(self)@ == old(self)@.loaded(va, n as int),
    {
        self.perform(va, 0, n, AccessKind::Load)
    }

    /// Stores the `n` low bytes of `data` at `va`.
    pub fn store(&mut self, va: u64, data: u64, n: u64) -> (r: Result<(), Trap>)
        requires
            is_width(n as int),
        ensures
            match r {
                Ok(_) => old(self)@.store_value(va, data, n as int).is_ok(),
                Err(e) => old(self)@.store_value(va, data, n as int) == Err::<u64, Trap>(e),
            },
            final(self)@ == old(self)@.stored(va, data, n as int),
    {
        match self.perform(va, data, n, AccessKind::Store) {
            Ok(_) => Ok(()),
            Err(e) => Err(e),
        }
    }

    /// Fetches the half-word at `va`.
    pub fn fetch16(&mut self, va: u64) -> (r: Result<u16, Trap>)
        ensures
            match r {
                Ok(h) => old(self)@.fetch_value(va).is_ok() && h == old(self)@.fetch_value(
                    va,
                ).unwrap() as u16,
                Err(e) => old(self)@.fetch_value(va) == Err::<u64, Trap>(e),
            },
            final(self)@ == old(self)@.fetched(va),
    {
        match self.access(va, 0, 2, AccessKind::Fetch) {
            Ok(v) => Ok(v as u16),
            Err(e) => Err(e),
        }
    }

    pub fn read8(&mut self, va: u64) -> (r: Result<u8, Trap>)
        ensures
            match r {
                Ok(v) => old(self)@.load_value(va, 1).is_ok() && v == old(self)@.load_value(
                    va,
                    1,
                ).unwrap() as u8,
                Err(e) => old(self)@.load_value(va, 1) == Err::<u64, Trap>(e),
            },
            final(self)@ == old(self)@.loaded(va, 1),
    {
        match self.load(va, 1) {
            Ok(v) => Ok(v as u8),
            Err(e) => Err(e),
        }
    }

    pub fn read16(&mut self, va: u64) -> (r: Result<u16, Trap>)
        ensures
            match r {
                Ok(v) => old(self)@.load_value(va, 2).is_ok() && v == old(self)@.load_value(
                    va,
                    2,
                ).unwrap() as u16,
                Err(e) => old(self)@.load_value(va, 2) == Err::<u64, Trap>(e),
            },
            final(self)@ == old(self)@.loaded(va, 2),
    {
        match self.load(va, 2) {
            Ok(v) => Ok(v as u16),
            Err(e) => Err(e),
        }
    }

    pub fn read32(&mut self, va: u64) -> (r: Result<u32, Trap>)
        ensures
            match r {
                Ok(v) => old(self)@.load_value(va, 4).is_ok() && v == old(self)@.load_value(
                    va,
                    4,
                ).unwrap() as u32,
                Err(e) => old(self)@.load_value(va, 4) == Err::<u64, Trap>(e),
            },
            final(self)@ == old(self)@.loaded(va, 4),
    {
        match self.load(va, 4) {
            Ok(v) => Ok(v as u32),
            Err(e) => Err(e),
        }
    }

    pub fn read64(&mut self, va: u64) -> (r: Result<u64, Trap>)
        ensures
            r == old(self)@.load_value(va, 8),
            final(self)@ == old(self)@.loaded(va, 8),
    {
        self.load(va, 8)
    }

    pub fn write8(&mut self, va: u64, data: u8) -> (r: Result<(), Trap>)
        ensures
            match r {
                Ok(_) => old(self)@.store_value(va, data as u64, 1).is_ok(),
                Err(e) => old(self)@.store_value(va, data as u64, 1) == Err::<u64, Trap>(e),
            },
            final(self)@ == old(self)@.stored(va, data as u64, 1),
    {
        self.store(va, data as u64, 1)
    }

    pub fn write16(&mut self, va: u64, data: u16) -> (r: Result<(), Trap>)
        ensures
            match r {
                Ok(_) => old(self)@.store_value(va, data as u64, 2).is_ok(),
                Err(e) => old(self)@.store_value(va, data as u64, 2) == Err::<u64, Trap>(e),
            },
            final(self)@ == old(self)@.stored(va, data as u64, 2),
    {
        self.store(va, data as u64, 2)
    }

    pub fn write32(&mut self, va: u64, data: u32) -> (r: Result<(), Trap>)
        ensures
            match r {
                Ok(_) => old(self)@.store_value(va, data as u64, 4).is_ok(),
                Err(e) => old(self)@.store_value(va, data as u64, 4) == Err::<u64, Trap>(e),
            },
            final(self)@ == old(self)@.stored(va, data as u64, 4),
    {
        self.store(va, data as u64, 4)
    }

    pub fn write64(&mut self, va: u64, data: u64) -> (r: Result<(), Trap>)
        ensures
            match r {
                Ok(_) => old(self)@.store_value(va, data, 8).is_ok(),
                Err(e) => old(self)@.store_value(va, data, 8) == Err::<u64, Trap>(e),
            },
            final(self)@ == old(self)@.stored(va, data, 8),
    {
        self.store(va, data, 8)
    }

    /// The `n` bytes at physical address `pa` as a little-endian value, where they all lie
    /// within main memory. The memories of the unit's bus have their fixed sizes.
    pub fn read_dram(&self, pa: u64, n: u64) -> (r: Option<u64>)
        requires
            is_width(n as int),
        ensures
            self@.bus.wf(),
            r == self@.bus.dram_value(pa, n as int),
    {
        self.bus.read_dram(pa, n)
    }

    /// Loads the word at physical address `pa`, past translation.
    pub fn read32_direct(&mut self, pa: u64) -> (r: Result<u32, Trap>)
        ensures
            match r {
                Ok(v) => old(self)@.bus.read_value(pa, 4).is_ok() && v == old(
                    self,
                )@.bus.read_value(pa, 4).unwrap() as u32,
                Err(e) => old(self)@.bus.read_value(pa, 4).is_err() && e == access_fault(
                    AccessKind::Load,
                    pa,
                ),
            },
            final(self)@ == (MmuView { bus: old(self)@.bus.read(pa, 4), ..old(self)@ }),
    {
        match self.bus.read(pa, 4) {
            Ok(v) => Ok(v as u32),
            Err(_) => Err(access_fault(AccessKind::Load, pa)),
        }
    }

    /// Stores the byte `data` at physical address `pa`, past translation.
    pub fn write8_direct(&mut self, pa: u64, data: u8) -> (r: Result<(), Trap>)
        ensures
            match r {
                Ok(_) => old(self)@.bus.writes(pa, 1),
                Err(e) => !old(self)@.bus.writes(pa, 1) && e == access_fault(
                    AccessKind::Store,
                    pa,
                ),
            },
            final(self)@ == (MmuView { bus: old(self)@.bus.write(pa, data as u64, 1), ..old(self)@ }),
    {
        match self.bus.write(pa, data as u64, 1) {
            Ok(()) => Ok(()),
            Err(_) => Err(access_fault(AccessKind::Store, pa)),
        }
    }
}

/// Without translation, a store to main memory followed by a load of the same width at
/// the same address returns what was stored, where the address is a multiple of the width.
pub proof fn lemma_store_then_load(m: MmuView, va: u64, data: u64, n: int)
    requires
        is_width(n),
        va % (n as u64) == 0,
        !m.translates(AccessKind::Store),
        !m.translates(AccessKind::Load),
        DRAM_ADDRESS_START <= m.clip(va),
        m.clip(va) + n <= u64::MAX,
        m.store_value(va, data, n).is_ok(),
    ensures
        m.stored(va, data, n).load_value(va, n) == Ok::<u64, Trap>(cut(data, n)),
{
    lemma_dram_round_trip(m.bus, m.clip(va), data, n, 0, n);
    assert(data >> 0 == data) by (bit_vector);
}

/// A store-conditional that follows a load-reserved is performed where its address
/// translates to the line that was reserved, its translation has left the reservation in
/// place, and the bus takes the store: it reports success, and the data is stored. Without
/// translation the addresses stand for themselves and nothing touches the reservation in
/// between.
pub proof fn lemma_conditional_store_succeeds(m: MmuView, va: u64, n: int, to: u64, data: u64)
    requires
        is_width(n),
        m.reserved_load(va, n).1.is_ok(),
        to % (n as u64) == 0,
        m.reserved_load(va, n).0.translate(to, AccessKind::Store).is_ok(),
        line_of(m.reserved_load(va, n).0.translate(to, AccessKind::Store).unwrap()) == line_of(
            m.translate(va, AccessKind::Load).unwrap(),
        ),
        m.reserved_load(va, n).0.translated(to, AccessKind::Store).bus.reservation
            == m.reserved_load(va, n).0.bus.reservation,
        m.reserved_load(va, n).0.translated(to, AccessKind::Store).bus.writes(
            m.reserved_load(va, n).0.translate(to, AccessKind::Store).unwrap(),
            n,
        ),
    ensures
        ({
            let reserved = m.reserved_load(va, n).0;
            let walked = reserved.translated(to, AccessKind::Store);
            reserved.conditional_store(to, data, n) == (
                MmuView {
                    bus: walked.bus.release().write(
                        reserved.translate(to, AccessKind::Store).unwrap(),
                        data,
                        n,
                    ),
                    ..walked
                },
                Ok::<bool, Trap>(true),
            )
        }),
{
}

/// A store-conditional fails where a store to main memory has touched the reserved line
/// since the load-reserved: it reports failure and stores nothing, whatever its data.
pub proof fn lemma_conditional_store_fails(
    m: MmuView,
    va: u64,
    n: int,
    store: u64,
    store_data: u64,
    store_n: int,
    to: u64,
    data: u64,
)
    requires
        m.wf(),
        is_width(n),
        is_width(store_n),
        m.reserved_load(va, n).1.is_ok(),
        store % (store_n as u64) == 0,
        m.reserved_load(va, n).0.store_value(store, store_data, store_n).is_ok(),
        DRAM_ADDRESS_START <= m.reserved_load(va, n).0.translate(
            store,
            AccessKind::Store,
        ).unwrap(),
        m.reserved_load(va, n).0.translate(store, AccessKind::Store).unwrap() < line_of(
            m.translate(va, AccessKind::Load).unwrap(),
        ) + LINE_SIZE,
        line_of(m.translate(va, AccessKind::Load).unwrap()) < m.reserved_load(va, n).0.translate(
            store,
            AccessKind::Store,
        ).unwrap() + store_n,
        to % (n as u64) == 0,
        m.reserved_load(va, n).0.stored(store, store_data, store_n).translate(
            to,
            AccessKind::Store,
        ).is_ok(),
    ensures
        ({
            let after = m.reserved_load(va, n).0.stored(store, store_data, store_n);
            let walked = after.translated(to, AccessKind::Store);
            after.conditional_store(to, data, n) == (
                MmuView { bus: walked.bus.release(), ..walked },
                Ok::<bool, Trap>(false),
            ) && walked.bus.release() == walked.bus
        }),
{
}

/// Before its first byte an access done byte by byte has changed nothing.
proof fn lemma_bytes_start(m: MmuView, va: u64, data: u64, kind: AccessKind)
    ensures
        m.bytes_value(va, data, 0, kind) == Ok::<u64, Trap>(0),
        m.bytes_accessed(va, data, 0, kind) == m,
{
    reveal_with_fuel(MmuView::bytes_value, 1);
    reveal_with_fuel(MmuView::bytes_accessed, 1);
}

/// Byte `k` of an access done byte by byte is accessed in the unit that the bytes before
/// it have left, and its value takes the place of byte `k` of the result.
proof fn lemma_bytes_step(m: MmuView, va: u64, data: u64, k: int, kind: AccessKind)
    requires
        0 <= k,
    ensures
        m.bytes_value(va, data, k + 1, kind) == match m.bytes_value(va, data, k, kind) {
            Err(e) => Err::<u64, Trap>(e),
            Ok(v) => match m.bytes_accessed(va, data, k, kind).access_value(
                byte_address(va, k),
                byte_of_data(data, k),
                1,
                kind,
            ) {
                Err(e) => Err(e),
                Ok(b) => Ok((v | (b << ((8 * k) as u64))) as u64),
            },
        },
        m.bytes_accessed(va, data, k + 1, kind) == match m.bytes_value(va, data, k, kind) {
            Err(e) => m.bytes_accessed(va, data, k, kind),
            Ok(v) => m.bytes_accessed(va, data, k, kind).accessed(
                byte_address(va, k),
                byte_of_data(data, k),
                1,
                kind,
            ),
        },
{
    reveal_with_fuel(MmuView::bytes_value, 2);
    reveal_with_fuel(MmuView::bytes_accessed, 2);
}

/// Once a byte of an access done byte by byte has faulted, the fault is the result of the
/// access, and the bytes after it are not accessed.
proof fn lemma_fault_stays(m: MmuView, va: u64, data: u64, k: int, n: int, kind: AccessKind)
    requires
        0 <= k <= n,
        m.bytes_value(va, data, k, kind).is_err(),
    ensures
        m.bytes_value(va, data, n, kind) == m.bytes_value(va, data, k, kind),
        m.bytes_accessed(va, data, n, kind) == m.bytes_accessed(va, data, k, kind),
    decreases n - k,
{
    if k < n {
        lemma_fault_stays(m, va, data, k, n - 1, kind);
        lemma_bytes_step(m, va, data, n - 1, kind);
    }
}

} // verus!
