use riscv_emu::console::{Terminal, TtyDummy};
use riscv_emu::cpu::cpu::{Privilege, Xlen};
use riscv_emu::machine::Machine;
use riscv_emu::mmu::{
    asid_of, levels, low_mask, mode_of, permits, pte_address, pte_ppn, root_of, AccessKind,
    AddressingMode, Mmu,
};
use riscv_emu::system_bus::{SystemBus, UART_ADDRESS_START};
use riscv_emu::trap::{Trap, Traps};

const ROOT: u64 = 0x8001_0000;
const MID: u64 = 0x8001_1000;
const LEAF: u64 = 0x8001_2000;
const SATP39: u64 = (8 << 60) | (ROOT >> 12);
const SUM: u64 = 1 << 18;
const MXR: u64 = 1 << 19;
const MPRV: u64 = 1 << 17;

const V: u64 = 0x01;
const R: u64 = 0x02;
const W: u64 = 0x04;
const X: u64 = 0x08;
const U: u64 = 0x10;
const A: u64 = 0x40;
const D: u64 = 0x80;

fn mmu() -> Mmu {
    Mmu::new(Xlen::X64, SystemBus::new(Machine::SiFiveU, Terminal::Dummy(TtyDummy::new())))
}

fn pte(pa: u64, flags: u64) -> u64 {
    ((pa >> 12) << 10) | flags
}

fn poke(mmu: &mut Mmu, pa: u64, value: u64) {
    mmu.get_bus().write64(pa, value).unwrap();
}

fn peek(mmu: &mut Mmu, pa: u64) -> u64 {
    mmu.get_bus().read64(pa).unwrap()
}

/// Maps the 4 KiB page at virtual address 0x1000 to `pa` through three levels.
fn map_small_page(mmu: &mut Mmu, pa: u64, flags: u64) {
    poke(mmu, ROOT, pte(MID, V));
    poke(mmu, MID, pte(LEAF, V));
    poke(mmu, LEAF + 8, pte(pa, flags));
}

fn page_fault(kind: Traps, va: u64) -> Trap {
    Trap { factor: kind, value: va }
}

#[test]
fn satp_fields() {
    assert_eq!(mode_of(Xlen::X64, 0), AddressingMode::Bare);
    assert_eq!(mode_of(Xlen::X64, 8 << 60), AddressingMode::Sv39);
    assert_eq!(mode_of(Xlen::X64, 9 << 60), AddressingMode::Sv48);
    assert_eq!(mode_of(Xlen::X64, 1 << 60), AddressingMode::Bare);
    assert_eq!(mode_of(Xlen::X32, 0x8000_0000), AddressingMode::Sv32);
    assert_eq!(mode_of(Xlen::X32, 0x7fff_ffff), AddressingMode::Bare);
    assert_eq!(root_of(Xlen::X64, SATP39 | (5 << 44)), ROOT >> 12);
    assert_eq!(asid_of(Xlen::X64, SATP39 | (5 << 44)), 5);
    assert_eq!(root_of(Xlen::X32, 0x8040_0123), 0x123);
    assert_eq!(asid_of(Xlen::X32, 0x8040_0123), 1);
    assert_eq!(levels(AddressingMode::Sv32), 2);
    assert_eq!(levels(AddressingMode::Sv39), 3);
    assert_eq!(levels(AddressingMode::Sv48), 4);
}

#[test]
fn page_table_entry_fields() {
    assert_eq!(pte_address(AddressingMode::Sv39, 0x80010, 0x4020_3000, 2), 0x8001_0008);
    assert_eq!(pte_address(AddressingMode::Sv39, 0x80010, 0x4020_3000, 1), 0x8001_0008);
    assert_eq!(pte_address(AddressingMode::Sv39, 0x80010, 0x4020_3000, 0), 0x8001_0018);
    assert_eq!(pte_address(AddressingMode::Sv32, 0x80010, 0x0040_3000, 1), 0x8001_0004);
    assert_eq!(pte_address(AddressingMode::Sv32, 0x80010, 0x0040_3000, 0), 0x8001_000c);
    assert_eq!(pte_ppn(AddressingMode::Sv39, pte(0x8000_5000, 0xff)), 0x80005);
    assert_eq!(pte_ppn(AddressingMode::Sv32, 0xffff_ffff_ffff_fc00), 0x3f_ffff);
    assert_eq!(low_mask(AddressingMode::Sv39, 0), 0);
    assert_eq!(low_mask(AddressingMode::Sv39, 1), 0x1ff);
    assert_eq!(low_mask(AddressingMode::Sv39, 2), 0x3_ffff);
    assert_eq!(low_mask(AddressingMode::Sv48, 3), 0x7ff_ffff);
    assert_eq!(low_mask(AddressingMode::Sv32, 1), 0x3ff);
}

#[test]
fn permissions() {
    let s = Privilege::Supervisor;
    let u = Privilege::User;
    assert!(permits(AccessKind::Load, V | R, s, 0));
    assert!(!permits(AccessKind::Store, V | R, s, 0));
    assert!(!permits(AccessKind::Fetch, V | R | W, s, 0));
    assert!(permits(AccessKind::Fetch, V | X, s, 0));
    assert!(!permits(AccessKind::Load, V | X, s, 0));
    assert!(permits(AccessKind::Load, V | X, s, MXR));
    assert!(!permits(AccessKind::Load, V | R, u, 0));
    assert!(permits(AccessKind::Load, V | R | U, u, 0));
    assert!(!permits(AccessKind::Load, V | R | U, s, 0));
    assert!(permits(AccessKind::Load, V | R | U, s, SUM));
    assert!(permits(AccessKind::Store, V | R | W | U, s, SUM));
    assert!(!permits(AccessKind::Fetch, V | X | U, s, SUM));
    assert!(permits(AccessKind::Fetch, V | X | U, u, 0));
}

#[test]
fn machine_mode_is_not_translated() {
    let mut mmu = mmu();
    mmu.set_context(Xlen::X64, Privilege::Machine, SATP39, 0);
    assert_eq!(mmu.translate(0x8000_0123, AccessKind::Load), Ok(0x8000_0123));
    mmu.write32(0x8000_0100, 0xcafe_f00d).unwrap();
    assert_eq!(mmu.read32(0x8000_0100), Ok(0xcafe_f00d));
    assert_eq!(mmu.read8(0x8000_0101), Ok(0xf0));
    assert_eq!(mmu.read16(0x8000_0102), Ok(0xcafe));
    assert_eq!(mmu.read64(0x8000_0100), Ok(0xcafe_f00d));
    assert_eq!(mmu.fetch16(0x8000_0100), Ok(0xf00d));
}

#[test]
fn bare_mode_is_not_translated() {
    let mut mmu = mmu();
    mmu.set_context(Xlen::X64, Privilege::Supervisor, 0, 0);
    assert_eq!(mmu.translate(0x8000_0123, AccessKind::Store), Ok(0x8000_0123));
    mmu.set_context(Xlen::X32, Privilege::User, 0, 0);
    assert_eq!(mmu.translate(0xffff_ffff_8000_0123, AccessKind::Load), Ok(0x8000_0123));
}

#[test]
fn small_page_through_three_levels() {
    let mut mmu = mmu();
    map_small_page(&mut mmu, 0x8002_0000, V | R | W | A | D);
    poke(&mut mmu, 0x8002_0010, 0x1122_3344_5566_7788);
    mmu.set_context(Xlen::X64, Privilege::Supervisor, SATP39, 0);
    assert_eq!(mmu.translate(0x1010, AccessKind::Load), Ok(0x8002_0010));
    assert_eq!(mmu.read64(0x1010), Ok(0x1122_3344_5566_7788));
    assert_eq!(mmu.read16(0x1012), Ok(0x5566));
    mmu.write8(0x1017, 0xaa).unwrap();
    assert_eq!(peek(&mut mmu, 0x8002_0010), 0xaa22_3344_5566_7788);
    // The neighbouring page is not mapped.
    assert_eq!(mmu.read8(0x2000), Err(page_fault(Traps::LoadPageFault, 0x2000)));
    assert_eq!(mmu.write8(0x0fff, 1), Err(page_fault(Traps::StorePageFault, 0x0fff)));
    assert_eq!(mmu.fetch16(0x1010), Err(page_fault(Traps::InstructionPageFault, 0x1010)));
}

#[test]
fn superpages() {
    let mut mmu = mmu();
    // A 1 GiB page at virtual address 0x4000_0000 and a 2 MiB page at 0x20_0000.
    poke(&mut mmu, ROOT + 8, pte(0x8000_0000, V | R | W | X | A | D));
    poke(&mut mmu, ROOT, pte(MID, V));
    poke(&mut mmu, MID + 8, pte(0x8020_0000, V | R | A));
    poke(&mut mmu, 0x8123_4560, 0xdead_beef);
    poke(&mut mmu, 0x8021_2340, 0x1234_5678);
    mmu.set_context(Xlen::X64, Privilege::Supervisor, SATP39, 0);
    assert_eq!(mmu.translate(0x4123_4560, AccessKind::Fetch), Ok(0x8123_4560));
    assert_eq!(mmu.read32(0x4123_4560), Ok(0xdead_beef));
    assert_eq!(mmu.read32(0x0021_2340), Ok(0x1234_5678));
    assert_eq!(mmu.write32(0x0021_2340, 0), Err(page_fault(Traps::StorePageFault, 0x0021_2340)));
}

#[test]
fn misaligned_superpage_faults() {
    let mut mmu = mmu();
    poke(&mut mmu, ROOT + 8, pte(0x8000_1000, V | R | A));
    mmu.set_context(Xlen::X64, Privilege::Supervisor, SATP39, 0);
    assert_eq!(mmu.read8(0x4000_0000), Err(page_fault(Traps::LoadPageFault, 0x4000_0000)));
}

#[test]
fn invalid_entries_fault() {
    let mut mmu = mmu();
    mmu.set_context(Xlen::X64, Privilege::Supervisor, SATP39, 0);
    // The root table is empty.
    assert_eq!(mmu.read8(0x1000), Err(page_fault(Traps::LoadPageFault, 0x1000)));
    // Writable but not readable.
    map_small_page(&mut mmu, 0x8002_0000, V | W | A | D);
    assert_eq!(mmu.write8(0x1000, 1), Err(page_fault(Traps::StorePageFault, 0x1000)));
    // The last level holds a pointer instead of a leaf.
    map_small_page(&mut mmu, 0x8002_0000, V);
    assert_eq!(mmu.read8(0x1000), Err(page_fault(Traps::LoadPageFault, 0x1000)));
}

#[test]
fn page_table_outside_main_memory_is_an_access_fault() {
    let mut mmu = mmu();
    mmu.set_context(Xlen::X64, Privilege::Supervisor, (8 << 60) | 0x10000, 0);
    assert_eq!(
        mmu.read8(0x1000),
        Err(Trap { factor: Traps::LoadAccessFault, value: 0x1000 })
    );
    assert_eq!(
        mmu.fetch16(0x1000),
        Err(Trap { factor: Traps::InstructionAccessFault, value: 0x1000 })
    );
    assert_eq!(
        mmu.write8(0x1000, 0),
        Err(Trap { factor: Traps::StoreAccessFault, value: 0x1000 })
    );
}

#[test]
fn accessed_and_dirty_are_set_by_the_walk() {
    let mut mmu = mmu();
    map_small_page(&mut mmu, 0x8002_0000, V | R | W);
    mmu.set_context(Xlen::X64, Privilege::Supervisor, SATP39, 0);
    assert_eq!(mmu.read8(0x1000), Ok(0));
    assert_eq!(peek(&mut mmu, LEAF + 8), pte(0x8002_0000, V | R | W | A));
    mmu.write8(0x1000, 1).unwrap();
    assert_eq!(peek(&mut mmu, LEAF + 8), pte(0x8002_0000, V | R | W | A | D));
    // The tables on the way keep their entries.
    assert_eq!(peek(&mut mmu, ROOT), pte(MID, V));
    assert_eq!(peek(&mut mmu, MID), pte(LEAF, V));
}

#[test]
fn user_pages_and_the_sum_bit() {
    let mut mmu = mmu();
    map_small_page(&mut mmu, 0x8002_0000, V | R | W | X | U | A | D);
    mmu.set_context(Xlen::X64, Privilege::Supervisor, SATP39, 0);
    assert_eq!(mmu.read8(0x1000), Err(page_fault(Traps::LoadPageFault, 0x1000)));
    mmu.set_context(Xlen::X64, Privilege::Supervisor, SATP39, SUM);
    assert_eq!(mmu.read8(0x1000), Ok(0));
    assert_eq!(mmu.fetch16(0x1000), Err(page_fault(Traps::InstructionPageFault, 0x1000)));
    mmu.set_context(Xlen::X64, Privilege::User, SATP39, 0);
    assert_eq!(mmu.read8(0x1000), Ok(0));
    assert_eq!(mmu.fetch16(0x1000), Ok(0));
    mmu.write8(0x1000, 5).unwrap();
    // A page without U is closed to user code.
    map_small_page(&mut mmu, 0x8002_0000, V | R | W | X | A | D);
    mmu.flush();
    assert_eq!(mmu.read8(0x1000), Err(page_fault(Traps::LoadPageFault, 0x1000)));
}

#[test]
fn executable_pages_are_readable_with_mxr() {
    let mut mmu = mmu();
    map_small_page(&mut mmu, 0x8002_0000, V | X | A);
    mmu.set_context(Xlen::X64, Privilege::Supervisor, SATP39, 0);
    assert_eq!(mmu.read8(0x1000), Err(page_fault(Traps::LoadPageFault, 0x1000)));
    mmu.set_context(Xlen::X64, Privilege::Supervisor, SATP39, MXR);
    assert_eq!(mmu.read8(0x1000), Ok(0));
}

#[test]
fn mprv_gives_loads_and_stores_the_previous_privilege() {
    let mut mmu = mmu();
    map_small_page(&mut mmu, 0x8002_0000, V | R | W | A | D);
    poke(&mut mmu, 0x8002_0000, 0x77);
    // In machine mode with MPRV set and MPP at supervisor, loads are translated and
    // fetches are not.
    mmu.set_context(Xlen::X64, Privilege::Machine, SATP39, MPRV | (1 << 11));
    assert_eq!(mmu.read8(0x1000), Ok(0x77));
    assert_eq!(mmu.translate(0x8000_0000, AccessKind::Fetch), Ok(0x8000_0000));
    assert_eq!(mmu.read8(0x8000_0000), Err(page_fault(Traps::LoadPageFault, 0x8000_0000)));
    mmu.set_context(Xlen::X64, Privilege::Machine, SATP39, MPRV | (3 << 11));
    assert_eq!(mmu.read8(0x8002_0000), Ok(0x77));
}

#[test]
fn translations_are_cached_until_flushed() {
    let mut mmu = mmu();
    map_small_page(&mut mmu, 0x8002_0000, V | R | W | A | D);
    poke(&mut mmu, 0x8002_0000, 0x77);
    mmu.set_context(Xlen::X64, Privilege::Supervisor, SATP39, 0);
    assert_eq!(mmu.read8(0x1000), Ok(0x77));
    // The entry is taken away behind the unit's back.
    poke(&mut mmu, LEAF + 8, 0);
    assert_eq!(mmu.read8(0x1000), Ok(0x77));
    // Stores have a cache of their own, which holds nothing yet.
    assert_eq!(mmu.write8(0x1000, 1), Err(page_fault(Traps::StorePageFault, 0x1000)));
    mmu.flush();
    assert_eq!(mmu.read8(0x1000), Err(page_fault(Traps::LoadPageFault, 0x1000)));
}

#[test]
fn change_of_privilege_or_satp_empties_the_cache() {
    let mut mmu = mmu();
    map_small_page(&mut mmu, 0x8002_0000, V | R | U | A);
    poke(&mut mmu, 0x8002_0000, 0x77);
    mmu.set_context(Xlen::X64, Privilege::User, SATP39, 0);
    assert_eq!(mmu.read8(0x1000), Ok(0x77));
    poke(&mut mmu, LEAF + 8, 0);
    mmu.set_context(Xlen::X64, Privilege::User, SATP39, SUM);
    assert_eq!(mmu.read8(0x1000), Ok(0x77));
    mmu.set_privilege(&Privilege::User);
    assert_eq!(mmu.read8(0x1000), Ok(0x77));
    mmu.set_privilege(&Privilege::Supervisor);
    mmu.set_privilege(&Privilege::User);
    assert_eq!(mmu.read8(0x1000), Err(page_fault(Traps::LoadPageFault, 0x1000)));
    map_small_page(&mut mmu, 0x8002_0000, V | R | U | A);
    assert_eq!(mmu.read8(0x1000), Ok(0x77));
    poke(&mut mmu, LEAF + 8, 0);
    mmu.set_satp(SATP39);
    assert_eq!(mmu.read8(0x1000), Ok(0x77));
    mmu.set_satp(SATP39 | (1 << 44));
    assert_eq!(mmu.read8(0x1000), Err(page_fault(Traps::LoadPageFault, 0x1000)));
}

#[test]
fn cached_translation_checks_the_permission_again() {
    let mut mmu = mmu();
    map_small_page(&mut mmu, 0x8002_0000, V | R | U | A);
    mmu.set_context(Xlen::X64, Privilege::Supervisor, SATP39, SUM);
    assert_eq!(mmu.read8(0x1000), Ok(0));
    mmu.set_mstatus(0);
    assert_eq!(mmu.read8(0x1000), Err(page_fault(Traps::LoadPageFault, 0x1000)));
}

#[test]
fn sv32_on_a_32_bit_hart() {
    let mut mmu = mmu();
    // A 4 MiB page at virtual address 0x0040_0000 and a 4 KiB page at 0x1000.
    mmu.get_bus().write32(ROOT + 4, (pte(0x8040_0000, V | R | W | A | D)) as u32).unwrap();
    mmu.get_bus().write32(ROOT, pte(MID, V) as u32).unwrap();
    mmu.get_bus().write32(MID + 4, pte(0x8002_0000, V | R) as u32).unwrap();
    mmu.get_bus().write32(0x8040_1234, 0xfeed_face).unwrap();
    mmu.get_bus().write32(0x8002_0004, 0x0bad_cafe).unwrap();
    mmu.set_context(Xlen::X32, Privilege::Supervisor, 0x8000_0000 | (ROOT >> 12), 0);
    assert_eq!(mmu.translate(0x0040_1234, AccessKind::Load), Ok(0x8040_1234));
    assert_eq!(mmu.read32(0x0040_1234), Ok(0xfeed_face));
    assert_eq!(mmu.read32(0xffff_ffff_0040_1234), Ok(0xfeed_face));
    assert_eq!(mmu.read32(0x1004), Ok(0x0bad_cafe));
    assert_eq!(mmu.get_bus().read32(MID + 4), Ok(pte(0x8002_0000, V | R | A) as u32));
    assert_eq!(mmu.write8(0x1004, 0), Err(page_fault(Traps::StorePageFault, 0x1004)));
}

#[test]
fn sv48_walks_four_levels() {
    let mut mmu = mmu();
    let top = 0x8001_3000;
    poke(&mut mmu, top, pte(ROOT, V));
    map_small_page(&mut mmu, 0x8002_0000, V | R | A);
    poke(&mut mmu, 0x8002_0008, 0x4242);
    mmu.set_context(Xlen::X64, Privilege::Supervisor, (9 << 60) | (top >> 12), 0);
    assert_eq!(mmu.read64(0x1008), Ok(0x4242));
    assert_eq!(mmu.read64(0x80_0000_1008), Err(page_fault(Traps::LoadPageFault, 0x80_0000_1008)));
}

#[test]
fn misaligned_access_may_fault_on_either_part() {
    let mut mmu = mmu();
    map_small_page(&mut mmu, 0x8002_0000, V | R | W | A | D);
    mmu.set_context(Xlen::X64, Privilege::Supervisor, SATP39, 0);
    // The last two bytes of the mapped page and the first two of the page after it.
    assert_eq!(mmu.read32(0x1ffe), Err(page_fault(Traps::LoadPageFault, 0x2000)));
    assert_eq!(mmu.write32(0x1ffe, 0x1122_3344), Err(page_fault(Traps::StorePageFault, 0x2000)));
    // The bytes before the fault were stored.
    assert_eq!(mmu.read16(0x1ffe), Ok(0x3344));
    assert_eq!(mmu.read32(0x0ffe), Err(page_fault(Traps::LoadPageFault, 0x0ffe)));
}

#[test]
fn access_to_a_device_through_the_unit() {
    let mut mmu = mmu();
    mmu.write8(UART_ADDRESS_START + 7, 0x5a).unwrap();
    assert_eq!(mmu.read8(UART_ADDRESS_START + 7), Ok(0x5a));
    assert_eq!(
        mmu.read8(0x1000),
        Err(Trap { factor: Traps::LoadAccessFault, value: 0x1000 })
    );
    assert_eq!(
        mmu.write64(0x1000, 0),
        Err(Trap { factor: Traps::StoreAccessFault, value: 0x1000 })
    );
}

#[test]
fn direct_access_goes_past_translation() {
    let mut mmu = mmu();
    mmu.set_context(Xlen::X64, Privilege::Supervisor, SATP39, 0);
    mmu.write8_direct(0x8000_0040, 0x99).unwrap();
    assert_eq!(mmu.read32_direct(0x8000_0040), Ok(0x99));
    assert_eq!(mmu.read_dram(0x8000_0040, 1), Some(0x99));
    assert_eq!(mmu.read_dram(0x1000, 1), None);
    assert_eq!(
        mmu.read32_direct(0x1000),
        Err(Trap { factor: Traps::LoadAccessFault, value: 0x1000 })
    );
    assert_eq!(
        mmu.write8_direct(0x1000, 0),
        Err(Trap { factor: Traps::StoreAccessFault, value: 0x1000 })
    );
}

#[test]
fn reservation_through_the_unit() {
    let mut mmu = mmu();
    mmu.write32(0x8000_0200, 0x1111_1111).unwrap();
    assert_eq!(mmu.load_reserved(0x8000_0200, 4), Ok(0x1111_1111));
    assert_eq!(mmu.store_conditional(0x8000_0204, 0x2222_2222, 4), Ok(true));
    assert_eq!(mmu.read64(0x8000_0200), Ok(0x2222_2222_1111_1111));
    assert_eq!(mmu.store_conditional(0x8000_0200, 1, 4), Ok(false));
    assert_eq!(mmu.load_reserved(0x8000_0200, 4), Ok(0x1111_1111));
    mmu.release();
    assert_eq!(mmu.store_conditional(0x8000_0200, 1, 4), Ok(false));
    assert_eq!(
        mmu.load_reserved(0x8000_0202, 4),
        Err(Trap { factor: Traps::LoadAddressMisaligned, value: 0x8000_0202 })
    );
    assert_eq!(
        mmu.store_conditional(0x8000_0204, 1, 8),
        Err(Trap { factor: Traps::StoreAddressMisaligned, value: 0x8000_0204 })
    );
    assert_eq!(
        mmu.load_reserved(0x1000, 4),
        Err(Trap { factor: Traps::LoadAccessFault, value: 0x1000 })
    );
}
