//! The control and status registers: 4096 slots, gated by privilege, some of them windows
//! onto fields of another.

use crate::cpu::cpu::Privilege;
use crate::trap::{Trap, Traps};
use vstd::prelude::*;

verus! {

pub const CSR_USTATUS: u16 = 0x000;
pub const CSR_UIE: u16 = 0x004;
pub const CSR_UTVEC: u16 = 0x005;
pub const CSR_USCRATCH: u16 = 0x040;
pub const CSR_UEPC: u16 = 0x041;
pub const CSR_UCAUSE: u16 = 0x042;
pub const CSR_UTVAL: u16 = 0x043;
pub const CSR_UIP: u16 = 0x044;
pub const CSR_FFLAGS: u16 = 0x001;
pub const CSR_FRM: u16 = 0x002;
pub const CSR_FCSR: u16 = 0x003;
pub const CSR_CYCLE: u16 = 0xC00;
pub const CSR_TIME: u16 = 0xC01;
pub const CSR_INSTRET: u16 = 0xC02;
pub const CSR_CYCLEH: u16 = 0xC80;
pub const CSR_TIMEH: u16 = 0xC81;
pub const CSR_INSTRETH: u16 = 0xC82;
pub const CSR_SSTATUS: u16 = 0x100;
pub const CSR_SEDELEG: u16 = 0x102;
pub const CSR_SIDELEG: u16 = 0x103;
pub const CSR_SIE: u16 = 0x104;
pub const CSR_STVEC: u16 = 0x105;
pub const CSR_SSCRATCH: u16 = 0x140;
pub const CSR_SEPC: u16 = 0x141;
pub const CSR_SCAUSE: u16 = 0x142;
pub const CSR_STVAL: u16 = 0x143;
pub const CSR_SIP: u16 = 0x144;
pub const CSR_SPTBR: u16 = 0x180;
pub const CSR_SATP: u16 = 0x180;
pub const CSR_SCYCLE: u16 = 0xD00;
pub const CSR_STIME: u16 = 0xD01;
pub const CSR_SINSTRET: u16 = 0xD02;
pub const CSR_SCYCLEH: u16 = 0xD80;
pub const CSR_STIMEH: u16 = 0xD81;
pub const CSR_SINSTRETH: u16 = 0xD82;
pub const CSR_HSTATUS: u16 = 0x200;
pub const CSR_HEDELEG: u16 = 0x202;
pub const CSR_HIDELEG: u16 = 0x203;
pub const CSR_HIE: u16 = 0x204;
pub const CSR_HTVEC: u16 = 0x205;
pub const CSR_HSCRATCH: u16 = 0x240;
pub const CSR_HEPC: u16 = 0x241;
pub const CSR_HCAUSE: u16 = 0x242;
pub const CSR_HTVAL: u16 = 0x243;
pub const CSR_HCYCLE: u16 = 0xE00;
pub const CSR_HTIME: u16 = 0xE01;
pub const CSR_HINSTRET: u16 = 0xE02;
pub const CSR_HCYCLEH: u16 = 0xE80;
pub const CSR_HTIMEH: u16 = 0xE81;
pub const CSR_HINSTRETH: u16 = 0xE82;
pub const CSR_MISA: u16 = 0xF10;
pub const CSR_MVENDORID: u16 = 0xF11;
pub const CSR_MARCHID: u16 = 0xF12;
pub const CSR_MIMPID: u16 = 0xF13;
pub const CSR_MHARTID: u16 = 0xF14;
pub const CSR_MSTATUS: u16 = 0x300;
pub const CSR_MEDELEG: u16 = 0x302;
pub const CSR_MIDELEG: u16 = 0x303;
pub const CSR_MIE: u16 = 0x304;
pub const CSR_MTVEC: u16 = 0x305;
pub const CSR_MSCRATCH: u16 = 0x340;
pub const CSR_MEPC: u16 = 0x341;
pub const CSR_MCAUSE: u16 = 0x342;
pub const CSR_MTVAL: u16 = 0x343;
pub const CSR_MIP: u16 = 0x344;
pub const CSR_MBASE: u16 = 0x380;
pub const CSR_MBOUND: u16 = 0x381;
pub const CSR_MIBASE: u16 = 0x382;
pub const CSR_MIBOUND: u16 = 0x383;
pub const CSR_MDBASE: u16 = 0x384;
pub const CSR_MDBOUND: u16 = 0x385;
pub const CSR_MCYCLE: u16 = 0xF00;
pub const CSR_MTIME: u16 = 0xF01;
pub const CSR_MINSTRET: u16 = 0xF02;
pub const CSR_MCYCLEH: u16 = 0xF80;
pub const CSR_MTIMEH: u16 = 0xF81;
pub const CSR_MINSTRETH: u16 = 0xF82;
pub const CSR_MUCONTEREN: u16 = 0x310;
pub const CSR_MSCONTEREN: u16 = 0x311;
pub const CSR_MHCONTEREN: u16 = 0x312;

/// Number of slots of the register file.
pub const CSR_COUNT: usize = 4096;

/// Fields of `mstatus` that show through `sstatus`.
pub const SSTATUS_MASK: u64 = 0x8000_0003_000D_E133;

/// Fields of `mstatus` that a write can change: the interrupt enables and their previous
/// values, the previous privileges, FS, MPRV, SUM, MXR, TVM, TW, TSR, UXL and SXL. The
/// other bits are reserved or read-only.
pub const MSTATUS_WRITABLE: u64 = 0x0000_000F_007E_79BB;

/// Fields of `mstatus` that a write to `sstatus` can change.
pub const SSTATUS_WRITABLE: u64 = 0x0000_0003_000C_6133;

/// Bits of `mip` that a write can change: the software and timer interrupts of the
/// supervisor and the user level. The other bits follow the interrupt lines.
pub const MIP_WRITABLE: u64 = 0x033;

/// Fields of `mstatus` that show through `ustatus`.
pub const USTATUS_MASK: u64 = 0x11;

/// Bits of `mie` and `mip` that show through `sie` and `sip`.
pub const SIX_MASK: u64 = 0x333;

/// Bits of `mie` and `mip` that show through `uie` and `uip`.
pub const UIX_MASK: u64 = 0x111;

/// How a register is kept: the slot that holds it, the bits of that slot that a read shows,
/// the bits that a write can change, and how far the register's bit 0 lies from bit 0 of
/// the slot. A register that is a field of another names the other's slot.
pub struct Window {
    pub slot: u16,
    pub mask: u64,
    pub writable: u64,
    pub shift: u64,
}

/// Where the register `addr` is kept: in its own slot as a whole, or as a field of another.
pub open spec fn spec_window_of(addr: u16) -> Window {
    if addr == CSR_USTATUS {
        Window { slot: CSR_MSTATUS, mask: USTATUS_MASK, writable: USTATUS_MASK, shift: 0 }
    } else if addr == CSR_SSTATUS {
        Window { slot: CSR_MSTATUS, mask: SSTATUS_MASK, writable: SSTATUS_WRITABLE, shift: 0 }
    } else if addr == CSR_MSTATUS {
        Window { slot: CSR_MSTATUS, mask: 0xffff_ffff_ffff_ffff, writable: MSTATUS_WRITABLE, shift: 0 }
    } else if addr == CSR_UIE {
        Window { slot: CSR_MIE, mask: UIX_MASK, writable: UIX_MASK, shift: 0 }
    } else if addr == CSR_SIE {
        Window { slot: CSR_MIE, mask: SIX_MASK, writable: SIX_MASK, shift: 0 }
    } else if addr == CSR_UIP {
        Window { slot: CSR_MIP, mask: UIX_MASK, writable: 0x011, shift: 0 }
    } else if addr == CSR_SIP {
        Window { slot: CSR_MIP, mask: SIX_MASK, writable: MIP_WRITABLE, shift: 0 }
    } else if addr == CSR_MIP {
        Window { slot: CSR_MIP, mask: 0xffff_ffff_ffff_ffff, writable: MIP_WRITABLE, shift: 0 }
    } else if addr == CSR_FFLAGS {
        Window { slot: CSR_FCSR, mask: 0x1f, writable: 0x1f, shift: 0 }
    } else if addr == CSR_FRM {
        Window { slot: CSR_FCSR, mask: 0xe0, writable: 0xe0, shift: 5 }
    } else if addr == CSR_FCSR {
        Window { slot: CSR_FCSR, mask: 0xff, writable: 0xff, shift: 0 }
    } else {
        Window { slot: addr, mask: 0xffff_ffff_ffff_ffff, writable: 0xffff_ffff_ffff_ffff, shift: 0 }
    }
}

#[verifier::when_used_as_spec(spec_window_of)]
pub fn window_of(addr: u16) -> (w: Window)
    ensures
        w == spec_window_of(addr),
        addr < CSR_COUNT ==> w.slot < CSR_COUNT,
        w.shift < 64,
{
    if addr == CSR_USTATUS {
        Window { slot: CSR_MSTATUS, mask: USTATUS_MASK, writable: USTATUS_MASK, shift: 0 }
    } else if addr == CSR_SSTATUS {
        Window { slot: CSR_MSTATUS, mask: SSTATUS_MASK, writable: SSTATUS_WRITABLE, shift: 0 }
    } else if addr == CSR_MSTATUS {
        Window { slot: CSR_MSTATUS, mask: 0xffff_ffff_ffff_ffff, writable: MSTATUS_WRITABLE, shift: 0 }
    } else if addr == CSR_UIE {
        Window { slot: CSR_MIE, mask: UIX_MASK, writable: UIX_MASK, shift: 0 }
    } else if addr == CSR_SIE {
        Window { slot: CSR_MIE, mask: SIX_MASK, writable: SIX_MASK, shift: 0 }
    } else if addr == CSR_UIP {
        Window { slot: CSR_MIP, mask: UIX_MASK, writable: 0x011, shift: 0 }
    } else if addr == CSR_SIP {
        Window { slot: CSR_MIP, mask: SIX_MASK, writable: MIP_WRITABLE, shift: 0 }
    } else if addr == CSR_MIP {
        Window { slot: CSR_MIP, mask: 0xffff_ffff_ffff_ffff, writable: MIP_WRITABLE, shift: 0 }
    } else if addr == CSR_FFLAGS {
        Window { slot: CSR_FCSR, mask: 0x1f, writable: 0x1f, shift: 0 }
    } else if addr == CSR_FRM {
        Window { slot: CSR_FCSR, mask: 0xe0, writable: 0xe0, shift: 5 }
    } else if addr == CSR_FCSR {
        Window { slot: CSR_FCSR, mask: 0xff, writable: 0xff, shift: 0 }
    } else {
        Window { slot: addr, mask: 0xffff_ffff_ffff_ffff, writable: 0xffff_ffff_ffff_ffff, shift: 0 }
    }
}

/// The lowest privilege that may access the register: bits 9 and 8 of its address.
pub open spec fn csr_privilege(addr: u16) -> u8 {
    ((addr >> 8) & 0x3) as u8
}

/// Whether code at `privilege` may access the register `addr`.
pub open spec fn permitted(addr: u16, privilege: Privilege) -> bool {
    csr_privilege(addr) <= privilege.level()
}

/// The value that a read of the register `addr` yields from the slots `s`.
pub open spec fn read_value(s: Seq<u64>, addr: u16) -> u64 {
    let w = window_of(addr);
    (s[w.slot as int] & w.mask) >> w.shift
}

/// The slots after `data` was written to the register `addr`: the bits of the register
/// that a write can change take those of `data`, every other bit stays.
pub open spec fn written(s: Seq<u64>, addr: u16, data: u64) -> Seq<u64> {
    let w = window_of(addr);
    s.update(w.slot as int, (s[w.slot as int] & !w.writable) | ((data << w.shift) & w.writable))
}

/// Whether the register `addr` is kept in its own slot as a whole.
pub open spec fn is_plain(addr: u16) -> bool {
    window_of(addr).slot == addr && window_of(addr).mask == 0xffff_ffff_ffff_ffff && window_of(
        addr,
    ).shift == 0
}

/// `data` as far as the register `addr` has bits to show it.
pub open spec fn shown(addr: u16, data: u64) -> u64 {
    let w = window_of(addr);
    ((data << w.shift) & w.mask) >> w.shift
}

/// The slots after the hart itself has stored `data` in the register `addr`: every bit
/// that a read of the register shows takes that of `data`, whether an instruction could
/// write it or not; the other bits of the slot stay.
pub open spec fn stored(s: Seq<u64>, addr: u16, data: u64) -> Seq<u64> {
    let w = window_of(addr);
    s.update(w.slot as int, (s[w.slot as int] & !w.mask) | ((data << w.shift) & w.mask))
}

/// A field that was put into a slot is read back from it, and a register that has its slot
/// to itself is the slot.
proof fn lemma_field(x: u64, d: u64, m: u64, sh: u64)
    by (bit_vector)
    requires
        sh < 64,
    ensures
        (((x & !m) | ((d << sh) & m)) & m) >> sh == ((d << sh) & m) >> sh,
        (x & 0xffff_ffff_ffff_ffffu64) >> 0u64 == x,
        (x & !0xffff_ffff_ffff_ffffu64) | ((d << 0u64) & 0xffff_ffff_ffff_ffffu64) == d,
        ((d << 0u64) & 0xffff_ffff_ffff_ffffu64) >> 0u64 == d,
{
}

/// What the hart has stored in a register is what a read of the register yields, as far as
/// the register has bits to show it; of a register that has its slot to itself that is all
/// of it.
pub proof fn lemma_stored_then_read(s: Seq<u64>, addr: u16, data: u64)
    requires
        addr < CSR_COUNT,
        s.len() == CSR_COUNT,
    ensures
        read_value(stored(s, addr, data), addr) == shown(addr, data),
        is_plain(addr) ==> shown(addr, data) == data && read_value(s, addr) == s[addr as int]
            && stored(s, addr, data) == s.update(addr as int, data),
{
    let w = window_of(addr);
    lemma_field(s[w.slot as int], data, w.mask, w.shift);
}

/// The trap that a refused access raises.
pub open spec fn refusal(instruction_addr: u64) -> Trap {
    Trap { factor: Traps::IllegalInstruction, value: instruction_addr }
}

pub struct Csr {
    csr: [u64; 4096],
}

impl View for Csr {
    type V = Seq<u64>;

    closed spec fn view(&self) -> Seq<u64> {
        self.csr@
    }
}

impl Csr {
    pub fn new() -> (r: Self)
        ensures
            r@ == Seq::new(CSR_COUNT as nat, |i: int| 0u64),
    {
        let csr = Csr { csr: [0; 4096] };
        assert(csr@ =~= Seq::new(CSR_COUNT as nat, |i: int| 0u64));
        csr
    }

    /// Every register file has `CSR_COUNT` slots.
    pub proof fn lemma_len(&self)
        ensures
            self@.len() == CSR_COUNT,
    {
    }

    /// Reads the register `addr` on behalf of code at `cur_privilege`; an access from too
    /// low a privilege is refused.
    pub fn read(&self, addr: u16, instruction_addr: u64, cur_privilege: &Privilege) -> (r: Result<
        u64,
        Trap,
    >)
        requires
            addr < CSR_COUNT,
        ensures
            r == if permitted(addr, *cur_privilege) {
                Ok::<u64, Trap>(read_value(self@, addr))
            } else {
                Err::<u64, Trap>(refusal(instruction_addr))
            },
    {
        let privilege = ((addr >> 8) & 0x3) as u8;
        let cur_level = self.to_u8(cur_privilege);
        if privilege <= cur_level {
            let w = window_of(addr);
            Ok((self.csr[w.slot as usize] & w.mask) >> w.shift)
        } else {
            Err(Trap { factor: Traps::IllegalInstruction, value: instruction_addr })
        }
    }

    /// The register `addr` as the hart itself reads it, whatever the privilege level: the
    /// same value that a permitted `read` yields.
    pub fn read_direct(&self, addr: u16) -> (r: u64)
        requires
            addr < CSR_COUNT,
        ensures
            r == read_value(self@, addr),
            is_plain(addr) ==> r == self@[addr as int],
    {
        let w = window_of(addr);
        proof {
            lemma_field(self.csr@[w.slot as int], 0, w.mask, w.shift);
        }
        (self.csr[w.slot as usize] & w.mask) >> w.shift
    }

    /// Sets in the register `addr` the bits that are set in `bitmask`.
    pub fn read_modify_write_direct(&mut self, addr: u16, bitmask: u64)
        requires
            addr < CSR_COUNT,
        ensures
            final(self)@ == stored(old(self)@, addr, read_value(old(self)@, addr) | bitmask),
            is_plain(addr) ==> final(self)@ == old(self)@.update(
                addr as int,
                old(self)@[addr as int] | bitmask,
            ),
    {
        let data = self.read_direct(addr);
        self.write_direct(addr, data | bitmask);
    }

    /// Writes the register `addr` on behalf of code at `cur_privilege`; an access from too
    /// low a privilege is refused and changes nothing.
    pub fn write(
        &mut self,
        addr: u16,
        data: u64,
        instruction_addr: u64,
        cur_privilege: &Privilege,
    ) -> (r: Result<(), Trap>)
        requires
            addr < CSR_COUNT,
        ensures
            permitted(addr, *cur_privilege) ==> r == Ok::<(), Trap>(()) && final(self)@ == written(
                old(self)@,
                addr,
                data,
            ),
            !permitted(addr, *cur_privilege) ==> r == Err::<(), Trap>(refusal(instruction_addr))
                && final(self)@ == old(self)@,
    {
        let privilege = ((addr >> 8) & 0x3) as u8;
        let cur_level = self.to_u8(cur_privilege);
        if privilege <= cur_level {
            let w = window_of(addr);
            let kept = self.csr[w.slot as usize] & !w.writable;
            self.csr[w.slot as usize] = kept | ((data << w.shift) & w.writable);
            Ok(())
        } else {
            Err(Trap { factor: Traps::IllegalInstruction, value: instruction_addr })
        }
    }

    /// Stores `data` in the register `addr` as the hart itself does, whatever the
    /// privilege level and whatever an instruction could write: a read of the register then
    /// yields `data`, as far as the register has bits to show it.
    pub fn write_direct(&mut self, addr: u16, data: u64)
        requires
            addr < CSR_COUNT,
        ensures
            final(self)@ == stored(old(self)@, addr, data),
            read_value(final(self)@, addr) == shown(addr, data),
            is_plain(addr) ==> final(self)@ == old(self)@.update(addr as int, data),
    {
        let w = window_of(addr);
        proof {
            lemma_field(self.csr@[w.slot as int], data, w.mask, w.shift);
        }
        let kept = self.csr[w.slot as usize] & !w.mask;
        self.csr[w.slot as usize] = kept | ((data << w.shift) & w.mask);
    }

    fn to_u8(&self, privilege: &Privilege) -> (r: u8)
        ensures
            r == privilege.level(),
    {
        privilege.level()
    }
}

} // verus!
