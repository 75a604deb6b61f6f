//! General purpose I/O block of the FE310-G002: a bank of word registers that keep what
//! was written to them.

use vstd::prelude::*;

verus! {

/// Number of word registers of the block.
pub const GPIO_REGISTERS: usize = 17;

pub struct Gpio {
    regs: [u32; 17],
}

impl View for Gpio {
    type V = Seq<u32>;

    closed spec fn view(&self) -> Seq<u32> {
        self.regs@
    }
}

/// The register that lies at offset `addr`, if there is one.
pub open spec fn register_at(addr: u64) -> Option<int> {
    if addr % 4 == 0 && addr / 4 < GPIO_REGISTERS as u64 {
        Some((addr / 4) as int)
    } else {
        None
    }
}

/// The word read from the registers `s` at offset `addr`; 0 where there is no register.
pub open spec fn gpio_read(s: Seq<u32>, addr: u64) -> u32 {
    match register_at(addr) {
        Some(i) => s[i],
        None => 0,
    }
}

/// The registers `s` after `data` was written at offset `addr`; nothing changes where there
/// is no register.
pub open spec fn gpio_write(s: Seq<u32>, addr: u64, data: u32) -> Seq<u32> {
    match register_at(addr) {
        Some(i) => s.update(i, data),
        None => s,
    }
}

impl Gpio {
    pub fn new() -> (r: Self)
        ensures
            r@ == Seq::new(GPIO_REGISTERS as nat, |i: int| 0u32),
    {
        let r = Gpio { regs: [0; 17] };
        assert(r@ =~= Seq::new(GPIO_REGISTERS as nat, |i: int| 0u32));
        r
    }

    /// The pins need no work per tick.
    pub fn tick(&mut self)
        ensures
            final(self)@ == old(self)@,
    {
    }

    pub fn read(&self, addr: u64) -> (r: u32)
        ensures
            r == gpio_read(self@, addr),
    {
        if addr % 4 == 0 && addr / 4 < GPIO_REGISTERS as u64 {
            self.regs[(addr / 4) as usize]
        } else {
            0
        }
    }

    pub fn write(&mut self, addr: u64, data: u32)
        ensures
            final(self)@ == gpio_write(old(self)@, addr, data),
    {
        if addr % 4 == 0 && addr / 4 < GPIO_REGISTERS as u64 {
            self.regs[(addr / 4) as usize] = data;
        }
    }
}

} // verus!
