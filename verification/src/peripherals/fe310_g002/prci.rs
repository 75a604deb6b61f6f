//! Power, reset, clock and interrupt block of the FE310-G002: four configuration words
//! whose oscillators and PLL always report ready.

use vstd::prelude::*;

verus! {

/// The flag with which an oscillator reports that it runs, and the PLL that it has locked.
pub const READY: u32 = 0x8000_0000;

#[derive(Clone, Copy, Debug, PartialEq, Eq, Structural)]
pub struct Prci {
    pub hfrosccfg: u32,
    pub hfxosccfg: u32,
    pub pllcfg: u32,
    pub plloutdiv: u32,
}

impl Prci {
    /// The word read at offset `addr`; 0 where there is no register.
    pub open spec fn spec_read(self, addr: u64) -> u32 {
        if addr == 0x00 {
            self.hfrosccfg | READY
        } else if addr == 0x04 {
            self.hfxosccfg | READY
        } else if addr == 0x08 {
            self.pllcfg | READY
        } else if addr == 0x0C {
            self.plloutdiv
        } else {
            0
        }
    }

    /// The device after `data` was written at offset `addr`; nothing changes where there is
    /// no register.
    pub open spec fn spec_write(self, addr: u64, data: u32) -> Prci {
        if addr == 0x00 {
            Prci { hfrosccfg: data, ..self }
        } else if addr == 0x04 {
            Prci { hfxosccfg: data, ..self }
        } else if addr == 0x08 {
            Prci { pllcfg: data, ..self }
        } else if addr == 0x0C {
            Prci { plloutdiv: data, ..self }
        } else {
            self
        }
    }

    pub fn new() -> (r: Self)
        ensures
            r == (Prci { hfrosccfg: 0, hfxosccfg: 0, pllcfg: 0, plloutdiv: 0 }),
    {
        Prci { hfrosccfg: 0, hfxosccfg: 0, pllcfg: 0, plloutdiv: 0 }
    }

    /// The clocks need no work per tick.
    pub fn tick(&mut self)
        ensures
            *final(self) == *old(self),
    {
    }

    pub fn read(&self, addr: u64) -> (r: u32)
        ensures
            r == self.spec_read(addr),
    {
        if addr == 0x00 {
            self.hfrosccfg | READY
        } else if addr == 0x04 {
            self.hfxosccfg | READY
        } else if addr == 0x08 {
            self.pllcfg | READY
        } else if addr == 0x0C {
            self.plloutdiv
        } else {
            0
        }
    }

    pub fn write(&mut self, addr: u64, data: u32)
        ensures
            *final(self) == old(self).spec_write(addr, data),
    {
        if addr == 0x00 {
            self.hfrosccfg = data;
        } else if addr == 0x04 {
            self.hfxosccfg = data;
        } else if addr == 0x08 {
            self.pllcfg = data;
        } else if addr == 0x0C {
            self.plloutdiv = data;
        }
    }
}

} // verus!
