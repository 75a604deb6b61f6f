//! Core-local timer: a free-running counter, a compare register and a software-interrupt
//! latch for hart 0. The timer-interrupt line is a register that is clocked together with
//! the counter: on a tick it takes the comparison of the counter, as it stood before the
//! tick, with the compare register.

use vstd::prelude::*;

verus! {

/// Offset of the software-interrupt latch.
pub const MSIP_OFFSET: u64 = 0x0000;

/// Offset of the low word of the compare register.
pub const COMPARE_OFFSET: u64 = 0x4000;

/// Offset of the low word of the counter.
pub const MTIME_OFFSET: u64 = 0xBFF8;

/// Number of ticks of the bus that advance the counter by one.
pub const TICKS_PER_COUNT: u64 = 1;

#[derive(Clone, Copy, Debug, PartialEq, Eq, Structural)]
pub struct Timer {
    /// Software-interrupt latch of hart 0.
    pub msip: u32,
    /// The counter value from which on the timer interrupt is raised.
    pub compare: u64,
    /// The counter.
    pub mtime: u64,
    /// Ticks seen so far.
    pub clock: u64,
    /// The timer-interrupt line of hart 0.
    pub line: bool,
}

/// `word` in place of the low half of `v`.
pub open spec fn with_low(v: u64, word: u32) -> u64 {
    (v & 0xffff_ffff_0000_0000) | (word as u64)
}

/// `word` in place of the high half of `v`.
pub open spec fn with_high(v: u64, word: u32) -> u64 {
    (v & 0x0000_0000_ffff_ffff) | ((word as u64) << 32)
}

impl Timer {
    /// The device one tick later: the counter advances once every `TICKS_PER_COUNT` ticks,
    /// and the timer-interrupt line is raised while the counter, before the tick, has
    /// reached the compare register.
    pub open spec fn spec_tick(self) -> Timer {
        let clock = if self.clock == u64::MAX {
            0
        } else {
            (self.clock + 1) as u64
        };
        Timer {
            clock,
            line: self.mtime >= self.compare,
            mtime: if clock % TICKS_PER_COUNT == 0 {
                if self.mtime == u64::MAX {
                    0
                } else {
                    (self.mtime + 1) as u64
                }
            } else {
                self.mtime
            },
            ..self
        }
    }

    /// Whether the software-interrupt line of hart `core` is raised.
    pub open spec fn spec_software(self, core: usize) -> bool {
        core == 0 && (self.msip & 1) != 0
    }

    /// Whether the timer-interrupt line of hart `core` is raised: at the last tick the
    /// counter had reached the compare register.
    pub open spec fn spec_timer(self, core: usize) -> bool {
        core == 0 && self.line
    }

    /// The word read at offset `addr`; 0 where there is no register.
    pub open spec fn spec_read(self, addr: u64) -> u32 {
        if addr == MSIP_OFFSET {
            self.msip
        } else if addr == COMPARE_OFFSET {
            self.compare as u32
        } else if addr == COMPARE_OFFSET + 4 {
            (self.compare >> 32) as u32
        } else if addr == MTIME_OFFSET {
            self.mtime as u32
        } else if addr == MTIME_OFFSET + 4 {
            (self.mtime >> 32) as u32
        } else {
            0
        }
    }

    /// The device after `data` was written at offset `addr`; nothing changes where there is
    /// no register.
    pub open spec fn spec_write(self, addr: u64, data: u32) -> Timer {
        if addr == MSIP_OFFSET {
            Timer { msip: data & 1, ..self }
        } else if addr == COMPARE_OFFSET {
            Timer { compare: with_low(self.compare, data), ..self }
        } else if addr == COMPARE_OFFSET + 4 {
            Timer { compare: with_high(self.compare, data), ..self }
        } else if addr == MTIME_OFFSET {
            Timer { mtime: with_low(self.mtime, data), ..self }
        } else if addr == MTIME_OFFSET + 4 {
            Timer { mtime: with_high(self.mtime, data), ..self }
        } else {
            self
        }
    }

    pub fn new() -> (r: Self)
        ensures
            r == (Timer { msip: 0, compare: 0, mtime: 0, clock: 0, line: false }),
    {
        Timer { msip: 0, compare: 0, mtime: 0, clock: 0, line: false }
    }

    pub fn tick(&mut self)
        ensures
            *final(self) == old(self).spec_tick(),
    {
        self.clock = self.clock.wrapping_add(1);
        self.line = self.mtime >= self.compare;
        if self.clock % TICKS_PER_COUNT == 0 {
            self.mtime = self.mtime.wrapping_add(1);
        }
    }

    pub fn is_pending_software_interrupt(&self, core: usize) -> (r: bool)
        ensures
            r == self.spec_software(core),
    {
        core == 0 && (self.msip & 1) != 0
    }

    pub fn is_pending_timer_interrupt(&self, core: usize) -> (r: bool)
        ensures
            r == self.spec_timer(core),
    {
        core == 0 && self.line
    }

    pub fn read(&self, addr: u64) -> (r: u32)
        ensures
            r == self.spec_read(addr),
    {
        if addr == MSIP_OFFSET {
            self.msip
        } else if addr == COMPARE_OFFSET {
            self.compare as u32
        } else if addr == COMPARE_OFFSET + 4 {
            (self.compare >> 32) as u32
        } else if addr == MTIME_OFFSET {
            self.mtime as u32
        } else if addr == MTIME_OFFSET + 4 {
            (self.mtime >> 32) as u32
        } else {
            0
        }
    }

    pub fn write(&mut self, addr: u64, data: u32)
        ensures
            *final(self) == old(self).spec_write(addr, data),
    {
        if addr == MSIP_OFFSET {
            self.msip = data & 1;
        } else if addr == COMPARE_OFFSET {
            self.compare = (self.compare & 0xffff_ffff_0000_0000) | (data as u64);
        } else if addr == COMPARE_OFFSET + 4 {
            self.compare = (self.compare & 0x0000_0000_ffff_ffff) | ((data as u64) << 32);
        } else if addr == MTIME_OFFSET {
            self.mtime = (self.mtime & 0xffff_ffff_0000_0000) | (data as u64);
        } else if addr == MTIME_OFFSET + 4 {
            self.mtime = (self.mtime & 0x0000_0000_ffff_ffff) | ((data as u64) << 32);
        }
    }
}

/// A word written to one half of a 64-bit register is read back from that half, and the
/// other half keeps its value.
pub proof fn lemma_halves(v: u64, word: u32)
    by (bit_vector)
    ensures
        ((v & 0xffff_ffff_0000_0000) | (word as u64)) as u32 == word,
        (((v & 0xffff_ffff_0000_0000) | (word as u64)) >> 32) as u32 == (v >> 32) as u32,
        (((v & 0x0000_0000_ffff_ffff) | ((word as u64) << 32)) >> 32) as u32 == word,
        ((v & 0x0000_0000_ffff_ffff) | ((word as u64) << 32)) as u32 == v as u32,
{
}

} // verus!
