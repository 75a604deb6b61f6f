//! 16550a UART.

use crate::console::{Console, Terminal, TerminalView};
use vstd::prelude::*;

verus! {

pub const IER_DATA_READY: u8 = 0x01;
pub const IER_THR_EMPTY: u8 = 0x02;
pub const ISR_INTERRUPT_STATUS_NO_INTERRUPT: u8 = 0x01;
pub const ISR_IDENTIFICATION_CODE_DATA_READY: u8 = 0x4;
pub const ISR_IDENTIFICATION_CODE_THR_EMPTY: u8 = 0x2;
pub const LSR_DATA_READY: u8 = 0x01;
pub const LSR_THR_EMPTY: u8 = 0x20;

pub struct Uart {
    /// Receive Hold Register, RO
    rhr: u8,
    /// Transmit Hold Register, WO
    thr: u8,
    /// Interrupt Enable Register (IER), R/W
    ier: u8,
    /// Interrupt Status Register (ISR), RO
    isr: u8,
    /// FIFO Control Register (FCR), WO
    fcr: u8,
    /// Line Control Register (LCR), R/W
    lcr: u8,
    /// Modem Control Register (MCR), R/W
    mcr: u8,
    /// Line Status Register (LSR), RO
    lsr: u8,
    /// Modem Status Register (MSR), RO
    msr: u8,
    /// ScratchPad Register (SPR), R/W
    spr: u8,
    /// Terminal for serial console.
    tty: Terminal,
}

/// The registers of a `Uart` and the terminal behind it.
pub struct UartView {
    pub rhr: u8,
    pub thr: u8,
    pub ier: u8,
    pub isr: u8,
    pub fcr: u8,
    pub lcr: u8,
    pub mcr: u8,
    pub lsr: u8,
    pub msr: u8,
    pub spr: u8,
    pub tty: TerminalView,
}

impl UartView {
    /// The device as it is built around the terminal `tty`.
    pub open spec fn init(tty: TerminalView) -> UartView {
        UartView {
            rhr: 0,
            thr: 0,
            ier: 0,
            isr: 0x01,
            fcr: 0,
            lcr: 0,
            mcr: 0,
            lsr: 0x60,
            msr: 0,
            spr: 0,
            tty,
        }
    }

    /// The receiver's part of a tick: with the receive register empty, the terminal is
    /// asked for a byte; a byte other than 0 fills the register and sets the data-ready
    /// status.
    pub open spec fn receive(self) -> UartView {
        if self.rhr == 0 {
            let c = self.tty.front();
            if c != 0 {
                UartView {
                    rhr: c,
                    lsr: self.lsr | LSR_DATA_READY,
                    tty: self.tty.pop(),
                    ..self
                }
            } else {
                UartView { tty: self.tty.pop(), ..self }
            }
        } else {
            self
        }
    }

    /// The transmitter's part of a tick: a byte other than 0 in the transmit register goes
    /// to the terminal, the register is emptied and the transmitter-empty status is set.
    pub open spec fn transmit(self) -> UartView {
        if self.thr != 0 {
            UartView {
                thr: 0,
                lsr: self.lsr | LSR_THR_EMPTY,
                tty: self.tty.put(self.thr),
                ..self
            }
        } else {
            self
        }
    }

    /// The device one tick later.
    pub open spec fn tick(self) -> UartView {
        self.receive().transmit()
    }

    /// The value that a read of register `addr & 7` returns.
    pub open spec fn read_value(self, addr: u64) -> u8 {
        let reg = addr & 0x7;
        if reg == 0 {
            self.rhr
        } else if reg == 1 {
            self.ier
        } else if reg == 2 {
            self.isr
        } else if reg == 3 {
            self.lcr
        } else if reg == 4 {
            self.mcr
        } else if reg == 5 {
            self.lsr
        } else if reg == 6 {
            self.msr
        } else {
            self.spr
        }
    }

    /// The device after a read of register `addr & 7`: reading the receive register empties
    /// it and clears the data-ready status.
    pub open spec fn read(self, addr: u64) -> UartView {
        if addr & 0x7 == 0 {
            UartView { rhr: 0, lsr: self.lsr & !LSR_DATA_READY, ..self }
        } else {
            self
        }
    }

    /// The device after `data` was written to register `addr & 7`.
    pub open spec fn write(self, addr: u64, data: u8) -> UartView {
        let reg = addr & 0x7;
        if reg == 0 {
            UartView { thr: data, lsr: self.lsr & !LSR_THR_EMPTY, ..self }
        } else if reg == 1 {
            UartView { ier: data, ..self }
        } else if reg == 2 {
            UartView { fcr: data, ..self }
        } else if reg == 3 {
            UartView { lcr: data, ..self }
        } else if reg == 4 {
            UartView { mcr: data, ..self }
        } else if reg == 5 || reg == 6 {
            self
        } else {
            UartView { spr: data, ..self }
        }
    }

    /// Whether received data waits to be read and the data-ready interrupt is enabled.
    pub open spec fn data_ready(self) -> bool {
        (self.lsr & LSR_DATA_READY) > 0 && (self.ier & IER_DATA_READY) > 0
    }

    /// Whether the transmit register is empty and the transmitter-empty interrupt is
    /// enabled.
    pub open spec fn thr_empty(self) -> bool {
        (self.lsr & LSR_THR_EMPTY) > 0 && (self.ier & IER_THR_EMPTY) > 0
    }

    /// Whether the device requests an interrupt: a condition holds whose interrupt is
    /// enabled.
    pub open spec fn irq(self) -> bool {
        self.data_ready() || self.thr_empty()
    }

    /// The device after its interrupt line was sampled: the identification code of the
    /// status register names the cause of the request, data-ready first.
    pub open spec fn sampled(self) -> UartView {
        let code = if self.data_ready() {
            ISR_IDENTIFICATION_CODE_DATA_READY
        } else if self.thr_empty() {
            ISR_IDENTIFICATION_CODE_THR_EMPTY
        } else {
            ISR_INTERRUPT_STATUS_NO_INTERRUPT
        };
        UartView { isr: self.isr & 0xf0 | code, ..self }
    }
}

impl View for Uart {
    type V = UartView;

    closed spec fn view(&self) -> UartView {
        UartView {
            rhr: self.rhr,
            thr: self.thr,
            ier: self.ier,
            isr: self.isr,
            fcr: self.fcr,
            lcr: self.lcr,
            mcr: self.mcr,
            lsr: self.lsr,
            msr: self.msr,
            spr: self.spr,
            tty: self.tty@,
        }
    }
}

impl Uart {
    pub fn new(tty_: Terminal) -> (r: Self)
        ensures
            r@ == UartView::init(tty_@),
    {
        Uart {
            rhr: 0,
            thr: 0,
            ier: 0,
            isr: 0x01,
            fcr: 0,
            lcr: 0,
            mcr: 0,
            lsr: 0x60,
            msr: 0,
            spr: 0,
            tty: tty_,
        }
    }

    /// The terminal behind the device.
    pub fn terminal(&mut self) -> (t: &mut Terminal)
        ensures
            t@ == old(self)@.tty,
            final(self)@ == (UartView { tty: final(t)@, ..old(self)@ }),
    {
        &mut self.tty
    }

    pub fn tick(&mut self)
        ensures
            final(self)@ == old(self)@.tick(),
    {
        // receiver
        if self.rhr == 0 {
            let c = self.tty.getchar();
            if c != 0 {
                self.rhr = c;
                self.lsr |= LSR_DATA_READY;
            }
        }
        // transmitter
        if self.thr != 0 {
            self.tty.putchar(self.thr);
            self.thr = 0;
            self.lsr |= LSR_THR_EMPTY;
        }
    }

    pub fn read(&mut self, addr: u64) -> (r: u8)
        ensures
            r == old(self)@.read_value(addr),
            final(self)@ == old(self)@.read(addr),
    {
        let reg = addr & 0x7;
        if reg == 0 {
            let rhr = self.rhr;
            self.rhr = 0;
            self.lsr &= !LSR_DATA_READY;
            rhr
        } else if reg == 1 {
            self.ier
        } else if reg == 2 {
            self.isr
        } else if reg == 3 {
            self.lcr
        } else if reg == 4 {
            self.mcr
        } else if reg == 5 {
            self.lsr
        } else if reg == 6 {
            self.msr
        } else {
            self.spr
        }
    }

    pub fn write(&mut self, addr: u64, data: u8)
        ensures
            final(self)@ == old(self)@.write(addr, data),
    {
        let reg = addr & 0x7;
        if reg == 0 {
            self.thr = data;
            self.lsr &= !LSR_THR_EMPTY;
        } else if reg == 1 {
            self.ier = data;
        } else if reg == 2 {
            self.fcr = data;
        } else if reg == 3 {
            self.lcr = data;
        } else if reg == 4 {
            self.mcr = data;
        } else if reg == 5 || reg == 6 {
        } else {
            self.spr = data;
        }
    }

    pub fn is_irq(&mut self) -> (r: bool)
        ensures
            r == old(self)@.irq(),
            final(self)@ == old(self)@.sampled(),
    {
        if (self.lsr & LSR_DATA_READY) > 0 && (self.ier & IER_DATA_READY) > 0 {
            self.isr = self.isr & 0xf0 | ISR_IDENTIFICATION_CODE_DATA_READY;
            return true;
        }
        if (self.lsr & LSR_THR_EMPTY) > 0 && (self.ier & IER_THR_EMPTY) > 0 {
            self.isr = self.isr & 0xf0 | ISR_IDENTIFICATION_CODE_THR_EMPTY;
            return true;
        }
        self.isr = self.isr & 0xf0 | ISR_INTERRUPT_STATUS_NO_INTERRUPT;
        false
    }
}

} // verus!
