//! UART of the FE310-G002.

use crate::console::{Console, Terminal, TerminalView};
use vstd::prelude::*;

verus! {

pub const BIT_RXEN: u32 = 0x1;
pub const BIT_TXEN: u32 = 0x1;
pub const BIT_TXWM: u32 = 0x1;
pub const BIT_RXWM: u32 = 0x2;

/// Flag of the data registers: the transmit register holds a byte to send, the receive
/// register a byte that arrived.
pub const BIT_FULL: u32 = 0x8000_0000;

pub struct Fe310Uart {
    /// Transmit data register
    txdata: u32,
    /// Receive data register (RO)
    rxdata: u32,
    /// Transmit control register
    txctrl: u32,
    /// Receive control register
    rxctrl: u32,
    /// UART interrupt enable
    ie: u32,
    /// UART interrupt pending
    ip: u32,
    /// Baud rate divisor
    div: u32,
    /// Terminal for serial console.
    tty: Terminal,
    /// current clock cycle.
    cycle: u64,
}

/// The registers of a `Fe310Uart` and the terminal behind it.
pub struct Fe310UartView {
    pub txdata: u32,
    pub rxdata: u32,
    pub txctrl: u32,
    pub rxctrl: u32,
    pub ie: u32,
    pub ip: u32,
    pub div: u32,
    pub tty: TerminalView,
    pub cycle: u64,
}

impl Fe310UartView {
    /// The device as it is built around the terminal `tty`.
    pub open spec fn init(tty: TerminalView) -> Fe310UartView {
        Fe310UartView {
            txdata: 0,
            rxdata: 0,
            txctrl: 0,
            rxctrl: 0x01,
            ie: 0,
            ip: 0,
            div: 0,
            tty,
            cycle: 0,
        }
    }

    /// The cycle counter after one more tick.
    pub open spec fn next_cycle(self) -> u64 {
        if self.cycle == u64::MAX {
            0
        } else {
            (self.cycle + 1) as u64
        }
    }

    /// The receiver's part of a tick, taken once in 0x10000 cycles while the receiver is
    /// enabled: a byte other than 0 from the terminal fills the receive register and makes
    /// the receive watermark interrupt pending.
    pub open spec fn receive(self) -> Fe310UartView {
        if (self.cycle & 0xffff) == 0 && (self.rxctrl & BIT_RXEN) > 0 {
            let c = self.tty.front();
            if c != 0 {
                Fe310UartView {
                    rxdata: (c as u32) | BIT_FULL,
                    ip: self.ip | BIT_RXWM,
                    tty: self.tty.pop(),
                    ..self
                }
            } else {
                Fe310UartView { tty: self.tty.pop(), ..self }
            }
        } else {
            self
        }
    }

    /// The transmitter's part of a tick, taken once in 16 cycles while the transmitter is
    /// enabled and the transmit register is full: the byte goes to the terminal, the
    /// register is emptied and the transmit watermark interrupt becomes pending.
    pub open spec fn transmit(self) -> Fe310UartView {
        if (self.cycle & 0xf) == 0 && (self.txctrl & BIT_TXEN) > 0 && (self.txdata & BIT_FULL)
            > 0 {
            Fe310UartView {
                txdata: 0,
                ip: self.ip | BIT_TXWM,
                tty: self.tty.put((self.txdata & 0xff) as u8),
                ..self
            }
        } else {
            self
        }
    }

    /// The device one tick later.
    pub open spec fn tick(self) -> Fe310UartView {
        (Fe310UartView { cycle: self.next_cycle(), ..self }).receive().transmit()
    }

    /// Whether a register can be read at `addr & 0xff`.
    pub open spec fn readable(addr: u64) -> bool {
        let reg = addr & 0xff;
        reg == 0x00 || reg == 0x04 || reg == 0x08 || reg == 0x0C || reg == 0x10 || reg == 0x14
            || reg == 0x18
    }

    /// Whether a register can be written at `addr & 0xff`.
    pub open spec fn writable(addr: u64) -> bool {
        let reg = addr & 0xff;
        reg == 0x00 || reg == 0x08 || reg == 0x0C || reg == 0x10 || reg == 0x18
    }

    /// The value that a read of the register at `addr & 0xff` returns.
    pub open spec fn read_value(self, addr: u64) -> u32 {
        let reg = addr & 0xff;
        if reg == 0x00 {
            self.txdata
        } else if reg == 0x04 {
            self.rxdata
        } else if reg == 0x08 {
            self.txctrl
        } else if reg == 0x0C {
            self.rxctrl
        } else if reg == 0x10 {
            self.ie
        } else if reg == 0x14 {
            self.ip
        } else {
            self.div
        }
    }

    /// The device after a read at `addr & 0xff`: reading the receive register clears its
    /// flag.
    pub open spec fn read(self, addr: u64) -> Fe310UartView {
        if addr & 0xff == 0x04 {
            Fe310UartView { rxdata: self.rxdata & !BIT_FULL, ..self }
        } else {
            self
        }
    }

    /// The device after `data` was written at `addr & 0xff`.
    pub open spec fn write(self, addr: u64, data: u32) -> Fe310UartView {
        let reg = addr & 0xff;
        if reg == 0x00 {
            Fe310UartView { txdata: data & 0xff | BIT_FULL, ..self }
        } else if reg == 0x08 {
            Fe310UartView { txctrl: data & 0x7_0003, ..self }
        } else if reg == 0x0C {
            Fe310UartView { rxctrl: data & 0x7_0001, ..self }
        } else if reg == 0x10 {
            Fe310UartView { ie: data & 0x3, ..self }
        } else {
            Fe310UartView { div: data & 0xffff, ..self }
        }
    }

    /// Whether the device requests an interrupt: a watermark interrupt is both enabled and
    /// pending.
    pub open spec fn irq(self) -> bool {
        ((self.ie & BIT_RXWM) > 0 && (self.ip & BIT_RXWM) > 0) || ((self.ie & BIT_TXWM) > 0 && (
        self.ip & BIT_TXWM) > 0)
    }
}

impl View for Fe310Uart {
    type V = Fe310UartView;

    closed spec fn view(&self) -> Fe310UartView {
        Fe310UartView {
            txdata: self.txdata,
            rxdata: self.rxdata,
            txctrl: self.txctrl,
            rxctrl: self.rxctrl,
            ie: self.ie,
            ip: self.ip,
            div: self.div,
            tty: self.tty@,
            cycle: self.cycle,
        }
    }
}

impl Fe310Uart {
    pub fn new(tty_: Terminal) -> (r: Self)
        ensures
            r@ == Fe310UartView::init(tty_@),
    {
        Fe310Uart {
            txdata: 0,
            rxdata: 0,
            txctrl: 0,
            rxctrl: 0x01,
            ie: 0,
            ip: 0,
            div: 0,
            tty: tty_,
            cycle: 0,
        }
    }

    pub fn tick(&mut self)
        ensures
            final(self)@ == old(self)@.tick(),
    {
        self.cycle = self.cycle.wrapping_add(1);
        // receiver
        if (self.cycle & 0xffff) == 0 && (self.rxctrl & BIT_RXEN) > 0 {
            let c = self.tty.getchar();
            if c != 0 {
                self.rxdata = (c as u32) | BIT_FULL;
                self.ip |= BIT_RXWM;
            }
        }
        // transmitter
        if (self.cycle & 0xf) == 0 && (self.txctrl & BIT_TXEN) > 0 && (self.txdata & BIT_FULL)
            > 0 {
            self.tty.putchar((self.txdata & 0xff) as u8);
            self.ip |= BIT_TXWM;
            self.txdata = 0;
        }
    }

    pub fn read(&mut self, addr: u64) -> (r: u32)
        requires
            Fe310UartView::readable(addr),
        ensures
            r == old(self)@.read_value(addr),
            final(self)@ == old(self)@.read(addr),
    {
        let reg = addr & 0xff;
        if reg == 0x00 {
            self.txdata
        } else if reg == 0x04 {
            let data = self.rxdata;
            self.rxdata &= !BIT_FULL;
            data
        } else if reg == 0x08 {
            self.txctrl
        } else if reg == 0x0C {
            self.rxctrl
        } else if reg == 0x10 {
            self.ie
        } else if reg == 0x14 {
            self.ip
        } else {
            self.div
        }
    }

    pub fn write(&mut self, addr: u64, data: u32)
        requires
            Fe310UartView::writable(addr),
        ensures
            final(self)@ == old(self)@.write(addr, data),
    {
        let reg = addr & 0xff;
        if reg == 0x00 {
            self.txdata = data & 0xff | BIT_FULL;
        } else if reg == 0x08 {
            self.txctrl = data & 0x7_0003;
        } else if reg == 0x0C {
            self.rxctrl = data & 0x7_0001;
        } else if reg == 0x10 {
            self.ie = data & 0x3;
        } else {
            self.div = data & 0xffff;
        }
    }

    pub fn is_irq(&self) -> (r: bool)
        ensures
            r == self@.irq(),
    {
        if (self.ie & BIT_RXWM) > 0 && (self.ip & BIT_RXWM) > 0 {
            return true;
        }
        if (self.ie & BIT_TXWM) > 0 && (self.ip & BIT_TXWM) > 0 {
            return true;
        }
        false
    }
}

} // verus!
