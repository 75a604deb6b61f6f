//! The bus: it routes loads and stores to main memory or to a device, advances the devices
//! once per tick and hands their interrupt lines to the hart.

use crate::console::Terminal;
use crate::dram::{
    byte_of, cut, is_width, lemma_store_load, load_le, splice, store_le, Dram,
};
use crate::machine::Machine;
use crate::peripherals::fe310_g002::gpio::{gpio_read, gpio_write, Gpio};
use crate::peripherals::fe310_g002::prci::Prci;
use crate::peripherals::intc::{Intc, IntcView};
use crate::peripherals::timer::Timer;
use crate::peripherals::uart::{Uart, UartView};
use crate::peripherals::virtio::{Virtio, VirtioView};
use vstd::prelude::*;

verus! {

pub const TIMER_ADDRESS_START: u64 = 0x0200_0000;
pub const TIMER_ADDRESS_END: u64 = 0x0200_FFFF;
pub const INTC_ADDRESS_START: u64 = 0x0C00_0000;
pub const INTC_ADDRESS_END: u64 = 0x0FFF_FFFF;
pub const UART_ADDRESS_START: u64 = 0x1000_0000;
pub const UART_ADDRESS_END: u64 = 0x1000_0FFF;
pub const VIRTIO_ADDRESS_START: u64 = 0x1000_1000;
pub const VIRTIO_ADDRESS_END: u64 = 0x1000_1FFF;
pub const DRAM_ADDRESS_START: u64 = 0x8000_0000;
pub const PRCI_ADDRESS_START: u64 = 0x1000_8000;
pub const PRCI_ADDRESS_END: u64 = 0x1000_8FFF;
pub const GPIO_ADDRESS_START: u64 = 0x1001_2000;
pub const GPIO_ADDRESS_END: u64 = 0x1001_2FFF;
pub const SPIFLASH_ADDRESS_START: u64 = 0x2000_0000;
pub const SPIFLASH_ADDRESS_END: u64 = 0x3FFF_FFFF;
pub const MAX_DRAM_SIZE: usize = 1024 * 1024 * 128;
pub const MAX_FLASH_SIZE: usize = 1024 * 1024 * 512;

/// Interrupt source of the UART at the interrupt controller.
pub const UART_IRQ: usize = 10;

/// Interrupt source of the block device at the interrupt controller.
pub const VIRTIO_IRQ: usize = 1;

/// Number of bytes of a reservation's line.
pub const LINE_SIZE: u64 = 8;

/// The bits of an address that tell its line.
pub const LINE_MASK: u64 = 0xffff_ffff_ffff_fff8;

pub struct SystemBus {
    clock: u64,
    dram: Dram<MAX_DRAM_SIZE>,
    flash: Dram<MAX_FLASH_SIZE>,
    timer: Timer,
    intc: Intc,
    uart: Uart,
    virtio: Virtio,
    prci: Prci,
    gpio: Gpio,
    machine: Machine,
    reservation: Option<u64>,
}

/// What a `SystemBus` holds.
pub struct BusView {
    pub clock: u64,
    pub dram: Seq<u8>,
    pub flash: Seq<u8>,
    pub timer: Timer,
    pub intc: IntcView,
    pub uart: UartView,
    pub virtio: VirtioView,
    pub prci: Prci,
    pub gpio: Seq<u32>,
    pub machine: Machine,
    /// Start of the line that a load-reserved has reserved and no store has touched since.
    pub reservation: Option<u64>,
}

/// The part of the machine that an address belongs to, with the offset into it.
pub enum Region {
    Dram(u64),
    Flash(u64),
    Timer(u64),
    Intc(u64),
    Uart(u64),
    Virtio(u64),
    Prci(u64),
    Gpio(u64),
    Nothing,
}

/// Two words as one 64-bit value, `lo` in the low half.
pub open spec fn word_pair(lo: u32, hi: u32) -> u64 {
    (lo as u64) | ((hi as u64) << 32)
}

/// Start of the line that `addr` lies in.
pub open spec fn line_of(addr: u64) -> u64 {
    addr & LINE_MASK
}

/// What `n` successive byte reads of the UART from offset `o` on come to: the device after
/// them and the bytes as a little-endian value.
pub open spec fn uart_read(u: UartView, o: u64, n: int) -> (UartView, u64)
    decreases n,
{
    if n <= 0 {
        (u, 0)
    } else {
        let (u1, v) = uart_read(u, o, n - 1);
        let at = (o + n - 1) as u64;
        (u1.read(at), v | ((u1.read_value(at) as u64) << ((8 * (n - 1)) as u64)))
    }
}

/// The UART after the `n` low bytes of `data` were written to it byte by byte from offset
/// `o` on, least significant first.
pub open spec fn uart_write(u: UartView, o: u64, data: u64, n: int) -> UartView
    decreases n,
{
    if n <= 0 {
        u
    } else {
        uart_write(u, o, data, n - 1).write(
            (o + n - 1) as u64,
            ((data >> ((8 * (n - 1)) as u64)) & 0xff) as u8,
        )
    }
}

impl BusView {
    /// The bus of the machine `machine` as it is built around the terminal `tty`: main
    /// memory and the flash filled with zeros, every device in its initial state, nothing
    /// reserved. The flash is reached on the FE310 flavour only.
    pub open spec fn init(machine: Machine, tty: crate::console::TerminalView) -> BusView {
        BusView {
            clock: 0,
            dram: Seq::new(MAX_DRAM_SIZE as nat, |i: int| 0u8),
            flash: Seq::new(MAX_FLASH_SIZE as nat, |i: int| 0u8),
            timer: Timer { msip: 0, compare: 0, mtime: 0, clock: 0, line: false },
            intc: IntcView::init(),
            uart: UartView::init(tty),
            virtio: VirtioView::init(),
            prci: Prci { hfrosccfg: 0, hfxosccfg: 0, pllcfg: 0, plloutdiv: 0 },
            gpio: Seq::new(crate::peripherals::fe310_g002::gpio::GPIO_REGISTERS as nat, |i: int| 0u32),
            machine,
            reservation: None,
        }
    }

    /// The shape that every bus has: main memory has `MAX_DRAM_SIZE` bytes and the flash
    /// has `MAX_FLASH_SIZE` bytes.
    pub open spec fn wf(self) -> bool {
        self.dram.len() == MAX_DRAM_SIZE && self.flash.len() == MAX_FLASH_SIZE
    }

    /// Whether the devices of the FE310 flavour are present.
    pub open spec fn has_fe310(self) -> bool {
        self.machine == Machine::SiFiveE
    }

    /// The part of the machine that `addr` belongs to.
    pub open spec fn region_of(self, addr: u64) -> Region {
        if DRAM_ADDRESS_START <= addr {
            Region::Dram((addr - DRAM_ADDRESS_START) as u64)
        } else if TIMER_ADDRESS_START <= addr <= TIMER_ADDRESS_END {
            Region::Timer((addr - TIMER_ADDRESS_START) as u64)
        } else if INTC_ADDRESS_START <= addr <= INTC_ADDRESS_END {
            Region::Intc((addr - INTC_ADDRESS_START) as u64)
        } else if UART_ADDRESS_START <= addr <= UART_ADDRESS_END {
            Region::Uart((addr - UART_ADDRESS_START) as u64)
        } else if VIRTIO_ADDRESS_START <= addr <= VIRTIO_ADDRESS_END {
            Region::Virtio((addr - VIRTIO_ADDRESS_START) as u64)
        } else if self.has_fe310() && PRCI_ADDRESS_START <= addr <= PRCI_ADDRESS_END {
            Region::Prci((addr - PRCI_ADDRESS_START) as u64)
        } else if self.has_fe310() && GPIO_ADDRESS_START <= addr <= GPIO_ADDRESS_END {
            Region::Gpio((addr - GPIO_ADDRESS_START) as u64)
        } else if self.has_fe310() && SPIFLASH_ADDRESS_START <= addr <= SPIFLASH_ADDRESS_END {
            Region::Flash((addr - SPIFLASH_ADDRESS_START) as u64)
        } else {
            Region::Nothing
        }
    }

    /// The value that a load of `n` bytes at `addr` returns. Memory is loaded
    /// little-endian and faults where the bytes do not all lie within it; the UART is read
    /// byte by byte; the other devices take loads of one word and of two, the second word
    /// 4 bytes on, and fault on narrower ones; where there is nothing the load faults.
    pub open spec fn read_value(self, addr: u64, n: int) -> Result<u64, ()> {
        match self.region_of(addr) {
            Region::Dram(o) => if o + n <= self.dram.len() {
                Ok(load_le(self.dram, o as int, n))
            } else {
                Err(())
            },
            Region::Flash(o) => if o + n <= self.flash.len() {
                Ok(load_le(self.flash, o as int, n))
            } else {
                Err(())
            },
            Region::Uart(o) => Ok(uart_read(self.uart, o, n).1),
            Region::Timer(o) => if n == 4 {
                Ok(self.timer.spec_read(o) as u64)
            } else if n == 8 {
                Ok(word_pair(self.timer.spec_read(o), self.timer.spec_read((o + 4) as u64)))
            } else {
                Err(())
            },
            Region::Intc(o) => if n == 4 {
                Ok(self.intc.read_value(o) as u64)
            } else if n == 8 {
                Ok(
                    word_pair(
                        self.intc.read_value(o),
                        self.intc.read(o).read_value((o + 4) as u64),
                    ),
                )
            } else {
                Err(())
            },
            Region::Virtio(o) => if n == 4 {
                Ok(self.virtio.read_value(o) as u64)
            } else if n == 8 {
                Ok(word_pair(self.virtio.read_value(o), self.virtio.read_value((o + 4) as u64)))
            } else {
                Err(())
            },
            Region::Prci(o) => if n == 4 {
                Ok(self.prci.spec_read(o) as u64)
            } else if n == 8 {
                Ok(word_pair(self.prci.spec_read(o), self.prci.spec_read((o + 4) as u64)))
            } else {
                Err(())
            },
            Region::Gpio(o) => if n == 4 {
                Ok(gpio_read(self.gpio, o) as u64)
            } else if n == 8 {
                Ok(word_pair(gpio_read(self.gpio, o), gpio_read(self.gpio, (o + 4) as u64)))
            } else {
                Err(())
            },
            Region::Nothing => Err(()),
        }
    }

    /// The bus after a load of `n` bytes at `addr`: reads change the UART and the
    /// interrupt controller, and nothing else.
    pub open spec fn read(self, addr: u64, n: int) -> BusView {
        match self.region_of(addr) {
            Region::Uart(o) => BusView { uart: uart_read(self.uart, o, n).0, ..self },
            Region::Intc(o) => if n == 4 {
                BusView { intc: self.intc.read(o), ..self }
            } else if n == 8 {
                BusView { intc: self.intc.read(o).read((o + 4) as u64), ..self }
            } else {
                self
            },
            _ => self,
        }
    }

    /// The value of the `n` bytes at `addr` where they all lie within main memory.
    pub open spec fn dram_value(self, addr: u64, n: int) -> Option<u64> {
        if DRAM_ADDRESS_START <= addr && addr - DRAM_ADDRESS_START + n <= self.dram.len() {
            Some(load_le(self.dram, addr - DRAM_ADDRESS_START, n))
        } else {
            None
        }
    }

    /// Start of the region that program images are loaded into: the flash on the FE310
    /// flavour, main memory otherwise.
    pub open spec fn image_base(self) -> u64 {
        if self.has_fe310() {
            SPIFLASH_ADDRESS_START
        } else {
            DRAM_ADDRESS_START
        }
    }

    /// Whether the `n` bytes at `addr` all lie within main memory or, on the FE310
    /// flavour, within the flash.
    pub open spec fn holds(self, addr: u64, n: int) -> bool {
        if DRAM_ADDRESS_START <= addr {
            addr - DRAM_ADDRESS_START + n <= self.dram.len()
        } else {
            self.has_fe310() && SPIFLASH_ADDRESS_START <= addr && addr - SPIFLASH_ADDRESS_START + n
                <= self.flash.len()
        }
    }

    /// The bus after `bytes` were copied to `addr`, into main memory or into the flash; the
    /// reservation is given up.
    pub open spec fn with_image(self, addr: u64, bytes: Seq<u8>) -> BusView {
        if DRAM_ADDRESS_START <= addr {
            BusView {
                dram: splice(self.dram, addr - DRAM_ADDRESS_START, bytes),
                reservation: None,
                ..self
            }
        } else {
            BusView {
                flash: splice(self.flash, addr - SPIFLASH_ADDRESS_START, bytes),
                reservation: None,
                ..self
            }
        }
    }

    /// Whether a store of `n` bytes at `addr` is taken.
    pub open spec fn writes(self, addr: u64, n: int) -> bool {
        match self.region_of(addr) {
            Region::Dram(o) => o + n <= self.dram.len(),
            Region::Flash(o) => o + n <= self.flash.len(),
            Region::Uart(o) => true,
            Region::Nothing => false,
            _ => n == 4 || n == 8,
        }
    }

    /// The reservation after a store of `n` bytes at `addr` to main memory: it is lost
    /// where the store touches its line.
    pub open spec fn reservation_after(self, addr: u64, n: int) -> Option<u64> {
        match self.reservation {
            Some(line) => if addr < line + LINE_SIZE && line < addr + n {
                None
            } else {
                self.reservation
            },
            None => None,
        }
    }

    /// The bus after a store of the `n` low bytes of `data` at `addr`; a store that is not
    /// taken changes nothing. Memory is stored little-endian; the UART is written byte by
    /// byte; the other devices take one word, or two with the second word 4 bytes on.
    pub open spec fn write(self, addr: u64, data: u64, n: int) -> BusView {
        if !self.writes(addr, n) {
            self
        } else {
            match self.region_of(addr) {
                Region::Dram(o) => BusView {
                    dram: store_le(self.dram, o as int, data, n),
                    reservation: self.reservation_after(addr, n),
                    ..self
                },
                Region::Flash(o) => BusView {
                    flash: store_le(self.flash, o as int, data, n),
                    ..self
                },
                Region::Uart(o) => BusView { uart: uart_write(self.uart, o, data, n), ..self },
                Region::Timer(o) => BusView {
                    timer: if n == 4 {
                        self.timer.spec_write(o, data as u32)
                    } else {
                        self.timer.spec_write(o, data as u32).spec_write(
                            (o + 4) as u64,
                            (data >> 32) as u32,
                        )
                    },
                    ..self
                },
                Region::Intc(o) => BusView {
                    intc: if n == 4 {
                        self.intc.write(o, data as u32)
                    } else {
                        self.intc.write(o, data as u32).write((o + 4) as u64, (data >> 32) as u32)
                    },
                    ..self
                },
                Region::Virtio(o) => BusView {
                    virtio: if n == 4 {
                        self.virtio.write(o, data as u32)
                    } else {
                        self.virtio.write(o, data as u32).write(
                            (o + 4) as u64,
                            (data >> 32) as u32,
                        )
                    },
                    ..self
                },
                Region::Prci(o) => BusView {
                    prci: if n == 4 {
                        self.prci.spec_write(o, data as u32)
                    } else {
                        self.prci.spec_write(o, data as u32).spec_write(
                            (o + 4) as u64,
                            (data >> 32) as u32,
                        )
                    },
                    ..self
                },
                Region::Gpio(o) => BusView {
                    gpio: if n == 4 {
                        gpio_write(self.gpio, o, data as u32)
                    } else {
                        gpio_write(
                            gpio_write(self.gpio, o, data as u32),
                            (o + 4) as u64,
                            (data >> 32) as u32,
                        )
                    },
                    ..self
                },
                Region::Nothing => self,
            }
        }
    }

    /// The bus after the devices have advanced by one tick, before their interrupt
    /// requests are sampled: the block device first, then the timer, then the UART.
    pub open spec fn advanced(self) -> BusView {
        BusView {
            clock: if self.clock == u64::MAX {
                0
            } else {
                (self.clock + 1) as u64
            },
            virtio: self.virtio.tick(self.dram, DRAM_ADDRESS_START),
            dram: self.virtio.tick_mem(self.dram, DRAM_ADDRESS_START),
            reservation: if self.virtio.serves(self.dram, DRAM_ADDRESS_START) {
                None
            } else {
                self.reservation
            },
            timer: self.timer.spec_tick(),
            uart: self.uart.tick(),
            ..self
        }
    }

    /// The interrupt requests that the devices raise, in the order in which they are
    /// handed to the interrupt controller.
    pub open spec fn requests(self) -> Seq<usize> {
        (if self.uart.irq() {
            seq![UART_IRQ]
        } else {
            Seq::<usize>::empty()
        }) + (if self.virtio.irq() {
            seq![VIRTIO_IRQ]
        } else {
            Seq::<usize>::empty()
        })
    }

    /// The bus one tick later.
    pub open spec fn tick(self) -> BusView {
        let a = self.advanced();
        BusView { uart: a.uart.sampled(), intc: a.intc.tick(a.requests()), ..a }
    }

    /// The external interrupt lines towards hart 0 after the tick, one for each privilege
    /// level.
    pub open spec fn tick_lines(self) -> Seq<bool> {
        self.tick().intc.lines(0)
    }

    /// The bus after a load-reserved at `addr`.
    pub open spec fn reserve(self, addr: u64) -> BusView {
        BusView { reservation: Some(line_of(addr)), ..self }
    }

    /// Whether a store-conditional at `addr` finds its reservation.
    pub open spec fn reserved(self, addr: u64) -> bool {
        self.reservation == Some(line_of(addr))
    }

    /// The bus after the reservation was given up.
    pub open spec fn release(self) -> BusView {
        BusView { reservation: None, ..self }
    }
}

/// A store to main memory followed by a load: after a store of the `n` low bytes of `data`
/// at `addr` that main memory takes, a load of `m` bytes at `addr + k` that lies within the
/// stored bytes returns the bytes `k` to `k + m - 1` of `data`, little-endian. With `k == 0`
/// and `m == n` the load returns what was stored.
pub proof fn lemma_dram_round_trip(b: BusView, addr: u64, data: u64, n: int, k: int, m: int)
    requires
        is_width(n),
        is_width(m),
        0 <= k,
        k + m <= n,
        DRAM_ADDRESS_START <= addr,
        addr + n <= u64::MAX,
        b.writes(addr, n),
    ensures
        b.write(addr, data, n).read_value((addr + k) as u64, m) == Ok::<u64, ()>(
            cut(data >> ((8 * k) as u64), m),
        ),
{
    lemma_store_load(b.dram, addr - DRAM_ADDRESS_START, data, n, k, m);
}

/// A store to main memory of a bus of the shape `wf`: a store of the `n` low bytes of `data`
/// at an address of main memory is taken; it changes the `n` bytes at the address to those of
/// `data`, least significant first, and besides them at most the reservation: no other byte
/// and no device; and a load of the same width at the same address then returns what was
/// stored and changes nothing.
pub proof fn lemma_main_memory_store(b: BusView, addr: u64, data: u64, n: int)
    requires
        b.wf(),
        is_width(n),
        DRAM_ADDRESS_START <= addr,
        addr + n <= DRAM_ADDRESS_START + MAX_DRAM_SIZE,
    ensures
        b.writes(addr, n),
        b.write(addr, data, n) == (BusView {
            dram: store_le(b.dram, addr - DRAM_ADDRESS_START, data, n),
            reservation: b.reservation_after(addr, n),
            ..b
        }),
        b.write(addr, data, n).wf(),
        forall|j: int|
            0 <= j < n ==> #[trigger] b.write(addr, data, n).dram[addr - DRAM_ADDRESS_START + j]
                == byte_of(data, j),
        forall|i: int|
            0 <= i < b.dram.len() && !(addr - DRAM_ADDRESS_START <= i < addr - DRAM_ADDRESS_START
                + n) ==> #[trigger] b.write(addr, data, n).dram[i] == b.dram[i],
        b.write(addr, data, n).read_value(addr, n) == Ok::<u64, ()>(cut(data, n)),
        b.write(addr, data, n).read(addr, n) == b.write(addr, data, n),
{
    lemma_dram_round_trip(b, addr, data, n, 0, n);
    assert(data >> 0 == data) by (bit_vector);
}

/// A load-reserved makes the reservation that a store-conditional to the same line finds.
pub proof fn lemma_reserved(b: BusView, addr: u64, other: u64)
    requires
        line_of(addr) == line_of(other),
    ensures
        b.reserve(addr).reserved(other),
{
}

/// A store that main memory takes and that touches the line of a reservation ends the
/// reservation: a store-conditional to that line no longer finds it.
pub proof fn lemma_store_ends_reservation(b: BusView, addr: u64, store: u64, data: u64, n: int)
    requires
        is_width(n),
        DRAM_ADDRESS_START <= store,
        b.writes(store, n),
        store < line_of(addr) + LINE_SIZE,
        line_of(addr) < store + n,
    ensures
        !b.reserve(addr).write(store, data, n).reserved(addr),
{
}

impl View for SystemBus {
    type V = BusView;

    closed spec fn view(&self) -> BusView {
        BusView {
            clock: self.clock,
            dram: self.dram@,
            flash: self.flash@,
            timer: self.timer,
            intc: self.intc@,
            uart: self.uart@,
            virtio: self.virtio@,
            prci: self.prci,
            gpio: self.gpio@,
            machine: self.machine,
            reservation: self.reservation,
        }
    }
}

/// The `Result` of a load of one width as that of a load of any width.
pub open spec fn widen<T>(r: Result<T, ()>, v: u64) -> Result<u64, ()> {
    match r {
        Ok(_) => Ok(v),
        Err(_) => Err(()),
    }
}

impl SystemBus {
    /// The bus of the machine `machine` with the terminal `tty` behind its UART.
    pub fn new(machine: Machine, tty: Terminal) -> (r: Self)
        ensures
            r@ == BusView::init(machine, tty@),
    {
        Self {
            clock: 0,
            dram: Dram::new(),
            flash: Dram::new(),
            timer: Timer::new(),
            intc: Intc::new(),
            uart: Uart::new(tty),
            virtio: Virtio::new(),
            prci: Prci::new(),
            gpio: Gpio::new(),
            machine,
            reservation: None,
        }
    }

    /// Gives the block device its backing blob.
    pub fn set_disk_data(&mut self, data: Vec<u8>)
        ensures
            old(self)@.wf(),
            final(self)@.wf(),
            final(self)@ == (BusView {
                virtio: VirtioView { disk: data@, ..old(self)@.virtio },
                ..old(self)@
            }),
    {
        proof {
            use_type_invariant(&self.dram);
            use_type_invariant(&self.flash);
        }
        self.virtio.init(data);
    }

    /// Copies `data` to the start of main memory.
    pub fn set_dram_data(&mut self, data: Vec<u8>)
        requires
            data@.len() <= old(self)@.dram.len(),
        ensures
            old(self)@.wf(),
            final(self)@.wf(),
            final(self)@ == (BusView {
                dram: data@ + old(self)@.dram.subrange(
                    data@.len() as int,
                    old(self)@.dram.len() as int,
                ),
                ..old(self)@
            }),
    {
        proof {
            use_type_invariant(&self.dram);
            use_type_invariant(&self.flash);
        }
        self.dram.initialize(data);
    }

    /// Number of bytes of main memory.
    pub fn dram_size(&self) -> (n: u64)
        ensures
            self@.wf(),
            n == self@.dram.len(),
    {
        proof {
            use_type_invariant(&self.dram);
            use_type_invariant(&self.flash);
        }
        self.dram.size()
    }

    /// Start of the region that program images are loaded into.
    pub fn image_base(&self) -> (r: u64)
        ensures
            self@.wf(),
            r == self@.image_base(),
    {
        proof {
            use_type_invariant(&self.dram);
            use_type_invariant(&self.flash);
        }
        match self.machine {
            Machine::SiFiveE => SPIFLASH_ADDRESS_START,
            Machine::SiFiveU => DRAM_ADDRESS_START,
        }
    }

    /// Whether the `n` bytes at `addr` all lie within main memory or within the flash.
    pub fn holds(&self, addr: u64, n: u64) -> (r: bool)
        ensures
            self@.wf(),
            r == self@.holds(addr, n as int),
    {
        proof {
            use_type_invariant(&self.dram);
            use_type_invariant(&self.flash);
        }
        if DRAM_ADDRESS_START <= addr {
            let size = self.dram.size();
            n <= size && addr - DRAM_ADDRESS_START <= size - n
        } else {
            let size = self.flash.size();
            matches!(self.machine, Machine::SiFiveE) && SPIFLASH_ADDRESS_START <= addr && n <= size
                && addr - SPIFLASH_ADDRESS_START <= size - n
        }
    }

    /// Copies the `len` bytes of `src` that start at `from` to `addr`, into main memory or
    /// into the flash, and gives up the reservation.
    pub fn load_image(&mut self, addr: u64, src: &Vec<u8>, from: usize, len: usize)
        requires
            from + len <= src@.len(),
            old(self)@.holds(addr, len as int),
        ensures
            old(self)@.wf(),
            final(self)@.wf(),
            final(self)@ == old(self)@.with_image(addr, src@.subrange(from as int, from + len)),
    {
        proof {
            use_type_invariant(&self.dram);
            use_type_invariant(&self.flash);
        }
        if DRAM_ADDRESS_START <= addr {
            self.dram.copy_from(addr - DRAM_ADDRESS_START, src, from, len);
        } else {
            self.flash.copy_from(addr - SPIFLASH_ADDRESS_START, src, from, len);
        }
        self.reservation = None;
    }

    /// The terminal behind the UART.
    pub fn terminal(&mut self) -> (t: &mut Terminal)
        ensures
            old(self)@.wf(),
            final(self)@.wf(),
            final(self)@ == (BusView {
                uart: UartView { tty: final(t)@, ..old(self)@.uart },
                ..old(self)@
            }),
            t@ == old(self)@.uart.tty,
    {
        proof {
            use_type_invariant(&self.dram);
            use_type_invariant(&self.flash);
        }
        self.uart.terminal()
    }

    /// Advances every device by one tick and returns the external interrupt lines towards
    /// hart 0, indexed by privilege level.
    pub fn tick(&mut self) -> (r: Vec<bool>)
        ensures
            old(self)@.wf(),
            final(self)@.wf(),
            final(self)@ == old(self)@.tick(),
            r@ == old(self)@.tick_lines(),
    {
        proof {
            use_type_invariant(&self.dram);
            use_type_invariant(&self.flash);
        }
        self.clock = self.clock.wrapping_add(1);
        let served = self.virtio.tick(&mut self.dram, DRAM_ADDRESS_START);
        if served {
            self.reservation = None;
        }
        self.timer.tick();
        self.uart.tick();
        self.prci.tick();
        self.gpio.tick();
        let mut interrupts: Vec<usize> = Vec::new();
        if self.uart.is_irq() {
            interrupts.push(UART_IRQ);
        }
        if self.virtio.is_irq() {
            interrupts.push(VIRTIO_IRQ);
        }
        assert(interrupts@ =~= old(self)@.advanced().requests());
        self.intc.tick(0, interrupts)
    }

    pub fn is_pending_software_interrupt(&self, core: usize) -> (r: bool)
        ensures
            self@.wf(),
            r == self@.timer.spec_software(core),
    {
        proof {
            use_type_invariant(&self.dram);
            use_type_invariant(&self.flash);
        }
        self.timer.is_pending_software_interrupt(core)
    }

    pub fn is_pending_timer_interrupt(&self, core: usize) -> (r: bool)
        ensures
            self@.wf(),
            r == self@.timer.spec_timer(core),
    {
        proof {
            use_type_invariant(&self.dram);
            use_type_invariant(&self.flash);
        }
        self.timer.is_pending_timer_interrupt(core)
    }

    /// The timer's counter.
    pub fn mtime(&self) -> (r: u64)
        ensures
            self@.wf(),
            r == self@.timer.mtime,
    {
        proof {
            use_type_invariant(&self.dram);
            use_type_invariant(&self.flash);
        }
        self.timer.mtime
    }

    /// Reserves the line of `addr` for a store-conditional.
    pub fn reserve(&mut self, addr: u64)
        ensures
            old(self)@.wf(),
            final(self)@.wf(),
            final(self)@ == old(self)@.reserve(addr),
    {
        proof {
            use_type_invariant(&self.dram);
            use_type_invariant(&self.flash);
        }
        self.reservation = Some(addr & LINE_MASK);
    }

    /// Gives up the reservation and tells whether it was one of the line of `addr`.
    pub fn take_reservation(&mut self, addr: u64) -> (r: bool)
        ensures
            old(self)@.wf(),
            final(self)@.wf(),
            r == old(self)@.reserved(addr),
            final(self)@ == old(self)@.release(),
    {
        proof {
            use_type_invariant(&self.dram);
            use_type_invariant(&self.flash);
        }
        let r = match self.reservation {
            Some(line) => line == addr & LINE_MASK,
            None => false,
        };
        self.reservation = None;
        r
    }

    /// Gives up the reservation.
    pub fn release(&mut self)
        ensures
            old(self)@.wf(),
            final(self)@.wf(),
            final(self)@ == old(self)@.release(),
    {
        proof {
            use_type_invariant(&self.dram);
            use_type_invariant(&self.flash);
        }
        self.reservation = None;
    }

    fn read_uart(&mut self, o: u64, n: u64) -> (r: u64)
        requires
            n <= 8,
            o < 0x1000,
        ensures
            old(self)@.wf(),
            final(self)@.wf(),
            r == uart_read(old(self)@.uart, o, n as int).1,
            final(self)@ == (BusView {
                uart: uart_read(old(self)@.uart, o, n as int).0,
                ..old(self)@
            }),
    {
        proof {
            use_type_invariant(&self.dram);
            use_type_invariant(&self.flash);
        }
        let mut v: u64 = 0;
        let mut k: u64 = 0;
        while k < n
            invariant
                k <= n <= 8,
                o < 0x1000,
                v == uart_read(old(self)@.uart, o, k as int).1,
                self@ == (BusView {
                    uart: uart_read(old(self)@.uart, o, k as int).0,
                    ..old(self)@
                }),
            decreases n - k,
        {
            let b = self.uart.read(o + k);
            v = v | ((b as u64) << (8 * k));
            k += 1;
        }
        v
    }

    fn write_uart(&mut self, o: u64, data: u64, n: u64)
        requires
            n <= 8,
            o < 0x1000,
        ensures
            old(self)@.wf(),
            final(self)@.wf(),
            final(self)@ == (BusView {
                uart: uart_write(old(self)@.uart, o, data, n as int),
                ..old(self)@
            }),
    {
        proof {
            use_type_invariant(&self.dram);
            use_type_invariant(&self.flash);
        }
        let mut k: u64 = 0;
        while k < n
            invariant
                k <= n <= 8,
                o < 0x1000,
                self@ == (BusView {
                    uart: uart_write(old(self)@.uart, o, data, k as int),
                    ..old(self)@
                }),
            decreases n - k,
        {
            self.uart.write(o + k, ((data >> (8 * k)) & 0xff) as u8);
            k += 1;
        }
    }

    /// Reads the word at offset `o` of the device that `addr` belongs to.
    fn read_word(&mut self, addr: u64, o: u64) -> (r: u32)
        requires
            addr < DRAM_ADDRESS_START,
            match old(self)@.region_of(addr) {
                Region::Timer(_) | Region::Intc(_) | Region::Virtio(_) | Region::Prci(_)
                | Region::Gpio(_) => true,
                _ => false,
            },
        ensures
            old(self)@.wf(),
            final(self)@.wf(),
            match old(self)@.region_of(addr) {
                Region::Timer(_) => r == old(self)@.timer.spec_read(o) && final(self)@ == old(
                    self,
                )@,
                Region::Intc(_) => r == old(self)@.intc.read_value(o) && final(self)@ == (BusView {
                    intc: old(self)@.intc.read(o),
                    ..old(self)@
                }),
                Region::Virtio(_) => r == old(self)@.virtio.read_value(o) && final(self)@ == old(
                    self,
                )@,
                Region::Prci(_) => r == old(self)@.prci.spec_read(o) && final(self)@ == old(
                    self,
                )@,
                _ => r == gpio_read(old(self)@.gpio, o) && final(self)@ == old(self)@,
            },
    {
        proof {
            use_type_invariant(&self.dram);
            use_type_invariant(&self.flash);
        }
        if TIMER_ADDRESS_START <= addr && addr <= TIMER_ADDRESS_END {
            self.timer.read(o)
        } else if INTC_ADDRESS_START <= addr && addr <= INTC_ADDRESS_END {
            self.intc.read(o)
        } else if VIRTIO_ADDRESS_START <= addr && addr <= VIRTIO_ADDRESS_END {
            self.virtio.read(o)
        } else if PRCI_ADDRESS_START <= addr && addr <= PRCI_ADDRESS_END {
            self.prci.read(o)
        } else {
            self.gpio.read(o)
        }
    }

    /// Writes the word at offset `o` of the device that `addr` belongs to.
    fn write_word(&mut self, addr: u64, o: u64, data: u32)
        requires
            addr < DRAM_ADDRESS_START,
            match old(self)@.region_of(addr) {
                Region::Timer(_) | Region::Intc(_) | Region::Virtio(_) | Region::Prci(_)
                | Region::Gpio(_) => true,
                _ => false,
            },
        ensures
            old(self)@.wf(),
            final(self)@.wf(),
            final(self)@ == match old(self)@.region_of(addr) {
                Region::Timer(_) => BusView {
                    timer: old(self)@.timer.spec_write(o, data),
                    ..old(self)@
                },
                Region::Intc(_) => BusView { intc: old(self)@.intc.write(o, data), ..old(self)@ },
                Region::Virtio(_) => BusView {
                    virtio: old(self)@.virtio.write(o, data),
                    ..old(self)@
                },
                Region::Prci(_) => BusView {
                    prci: old(self)@.prci.spec_write(o, data),
                    ..old(self)@
                },
                _ => BusView { gpio: gpio_write(old(self)@.gpio, o, data), ..old(self)@ },
            },
    {
        proof {
            use_type_invariant(&self.dram);
            use_type_invariant(&self.flash);
        }
        if TIMER_ADDRESS_START <= addr && addr <= TIMER_ADDRESS_END {
            self.timer.write(o, data);
        } else if INTC_ADDRESS_START <= addr && addr <= INTC_ADDRESS_END {
            self.intc.write(o, data);
        } else if VIRTIO_ADDRESS_START <= addr && addr <= VIRTIO_ADDRESS_END {
            self.virtio.write(o, data);
        } else if PRCI_ADDRESS_START <= addr && addr <= PRCI_ADDRESS_END {
            self.prci.write(o, data);
        } else {
            self.gpio.write(o, data);
        }
    }

    /// Start of the region of a device that `addr` belongs to: the UART or one of the
    /// devices that take words. `None` where `addr` belongs to none of them.
    fn device_base(&self, addr: u64) -> (r: Option<u64>)
        requires
            addr < DRAM_ADDRESS_START,
        ensures
            self@.wf(),
            match self@.region_of(addr) {
                Region::Timer(o) | Region::Intc(o) | Region::Uart(o) | Region::Virtio(o)
                | Region::Prci(o) | Region::Gpio(o) => r == Some((addr - o) as u64) && o
                    < 0x400_0000,
                _ => r.is_none(),
            },
            self@.region_of(addr) is Uart ==> addr - r.unwrap() < 0x1000,
    {
        proof {
            use_type_invariant(&self.dram);
            use_type_invariant(&self.flash);
        }
        let fe310 = matches!(self.machine, Machine::SiFiveE);
        if TIMER_ADDRESS_START <= addr && addr <= TIMER_ADDRESS_END {
            Some(TIMER_ADDRESS_START)
        } else if INTC_ADDRESS_START <= addr && addr <= INTC_ADDRESS_END {
            Some(INTC_ADDRESS_START)
        } else if UART_ADDRESS_START <= addr && addr <= UART_ADDRESS_END {
            Some(UART_ADDRESS_START)
        } else if VIRTIO_ADDRESS_START <= addr && addr <= VIRTIO_ADDRESS_END {
            Some(VIRTIO_ADDRESS_START)
        } else if fe310 && PRCI_ADDRESS_START <= addr && addr <= PRCI_ADDRESS_END {
            Some(PRCI_ADDRESS_START)
        } else if fe310 && GPIO_ADDRESS_START <= addr && addr <= GPIO_ADDRESS_END {
            Some(GPIO_ADDRESS_START)
        } else {
            None
        }
    }

    /// Loads `n` bytes at `addr` from main memory.
    pub fn read_dram(&self, addr: u64, n: u64) -> (r: Option<u64>)
        requires
            is_width(n as int),
        ensures
            self@.wf(),
            r == self@.dram_value(addr, n as int),
    {
        proof {
            use_type_invariant(&self.dram);
            use_type_invariant(&self.flash);
        }
        if DRAM_ADDRESS_START <= addr {
            let o = addr - DRAM_ADDRESS_START;
            let size = self.dram.size();
            if size < n || o > size - n {
                return None;
            }
            return Some(self.dram.read_bytes(o, n));
        }
        None
    }

    /// Loads `n` bytes at `addr`.
    pub fn read(&mut self, addr: u64, n: u64) -> (r: Result<u64, ()>)
        requires
            is_width(n as int),
        ensures
            old(self)@.wf(),
            final(self)@.wf(),
            r == old(self)@.read_value(addr, n as int),
            final(self)@ == old(self)@.read(addr, n as int),
    {
        proof {
            use_type_invariant(&self.dram);
            use_type_invariant(&self.flash);
        }
        if DRAM_ADDRESS_START <= addr {
            let o = addr - DRAM_ADDRESS_START;
            let size = self.dram.size();
            if size < n || o > size - n {
                return Err(());
            }
            return Ok(self.dram.read_bytes(o, n));
        }
        let fe310 = matches!(self.machine, Machine::SiFiveE);
        if fe310 && SPIFLASH_ADDRESS_START <= addr && addr <= SPIFLASH_ADDRESS_END {
            let o = addr - SPIFLASH_ADDRESS_START;
            let size = self.flash.size();
            if size < n || o > size - n {
                return Err(());
            }
            return Ok(self.flash.read_bytes(o, n));
        }
        let base = match self.device_base(addr) {
            Some(b) => b,
            None => {
                return Err(());
            },
        };
        let o = addr - base;
        if base == UART_ADDRESS_START {
            return Ok(self.read_uart(o, n));
        }
        if n == 4 {
            let w = self.read_word(addr, o);
            Ok(w as u64)
        } else if n == 8 {
            let lo = self.read_word(addr, o);
            let hi = self.read_word(addr, o + 4);
            Ok((lo as u64) | ((hi as u64) << 32))
        } else {
            Err(())
        }
    }

    /// Stores the `n` low bytes of `data` at `addr`.
    pub fn write(&mut self, addr: u64, data: u64, n: u64) -> (r: Result<(), ()>)
        requires
            is_width(n as int),
        ensures
            old(self)@.wf(),
            final(self)@.wf(),
            r.is_ok() == old(self)@.writes(addr, n as int),
            final(self)@ == old(self)@.write(addr, data, n as int),
    {
        proof {
            use_type_invariant(&self.dram);
            use_type_invariant(&self.flash);
        }
        if DRAM_ADDRESS_START <= addr {
            let o = addr - DRAM_ADDRESS_START;
            let size = self.dram.size();
            if size < n || o > size - n {
                return Err(());
            }
            self.dram.write_bytes(o, data, n);
            if let Some(line) = self.reservation {
                let touched = if addr >= line {
                    addr - line < LINE_SIZE
                } else {
                    line - addr < n
                };
                if touched {
                    self.reservation = None;
                }
            }
            return Ok(());
        }
        let fe310 = matches!(self.machine, Machine::SiFiveE);
        if fe310 && SPIFLASH_ADDRESS_START <= addr && addr <= SPIFLASH_ADDRESS_END {
            let o = addr - SPIFLASH_ADDRESS_START;
            let size = self.flash.size();
            if size < n || o > size - n {
                return Err(());
            }
            self.flash.write_bytes(o, data, n);
            return Ok(());
        }
        let base = match self.device_base(addr) {
            Some(b) => b,
            None => {
                return Err(());
            },
        };
        let o = addr - base;
        if base == UART_ADDRESS_START {
            self.write_uart(o, data, n);
            return Ok(());
        }
        if n == 4 {
            self.write_word(addr, o, data as u32);
            Ok(())
        } else if n == 8 {
            self.write_word(addr, o, data as u32);
            self.write_word(addr, o + 4, (data >> 32) as u32);
            Ok(())
        } else {
            Err(())
        }
    }

    pub fn read8(&mut self, addr: u64) -> (r: Result<u8, ()>)
        ensures
            old(self)@.wf(),
            final(self)@.wf(),
            widen(r, old(self)@.read_value(addr, 1).unwrap()) == old(self)@.read_value(addr, 1),
            r.is_ok() ==> r.unwrap() == old(self)@.read_value(addr, 1).unwrap() as u8,
            final(self)@ == old(self)@.read(addr, 1),
    {
        proof {
            use_type_invariant(&self.dram);
            use_type_invariant(&self.flash);
        }
        match self.read(addr, 1) {
            Ok(v) => Ok(v as u8),
            Err(e) => Err(e),
        }
    }

    pub fn read16(&mut self, addr: u64) -> (r: Result<u16, ()>)
        ensures
            old(self)@.wf(),
            final(self)@.wf(),
            widen(r, old(self)@.read_value(addr, 2).unwrap()) == old(self)@.read_value(addr, 2),
            r.is_ok() ==> r.unwrap() == old(self)@.read_value(addr, 2).unwrap() as u16,
            final(self)@ == old(self)@.read(addr, 2),
    {
        proof {
            use_type_invariant(&self.dram);
            use_type_invariant(&self.flash);
        }
        match self.read(addr, 2) {
            Ok(v) => Ok(v as u16),
            Err(e) => Err(e),
        }
    }

    pub fn read32(&mut self, addr: u64) -> (r: Result<u32, ()>)
        ensures
            old(self)@.wf(),
            final(self)@.wf(),
            widen(r, old(self)@.read_value(addr, 4).unwrap()) == old(self)@.read_value(addr, 4),
            r.is_ok() ==> r.unwrap() == old(self)@.read_value(addr, 4).unwrap() as u32,
            final(self)@ == old(self)@.read(addr, 4),
    {
        proof {
            use_type_invariant(&self.dram);
            use_type_invariant(&self.flash);
        }
        match self.read(addr, 4) {
            Ok(v) => Ok(v as u32),
            Err(e) => Err(e),
        }
    }

    pub fn read64(&mut self, addr: u64) -> (r: Result<u64, ()>)
        ensures
            old(self)@.wf(),
            final(self)@.wf(),
            r == old(self)@.read_value(addr, 8),
            final(self)@ == old(self)@.read(addr, 8),
    {
        proof {
            use_type_invariant(&self.dram);
            use_type_invariant(&self.flash);
        }
        self.read(addr, 8)
    }

    pub fn write8(&mut self, addr: u64, data: u8) -> (r: Result<(), ()>)
        ensures
            old(self)@.wf(),
            final(self)@.wf(),
            r.is_ok() == old(self)@.writes(addr, 1),
            final(self)@ == old(self)@.write(addr, data as u64, 1),
    {
        proof {
            use_type_invariant(&self.dram);
            use_type_invariant(&self.flash);
        }
        self.write(addr, data as u64, 1)
    }

    pub fn write16(&mut self, addr: u64, data: u16) -> (r: Result<(), ()>)
        ensures
            old(self)@.wf(),
            final(self)@.wf(),
            r.is_ok() == old(self)@.writes(addr, 2),
            final(self)@ == old(self)@.write(addr, data as u64, 2),
    {
        proof {
            use_type_invariant(&self.dram);
            use_type_invariant(&self.flash);
        }
        self.write(addr, data as u64, 2)
    }

    pub fn write32(&mut self, addr: u64, data: u32) -> (r: Result<(), ()>)
        ensures
            old(self)@.wf(),
            final(self)@.wf(),
            r.is_ok() == old(self)@.writes(addr, 4),
            final(self)@ == old(self)@.write(addr, data as u64, 4),
    {
        proof {
            use_type_invariant(&self.dram);
            use_type_invariant(&self.flash);
        }
        self.write(addr, data as u64, 4)
    }

    pub fn write64(&mut self, addr: u64, data: u64) -> (r: Result<(), ()>)
        ensures
            old(self)@.wf(),
            final(self)@.wf(),
            r.is_ok() == old(self)@.writes(addr, 8),
            final(self)@ == old(self)@.write(addr, data, 8),
    {
        proof {
            use_type_invariant(&self.dram);
            use_type_invariant(&self.flash);
        }
        self.write(addr, data, 8)
    }
}

} // verus!
