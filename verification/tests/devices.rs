use riscv_emu::console::{Console, Terminal, Tty, TtyDummy};
use riscv_emu::dram::Dram;
use riscv_emu::peripherals::fe310_g002::fe310_uart::Fe310Uart;
use riscv_emu::peripherals::fe310_g002::gpio::Gpio;
use riscv_emu::peripherals::fe310_g002::prci::Prci;
use riscv_emu::peripherals::intc::Intc;
use riscv_emu::peripherals::timer::Timer;
use riscv_emu::peripherals::uart::Uart;
use riscv_emu::peripherals::virtio::Virtio;

const BASE: u64 = 0x8000_0000;

fn screen_output(t: &mut Terminal) -> Vec<u8> {
    match t {
        Terminal::Screen(tty) => tty.take_output(),
        Terminal::Dummy(_) => panic!("not a screen"),
    }
}

#[test]
fn tty_shows_ascii_and_drops_the_rest() {
    let mut tty = Tty::new();
    tty.putchar(b'a');
    tty.putchar(0x0d);
    tty.putchar(b'\n');
    tty.putchar(0x80);
    tty.putchar(0xff);
    tty.putchar(0x7f);
    assert_eq!(tty.take_output(), vec![b'a', b'\n', 0x7f]);
    assert_eq!(tty.take_output(), Vec::<u8>::new());
}

#[test]
fn tty_skips_escape_sequences() {
    let mut tty = Tty::new();
    // ESC [ 3 m x: the bracket and the byte after it are skipped.
    for c in [0x1b, b'[', b'3', b'm', b'x'] {
        tty.putchar(c);
    }
    assert_eq!(tty.take_output(), vec![b'm', b'x']);
    // A bracket outside an escape sequence is shown.
    tty.putchar(b'[');
    assert_eq!(tty.take_output(), vec![b'[']);
    // A carriage return inside an escape sequence does not end it.
    for c in [0x1b, 0x0d, b'A', b'B'] {
        tty.putchar(c);
    }
    assert_eq!(tty.take_output(), vec![b'B']);
}

#[test]
fn tty_hands_out_input_in_order() {
    let mut tty = Tty::new();
    assert_eq!(tty.getchar(), 0);
    tty.push_input(b'h');
    tty.push_input(b'i');
    assert_eq!(tty.getchar(), b'h');
    assert_eq!(tty.getchar(), b'i');
    assert_eq!(tty.getchar(), 0);
}

#[test]
fn dummy_terminal_is_silent() {
    let mut t = Terminal::Dummy(TtyDummy::new());
    t.putchar(b'a');
    assert_eq!(t.getchar(), 0);
    let mut d = TtyDummy::new();
    d.putchar(b'b');
    assert_eq!(d.getchar(), 0);
}

#[test]
fn uart_initial_registers() {
    let mut uart = Uart::new(Terminal::Dummy(TtyDummy::new()));
    assert_eq!(uart.read(0), 0);
    assert_eq!(uart.read(1), 0);
    assert_eq!(uart.read(2), 0x01);
    assert_eq!(uart.read(5), 0x60);
    assert_eq!(uart.read(7), 0);
    // The transmitter is empty, but no interrupt is enabled.
    assert!(!uart.is_irq());
    assert_eq!(uart.read(2), 0x01);
}

#[test]
fn uart_registers_keep_what_is_written() {
    let mut uart = Uart::new(Terminal::Dummy(TtyDummy::new()));
    uart.write(1, 0x03);
    uart.write(3, 0x1b);
    uart.write(4, 0x0b);
    uart.write(7, 0x5a);
    uart.write(5, 0xff);
    uart.write(6, 0xff);
    assert_eq!(uart.read(1), 0x03);
    assert_eq!(uart.read(3), 0x1b);
    assert_eq!(uart.read(4), 0x0b);
    assert_eq!(uart.read(7), 0x5a);
    assert_eq!(uart.read(5), 0x60);
    assert_eq!(uart.read(6), 0);
    // The register is selected by the low three bits of the address.
    assert_eq!(uart.read(0x0f), 0x5a);
}

#[test]
fn uart_transmits_on_tick() {
    let mut uart = Uart::new(Terminal::Screen(Tty::new()));
    uart.write(0, b'A');
    // Writing the transmit register clears the transmitter-empty status.
    assert_eq!(uart.read(5), 0x40);
    assert_eq!(screen_output(uart.terminal()), Vec::<u8>::new());
    uart.tick();
    assert_eq!(screen_output(uart.terminal()), vec![b'A']);
    // The status is set again whether the interrupt is enabled or not; the interrupt is
    // requested only when it is enabled.
    assert_eq!(uart.read(5), 0x60);
    assert!(!uart.is_irq());
    uart.write(1, 0x02);
    assert!(uart.is_irq());
    assert_eq!(uart.read(2), 0x02);
    uart.write(0, b'B');
    assert!(!uart.is_irq());
    uart.tick();
    assert_eq!(uart.read(5), 0x60);
    assert!(uart.is_irq());
    assert_eq!(screen_output(uart.terminal()), vec![b'B']);
}

#[test]
fn uart_receives_on_tick() {
    let mut tty = Tty::new();
    tty.push_input(b'x');
    tty.push_input(b'y');
    let mut uart = Uart::new(Terminal::Screen(tty));
    uart.tick();
    // The status tells of the byte; without the enable bit no interrupt is requested.
    assert_eq!(uart.read(5), 0x61);
    assert!(!uart.is_irq());
    assert_eq!(uart.read(2) & 0x0f, 0x01);
    uart.write(1, 0x01);
    assert!(uart.is_irq());
    assert_eq!(uart.read(2) & 0x0f, 0x04);
    // The second byte waits until the first one was read.
    uart.tick();
    assert_eq!(uart.read(0), b'x');
    assert_eq!(uart.read(5) & 0x01, 0);
    assert!(!uart.is_irq());
    assert_eq!(uart.read(0), 0);
    uart.tick();
    assert!(uart.is_irq());
    assert_eq!(uart.read(0), b'y');
    uart.tick();
    assert_eq!(uart.read(0), 0);
    assert!(!uart.is_irq());
}

#[test]
fn uart_interrupt_identification() {
    let mut tty = Tty::new();
    tty.push_input(b'x');
    let mut uart = Uart::new(Terminal::Screen(tty));
    // Transmitter empty is set from the start; it requests an interrupt once enabled.
    assert!(!uart.is_irq());
    assert_eq!(uart.read(2), 0x01);
    uart.write(1, 0x02);
    assert!(uart.is_irq());
    assert_eq!(uart.read(2), 0x02);
    uart.write(0, b'a');
    // 0x40 is left: neither data ready nor transmitter empty.
    assert!(!uart.is_irq());
    assert_eq!(uart.read(2), 0x01);
    // With both conditions pending and enabled, data ready is named first.
    uart.write(1, 0x03);
    uart.tick();
    assert_eq!(uart.read(5), 0x61);
    assert!(uart.is_irq());
    assert_eq!(uart.read(2), 0x04);
    // With data ready disabled, the transmitter is named.
    uart.write(1, 0x02);
    assert!(uart.is_irq());
    assert_eq!(uart.read(2), 0x02);
    uart.write(1, 0x01);
    assert!(uart.is_irq());
    assert_eq!(uart.read(2), 0x04);
    uart.write(1, 0x00);
    assert!(!uart.is_irq());
}

#[test]
fn fe310_uart_registers() {
    let mut uart = Fe310Uart::new(Terminal::Dummy(TtyDummy::new()));
    assert_eq!(uart.read(0x0c), 0x01);
    assert_eq!(uart.read(0x00), 0);
    uart.write(0x00, 0x141);
    assert_eq!(uart.read(0x00), 0x8000_0041);
    uart.write(0x08, 0xffff_ffff);
    assert_eq!(uart.read(0x08), 0x7_0003);
    uart.write(0x0c, 0xffff_ffff);
    assert_eq!(uart.read(0x0c), 0x7_0001);
    uart.write(0x10, 0xff);
    assert_eq!(uart.read(0x10), 0x3);
    uart.write(0x18, 0x12_3456);
    assert_eq!(uart.read(0x18), 0x3456);
    assert_eq!(uart.read(0x14), 0);
    assert!(!uart.is_irq());
}

#[test]
fn fe310_uart_transmits_every_sixteenth_cycle() {
    let mut uart = Fe310Uart::new(Terminal::Screen(Tty::new()));
    uart.write(0x08, 0x1);
    uart.write(0x10, 0x1);
    uart.write(0x00, b'Q' as u32);
    for _ in 0..15 {
        uart.tick();
    }
    assert_eq!(uart.read(0x00), 0x8000_0051);
    assert!(!uart.is_irq());
    uart.tick();
    assert_eq!(uart.read(0x00), 0);
    assert_eq!(uart.read(0x14), 0x1);
    assert!(uart.is_irq());
}

#[test]
fn fe310_uart_interrupt_needs_its_enable_bit() {
    let mut uart = Fe310Uart::new(Terminal::Dummy(TtyDummy::new()));
    uart.write(0x08, 0x1);
    uart.write(0x00, b'Q' as u32);
    for _ in 0..16 {
        uart.tick();
    }
    // The byte was sent: the interrupt is pending, and requested once it is enabled.
    assert_eq!(uart.read(0x14), 0x1);
    assert!(!uart.is_irq());
    uart.write(0x10, 0x2);
    assert!(!uart.is_irq());
    uart.write(0x10, 0x1);
    assert!(uart.is_irq());
}

#[test]
fn fe310_uart_receives_every_65536th_cycle() {
    let mut tty = Tty::new();
    tty.push_input(b'r');
    let mut uart = Fe310Uart::new(Terminal::Screen(tty));
    uart.write(0x10, 0x2);
    for _ in 0..0xffff {
        uart.tick();
    }
    assert_eq!(uart.read(0x04), 0);
    uart.tick();
    assert_eq!(uart.read(0x14), 0x2);
    assert!(uart.is_irq());
    assert_eq!(uart.read(0x04), 0x8000_0072);
    // Reading clears the flag and keeps the byte.
    assert_eq!(uart.read(0x04), 0x72);
}

#[test]
fn timer_counts_ticks() {
    let mut timer = Timer::new();
    assert_eq!(timer.read(0xbff8), 0);
    timer.tick();
    timer.tick();
    timer.tick();
    assert_eq!(timer.read(0xbff8), 3);
    assert_eq!(timer.read(0xbffc), 0);
    assert_eq!(timer.mtime, 3);
    assert_eq!(timer.clock, 3);
}

#[test]
fn timer_registers() {
    let mut timer = Timer::new();
    timer.write(0x4000, 0x5566_7788);
    timer.write(0x4004, 0x1122_3344);
    assert_eq!(timer.compare, 0x1122_3344_5566_7788);
    assert_eq!(timer.read(0x4000), 0x5566_7788);
    assert_eq!(timer.read(0x4004), 0x1122_3344);
    timer.write(0xbff8, 0xffff_ffff);
    timer.write(0xbffc, 0xffff_ffff);
    assert_eq!(timer.mtime, u64::MAX);
    timer.tick();
    assert_eq!(timer.mtime, 0);
    timer.write(0x0000, 0xff);
    assert_eq!(timer.read(0x0000), 1);
    assert!(timer.is_pending_software_interrupt(0));
    assert!(!timer.is_pending_software_interrupt(1));
    timer.write(0x0000, 0);
    assert!(!timer.is_pending_software_interrupt(0));
    // Where there is no register, reads yield 0 and writes change nothing.
    timer.write(0x10, 5);
    assert_eq!(timer.read(0x10), 0);
}

#[test]
fn timer_line_follows_the_counter_one_tick_later() {
    let mut timer = Timer::new();
    timer.write(0x4000, 2);
    assert!(!timer.is_pending_timer_interrupt(0));
    timer.tick();
    assert!(!timer.is_pending_timer_interrupt(0));
    timer.tick();
    assert_eq!(timer.mtime, 2);
    assert!(!timer.is_pending_timer_interrupt(0));
    timer.tick();
    assert!(timer.is_pending_timer_interrupt(0));
    assert!(!timer.is_pending_timer_interrupt(1));
    timer.write(0x4000, 100);
    assert!(timer.is_pending_timer_interrupt(0));
    timer.tick();
    assert!(!timer.is_pending_timer_interrupt(0));
}

#[test]
fn intc_claims_the_highest_priority() {
    let mut intc = Intc::new();
    intc.write(4 * 1, 1);
    intc.write(4 * 10, 2);
    intc.write(4 * 5, 2);
    intc.write(0x2000, (1 << 1) | (1 << 10) | (1 << 5));
    let lines = intc.tick(0, vec![1, 10, 5]);
    assert_eq!(lines, vec![false, false, false, true]);
    assert_eq!(intc.read(0x1000), (1 << 1) | (1 << 10) | (1 << 5));
    // Among equals the lowest identifier wins.
    assert_eq!(intc.read(0x20_0004), 5);
    assert_eq!(intc.read(0x20_0004), 10);
    assert_eq!(intc.read(0x20_0004), 1);
    assert_eq!(intc.read(0x20_0004), 0);
    assert_eq!(intc.read(0x1000), 0);
    assert_eq!(intc.tick(0, vec![]), vec![false, false, false, false]);
}

#[test]
fn intc_threshold_and_enable() {
    let mut intc = Intc::new();
    intc.write(4 * 3, 2);
    intc.write(0x2080, 1 << 3);
    intc.write(0x20_1000, 2);
    // The priority must exceed the threshold.
    assert_eq!(intc.tick(0, vec![3]), vec![false, false, false, false]);
    intc.write(0x20_1000, 1);
    assert_eq!(intc.tick(0, vec![]), vec![false, true, false, false]);
    // The machine context has not enabled the source.
    assert_eq!(intc.read(0x20_0004), 0);
    assert_eq!(intc.read(0x20_1004), 3);
    assert_eq!(intc.read(0x2080), 1 << 3);
    assert_eq!(intc.read(0x20_1000), 1);
    assert_eq!(intc.read(4 * 3), 2);
}

#[test]
fn intc_source_in_service_is_not_latched_until_completed() {
    let mut intc = Intc::new();
    intc.write(4 * 10, 1);
    intc.write(0x2000, 1 << 10);
    intc.tick(0, vec![10]);
    assert_eq!(intc.read(0x20_0004), 10);
    assert_eq!(intc.tick(0, vec![10]), vec![false, false, false, false]);
    assert_eq!(intc.read(0x1000), 0);
    intc.write(0x20_0004, 10);
    assert_eq!(intc.tick(0, vec![10]), vec![false, false, false, true]);
    assert_eq!(intc.read(0x20_0004), 10);
}

#[test]
fn intc_ignores_what_is_no_source() {
    let mut intc = Intc::new();
    intc.write(0x2000, u32::MAX);
    intc.write(0, 7);
    assert_eq!(intc.tick(0, vec![0, 32, 1000]), vec![false, false, false, false]);
    assert_eq!(intc.read(0x1000), 0);
    // The pending bitmap cannot be written.
    intc.write(0x1000, 0xff);
    assert_eq!(intc.read(0x1000), 0);
    // Another hart has no lines.
    intc.write(4, 1);
    assert_eq!(intc.tick(1, vec![1]), vec![false, false, false, false]);
    assert_eq!(intc.tick(0, vec![]), vec![false, false, false, true]);
    assert_eq!(intc.read(0x3000), 0);
}

#[test]
fn prci_reports_ready() {
    let mut prci = Prci::new();
    assert_eq!(prci.read(0x00), 0x8000_0000);
    assert_eq!(prci.read(0x04), 0x8000_0000);
    assert_eq!(prci.read(0x08), 0x8000_0000);
    assert_eq!(prci.read(0x0c), 0);
    prci.write(0x08, 0x1234);
    prci.write(0x0c, 0x100);
    assert_eq!(prci.read(0x08), 0x8000_1234);
    assert_eq!(prci.read(0x0c), 0x100);
    prci.write(0xf0, 1);
    assert_eq!(prci.read(0xf0), 0);
    prci.tick();
    assert_eq!(prci.pllcfg, 0x1234);
}

#[test]
fn gpio_keeps_what_is_written() {
    let mut gpio = Gpio::new();
    gpio.write(0x08, 0xff);
    gpio.write(0x40, 7);
    gpio.write(0x44, 9);
    gpio.write(0x09, 3);
    gpio.tick();
    assert_eq!(gpio.read(0x08), 0xff);
    assert_eq!(gpio.read(0x40), 7);
    assert_eq!(gpio.read(0x44), 0);
    assert_eq!(gpio.read(0x09), 0);
    assert_eq!(gpio.read(0x00), 0);
}

fn virtio_with_queue(dram: &mut Dram<0x1_0000>, kind: u32, sector: u64, disk: Vec<u8>) -> Virtio {
    let mut virtio = Virtio::new();
    virtio.init(disk);
    virtio.write(0x028, 4096);
    virtio.write(0x030, 0);
    virtio.write(0x038, 8);
    virtio.write(0x03c, 4096);
    virtio.write(0x040, 0x8_0001);
    // Descriptor 0: the header.
    dram.write64(0x1000, BASE + 0x3000);
    dram.write32(0x1008, 16);
    dram.write16(0x100c, 1);
    dram.write16(0x100e, 1);
    // Descriptor 1: the data.
    dram.write64(0x1010, BASE + 0x4000);
    dram.write32(0x1018, 512);
    dram.write16(0x101c, 3);
    dram.write16(0x101e, 2);
    // Descriptor 2: the status byte.
    dram.write64(0x1020, BASE + 0x5000);
    dram.write32(0x1028, 1);
    dram.write16(0x102c, 2);
    dram.write16(0x102e, 0);
    // The available ring holds one request, which starts at descriptor 0.
    dram.write16(0x1082, 1);
    dram.write16(0x1084, 0);
    // The header.
    dram.write32(0x3000, kind);
    dram.write64(0x3008, sector);
    dram.write8(0x5000, 0xff);
    virtio
}

fn disk_pattern() -> Vec<u8> {
    (0..1536).map(|i| (i % 251) as u8).collect()
}

#[test]
fn virtio_identifies_itself() {
    let virtio = Virtio::new();
    assert_eq!(virtio.read(0x000), 0x7472_6976);
    assert_eq!(virtio.read(0x004), 1);
    assert_eq!(virtio.read(0x008), 2);
    assert_eq!(virtio.read(0x00c), 0x554d_4551);
    assert_eq!(virtio.read(0x034), 1024);
    assert_eq!(virtio.read(0x060), 0);
    assert_eq!(virtio.read(0x100), 0);
    assert!(!virtio.is_irq());
}

#[test]
fn virtio_serves_a_read_request() {
    let mut dram = Dram::<0x1_0000>::new();
    let mut virtio = virtio_with_queue(&mut dram, 0, 1, disk_pattern());
    // Nothing happens before the notification.
    assert!(!virtio.tick(&mut dram, BASE));
    virtio.write(0x050, 0);
    assert!(virtio.tick(&mut dram, BASE));
    let disk = disk_pattern();
    for i in 0..512u64 {
        assert_eq!(dram.read8(0x4000 + i), disk[512 + i as usize]);
    }
    assert_eq!(dram.read8(0x4200), 0);
    assert_eq!(dram.read8(0x5000), 0);
    // The used ring holds the head of the request and the length of the data.
    assert_eq!(dram.read16(0x2002), 1);
    assert_eq!(dram.read32(0x2004), 0);
    assert_eq!(dram.read32(0x2008), 512);
    assert!(virtio.is_irq());
    assert_eq!(virtio.read(0x060), 1);
    // With nothing new in the available ring the notification is dropped.
    assert!(!virtio.tick(&mut dram, BASE));
    assert!(!virtio.tick(&mut dram, BASE));
    virtio.write(0x064, 1);
    assert!(!virtio.is_irq());
}

#[test]
fn virtio_serves_a_write_request() {
    let mut dram = Dram::<0x1_0000>::new();
    let mut virtio = virtio_with_queue(&mut dram, 1, 2, vec![0; 1536]);
    for i in 0..512u64 {
        dram.write8(0x4000 + i, (i % 7) as u8 + 1);
    }
    virtio.write(0x050, 0);
    assert!(virtio.tick(&mut dram, BASE));
    assert_eq!(dram.read8(0x5000), 0);
    assert_eq!(dram.read16(0x2002), 1);
    // Read the sector back through a second request.
    dram.write32(0x3000, 0);
    dram.write64(0x1010, BASE + 0x6000);
    dram.write16(0x1082, 2);
    dram.write16(0x1086, 0);
    virtio.write(0x050, 0);
    assert!(virtio.tick(&mut dram, BASE));
    for i in 0..512u64 {
        assert_eq!(dram.read8(0x6000 + i), (i % 7) as u8 + 1);
    }
    assert_eq!(dram.read16(0x2002), 2);
    assert_eq!(dram.read32(0x200c), 0);
    assert_eq!(dram.read32(0x2010), 512);
}

#[test]
fn virtio_reports_an_unknown_request_type() {
    let mut dram = Dram::<0x1_0000>::new();
    let mut virtio = virtio_with_queue(&mut dram, 4, 0, disk_pattern());
    virtio.write(0x050, 0);
    assert!(virtio.tick(&mut dram, BASE));
    assert_eq!(dram.read8(0x5000), 2);
    assert_eq!(dram.read8(0x4000), 0);
    assert_eq!(dram.read16(0x2002), 1);
}

#[test]
fn virtio_drops_a_request_outside_the_blob() {
    let mut dram = Dram::<0x1_0000>::new();
    // Sector 3 of a blob of three sectors lies past its end.
    let mut virtio = virtio_with_queue(&mut dram, 0, 3, disk_pattern());
    virtio.write(0x050, 0);
    assert!(!virtio.tick(&mut dram, BASE));
    assert_eq!(dram.read8(0x5000), 0xff);
    assert_eq!(dram.read16(0x2002), 0);
    assert!(!virtio.is_irq());
}

#[test]
fn virtio_drops_a_request_outside_the_memory() {
    let mut dram = Dram::<0x1_0000>::new();
    let mut virtio = virtio_with_queue(&mut dram, 0, 0, disk_pattern());
    // The data buffer reaches past the end of the memory.
    dram.write64(0x1010, BASE + 0xff00);
    virtio.write(0x050, 0);
    assert!(!virtio.tick(&mut dram, BASE));
    assert_eq!(dram.read16(0x2002), 0);
    // Without a queue nothing is served either.
    let mut bare = Virtio::new();
    bare.write(0x050, 0);
    assert!(!bare.tick(&mut dram, BASE));
}
