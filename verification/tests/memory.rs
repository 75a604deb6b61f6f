use riscv_emu::console::{Terminal, Tty, TtyDummy};
use riscv_emu::dram::{Dram, MAX_DRAM_SIZE};
use riscv_emu::machine::Machine;
use riscv_emu::system_bus::{
    SystemBus, DRAM_ADDRESS_START, GPIO_ADDRESS_START, INTC_ADDRESS_START, PRCI_ADDRESS_START,
    SPIFLASH_ADDRESS_START, TIMER_ADDRESS_START, UART_ADDRESS_START, VIRTIO_ADDRESS_START,
};

fn bus() -> SystemBus {
    SystemBus::new(Machine::SiFiveU, Terminal::Dummy(TtyDummy::new()))
}

#[test]
fn dram_starts_zeroed_with_full_size() {
    let dram = Dram::<{ 128 * 1024 * 1024 }>::new();
    assert_eq!(dram.size(), MAX_DRAM_SIZE);
    assert_eq!(dram.size(), 128 * 1024 * 1024);
    assert_eq!(dram.read64(0), 0);
    assert_eq!(dram.read8(MAX_DRAM_SIZE - 1), 0);
}

#[test]
fn dram_has_the_size_of_its_type() {
    assert_eq!(Dram::<0>::new().size(), 0);
    assert_eq!(Dram::<16>::new().size(), 16);
    let mut dram = Dram::<16>::new();
    dram.write64(8, u64::MAX);
    dram.initialize(vec![1; 16]);
    assert_eq!(dram.size(), 16);
    assert_eq!(dram.read64(8), 0x0101_0101_0101_0101);
}

#[test]
fn dram_write_is_little_endian() {
    let mut dram = Dram::<64>::new();
    dram.write32(8, 0x1234_5678);
    assert_eq!(dram.read8(8), 0x78);
    assert_eq!(dram.read8(9), 0x56);
    assert_eq!(dram.read8(10), 0x34);
    assert_eq!(dram.read8(11), 0x12);
    assert_eq!(dram.read8(12), 0);
    assert_eq!(dram.read8(7), 0);
}

#[test]
fn dram_round_trip_every_width() {
    let mut dram = Dram::<64>::new();
    dram.write8(1, 0xab);
    assert_eq!(dram.read8(1), 0xab);
    dram.write16(2, 0xbeef);
    assert_eq!(dram.read16(2), 0xbeef);
    dram.write32(4, 0xdead_beef);
    assert_eq!(dram.read32(4), 0xdead_beef);
    dram.write64(8, 0x0123_4567_89ab_cdef);
    assert_eq!(dram.read64(8), 0x0123_4567_89ab_cdef);
}

#[test]
fn dram_narrow_loads_inside_a_wide_store() {
    let mut dram = Dram::<64>::new();
    dram.write64(16, 0x0123_4567_89ab_cdef);
    assert_eq!(dram.read32(16), 0x89ab_cdef);
    assert_eq!(dram.read32(20), 0x0123_4567);
    assert_eq!(dram.read16(16), 0xcdef);
    assert_eq!(dram.read16(18), 0x89ab);
    assert_eq!(dram.read16(22), 0x0123);
    assert_eq!(dram.read8(16), 0xef);
    assert_eq!(dram.read8(23), 0x01);
}

#[test]
fn dram_generic_width_access() {
    let mut dram = Dram::<64>::new();
    dram.write_bytes(0, 0x1122_3344_5566_7788, 4);
    assert_eq!(dram.read_bytes(0, 8), 0x5566_7788);
    assert_eq!(dram.read_bytes(0, 4), 0x5566_7788);
    assert_eq!(dram.read_bytes(0, 2), 0x7788);
    assert_eq!(dram.read_bytes(1, 1), 0x77);
}

#[test]
fn dram_initialize_copies_to_the_front() {
    let mut dram = Dram::<16>::new();
    dram.write8(5, 9);
    dram.initialize(vec![1, 2, 3]);
    assert_eq!(dram.read8(0), 1);
    assert_eq!(dram.read8(1), 2);
    assert_eq!(dram.read8(2), 3);
    assert_eq!(dram.read8(3), 0);
    assert_eq!(dram.read8(5), 9);
}

#[test]
fn dram_copy_from_takes_a_range() {
    let mut dram = Dram::<16>::new();
    dram.copy_from(4, &vec![10, 11, 12, 13, 14], 1, 3);
    assert_eq!(dram.read8(3), 0);
    assert_eq!(dram.read8(4), 11);
    assert_eq!(dram.read8(5), 12);
    assert_eq!(dram.read8(6), 13);
    assert_eq!(dram.read8(7), 0);
}

#[test]
fn bus_round_trip_in_main_memory() {
    let mut bus = bus();
    bus.write64(DRAM_ADDRESS_START + 0x100, 0x0123_4567_89ab_cdef).unwrap();
    assert_eq!(bus.read64(DRAM_ADDRESS_START + 0x100), Ok(0x0123_4567_89ab_cdef));
    assert_eq!(bus.read32(DRAM_ADDRESS_START + 0x104), Ok(0x0123_4567));
    assert_eq!(bus.read16(DRAM_ADDRESS_START + 0x102), Ok(0x89ab));
    assert_eq!(bus.read8(DRAM_ADDRESS_START + 0x107), Ok(0x01));
    bus.write16(DRAM_ADDRESS_START + 0x100, 0xffff).unwrap();
    assert_eq!(bus.read64(DRAM_ADDRESS_START + 0x100), Ok(0x0123_4567_89ab_ffff));
    bus.write8(DRAM_ADDRESS_START + 0x103, 0).unwrap();
    assert_eq!(bus.read32(DRAM_ADDRESS_START + 0x100), Ok(0x00ab_ffff));
}

#[test]
fn bus_takes_every_aligned_word_of_main_memory() {
    let mut bus = bus();
    for addr in [0x8000_0000u64, 0x8000_0004, 0x8400_0000, 0x87ff_fffc] {
        assert_eq!(bus.write32(addr, 0xdead_beef), Ok(()));
        assert_eq!(bus.read32(addr), Ok(0xdead_beef));
        assert_eq!(bus.read8(addr + 1), Ok(0xbe));
    }
    assert_eq!(bus.read32(0x87ff_fff8), Ok(0));
    assert_eq!(bus.write32(0x8800_0000, 1), Err(()));
    assert_eq!(bus.dram_size(), 0x0800_0000);
}

#[test]
fn bus_faults_outside_every_region() {
    let mut bus = bus();
    assert_eq!(bus.read8(0), Err(()));
    assert_eq!(bus.read32(0x1000), Err(()));
    assert_eq!(bus.write32(0x4000_0000, 1), Err(()));
    assert_eq!(bus.read64(0x7fff_fff8), Err(()));
}

#[test]
fn bus_faults_past_the_end_of_main_memory() {
    let mut bus = bus();
    let end = DRAM_ADDRESS_START + MAX_DRAM_SIZE;
    assert_eq!(bus.read8(end - 1), Ok(0));
    assert_eq!(bus.read8(end), Err(()));
    assert_eq!(bus.read32(end - 4), Ok(0));
    assert_eq!(bus.read32(end - 3), Err(()));
    assert_eq!(bus.write64(end - 7, 1), Err(()));
    assert_eq!(bus.write64(end - 8, 1), Ok(()));
    assert_eq!(bus.read64(u64::MAX - 3), Err(()));
}

#[test]
fn bus_word_devices_refuse_narrow_access() {
    let mut bus = bus();
    assert_eq!(bus.read8(TIMER_ADDRESS_START), Err(()));
    assert_eq!(bus.read16(TIMER_ADDRESS_START), Err(()));
    assert_eq!(bus.write8(INTC_ADDRESS_START, 1), Err(()));
    assert_eq!(bus.write16(VIRTIO_ADDRESS_START, 1), Err(()));
    assert_eq!(bus.read32(VIRTIO_ADDRESS_START), Ok(0x7472_6976));
}

#[test]
fn bus_splits_a_double_word_for_the_timer() {
    let mut bus = bus();
    bus.write64(TIMER_ADDRESS_START + 0x4000, 0x1122_3344_5566_7788).unwrap();
    assert_eq!(bus.read32(TIMER_ADDRESS_START + 0x4000), Ok(0x5566_7788));
    assert_eq!(bus.read32(TIMER_ADDRESS_START + 0x4004), Ok(0x1122_3344));
    assert_eq!(bus.read64(TIMER_ADDRESS_START + 0x4000), Ok(0x1122_3344_5566_7788));
}

#[test]
fn bus_reads_the_uart_byte_by_byte() {
    let mut bus = bus();
    // Scratch register at offset 7, line status (0x60) at offset 5.
    bus.write8(UART_ADDRESS_START + 7, 0x5a).unwrap();
    assert_eq!(bus.read8(UART_ADDRESS_START + 7), Ok(0x5a));
    assert_eq!(bus.read8(UART_ADDRESS_START + 5), Ok(0x60));
    assert_eq!(bus.read16(UART_ADDRESS_START + 4), Ok(0x6000));
    assert_eq!(bus.read32(UART_ADDRESS_START + 4), Ok(0x5a00_6000));
}

#[test]
fn bus_writes_the_uart_byte_by_byte() {
    let mut bus = bus();
    // A half-word at offset 3 sets line control and modem control.
    bus.write16(UART_ADDRESS_START + 3, 0x0b03).unwrap();
    assert_eq!(bus.read8(UART_ADDRESS_START + 3), Ok(0x03));
    assert_eq!(bus.read8(UART_ADDRESS_START + 4), Ok(0x0b));
}

#[test]
fn bus_virt_map_has_no_fe310_devices() {
    let mut bus = bus();
    assert_eq!(bus.read32(PRCI_ADDRESS_START), Err(()));
    assert_eq!(bus.read32(GPIO_ADDRESS_START), Err(()));
    assert_eq!(bus.read8(SPIFLASH_ADDRESS_START), Err(()));
}

#[test]
fn bus_fe310_map_has_prci_gpio_and_flash() {
    let mut bus = SystemBus::new(Machine::SiFiveE, Terminal::Dummy(TtyDummy::new()));
    assert_eq!(bus.read32(PRCI_ADDRESS_START), Ok(0x8000_0000));
    bus.write32(GPIO_ADDRESS_START + 8, 0x55).unwrap();
    assert_eq!(bus.read32(GPIO_ADDRESS_START + 8), Ok(0x55));
    assert_eq!(bus.read64(GPIO_ADDRESS_START + 8), Ok(0x55));
    bus.write32(SPIFLASH_ADDRESS_START + 0x10, 0xcafe_f00d).unwrap();
    assert_eq!(bus.read32(SPIFLASH_ADDRESS_START + 0x10), Ok(0xcafe_f00d));
    assert_eq!(bus.read8(SPIFLASH_ADDRESS_START + 0x11), Ok(0xf0));
    assert_eq!(bus.read8(0x3fff_ffff), Ok(0));
    assert_eq!(bus.read16(0x3fff_ffff), Err(()));
}

#[test]
fn bus_reservation_is_lost_by_a_store_to_its_line() {
    let mut bus = bus();
    bus.reserve(DRAM_ADDRESS_START + 0x204);
    bus.write8(DRAM_ADDRESS_START + 0x208, 1).unwrap();
    assert!(bus.take_reservation(DRAM_ADDRESS_START + 0x200));
    bus.reserve(DRAM_ADDRESS_START + 0x204);
    bus.write8(DRAM_ADDRESS_START + 0x207, 1).unwrap();
    assert!(!bus.take_reservation(DRAM_ADDRESS_START + 0x200));
    bus.reserve(DRAM_ADDRESS_START + 0x200);
    bus.write32(DRAM_ADDRESS_START + 0x1fe, 1).unwrap();
    assert!(!bus.take_reservation(DRAM_ADDRESS_START + 0x200));
    bus.reserve(DRAM_ADDRESS_START + 0x200);
    assert!(!bus.take_reservation(DRAM_ADDRESS_START + 0x208));
    bus.reserve(DRAM_ADDRESS_START + 0x200);
    assert!(bus.take_reservation(DRAM_ADDRESS_START + 0x200));
    assert!(!bus.take_reservation(DRAM_ADDRESS_START + 0x200));
}

#[test]
fn bus_tick_moves_bytes_between_uart_and_terminal() {
    let mut tty = Tty::new();
    tty.push_input(b'k');
    let mut bus = SystemBus::new(Machine::SiFiveU, Terminal::Screen(tty));
    bus.write8(UART_ADDRESS_START, b'Z').unwrap();
    let lines = bus.tick();
    assert_eq!(lines, vec![false, false, false, false]);
    assert_eq!(bus.read8(UART_ADDRESS_START), Ok(b'k'));
    match bus.terminal() {
        Terminal::Screen(t) => assert_eq!(t.take_output(), vec![b'Z']),
        Terminal::Dummy(_) => panic!("the screen was replaced"),
    }
}

#[test]
fn bus_tick_raises_the_external_line_for_the_uart() {
    let mut bus = bus();
    // Enable the transmitter-empty interrupt, then send a byte.
    bus.write8(UART_ADDRESS_START + 1, 0x02).unwrap();
    bus.write8(UART_ADDRESS_START, b'a').unwrap();
    // Source 10 gets priority 1 and is enabled for the machine context.
    bus.write32(INTC_ADDRESS_START + 4 * 10, 1).unwrap();
    bus.write32(INTC_ADDRESS_START + 0x2000, 1 << 10).unwrap();
    let lines = bus.tick();
    assert_eq!(lines, vec![false, false, false, true]);
    assert_eq!(bus.read32(INTC_ADDRESS_START + 0x20_0004), Ok(10));
    assert_eq!(bus.read32(INTC_ADDRESS_START + 0x20_0004), Ok(0));
}

#[test]
fn bus_loads_images_into_memory_and_flash() {
    let mut fe310 = SystemBus::new(Machine::SiFiveE, Terminal::Dummy(TtyDummy::new()));
    assert_eq!(fe310.image_base(), SPIFLASH_ADDRESS_START);
    assert!(fe310.holds(SPIFLASH_ADDRESS_START, 512 * 1024 * 1024));
    assert!(!fe310.holds(SPIFLASH_ADDRESS_START + 1, 512 * 1024 * 1024));
    assert!(fe310.holds(DRAM_ADDRESS_START + 8, 8));
    assert!(!fe310.holds(0x4000_0000, 1));
    assert!(!fe310.holds(0x1000, 0));
    fe310.reserve(DRAM_ADDRESS_START);
    fe310.load_image(SPIFLASH_ADDRESS_START + 4, &vec![1, 2, 3, 4, 5], 1, 3);
    assert_eq!(fe310.read64(SPIFLASH_ADDRESS_START), Ok(0x0004_0302_0000_0000));
    assert!(!fe310.take_reservation(DRAM_ADDRESS_START));
    fe310.load_image(DRAM_ADDRESS_START, &vec![9, 8], 0, 2);
    assert_eq!(fe310.read32(DRAM_ADDRESS_START), Ok(0x0809));
    let virt = bus();
    assert_eq!(virt.image_base(), DRAM_ADDRESS_START);
    assert!(!virt.holds(SPIFLASH_ADDRESS_START, 1));
    assert!(virt.holds(DRAM_ADDRESS_START, MAX_DRAM_SIZE));
    assert!(!virt.holds(DRAM_ADDRESS_START, MAX_DRAM_SIZE + 1));
}

#[test]
fn bus_set_dram_data_and_disk_data() {
    let mut bus = bus();
    bus.set_dram_data(vec![0x13, 0x00, 0x00, 0x00]);
    assert_eq!(bus.read32(DRAM_ADDRESS_START), Ok(0x13));
    assert_eq!(bus.dram_size(), MAX_DRAM_SIZE);
    bus.set_disk_data(vec![1, 2, 3]);
    assert_eq!(bus.read_dram(DRAM_ADDRESS_START, 4), Some(0x13));
    assert_eq!(bus.read_dram(TIMER_ADDRESS_START, 4), None);
}
