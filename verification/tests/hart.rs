use riscv_emu::console::{Terminal, Tty, TtyDummy};
use riscv_emu::cpu::cpu::{Cpu, Privilege, Xlen};
use riscv_emu::cpu::cpu_csr::{
    CSR_CYCLE, CSR_INSTRET, CSR_MCAUSE, CSR_MEDELEG, CSR_MEPC, CSR_MIDELEG, CSR_MIE, CSR_MIP,
    CSR_MSCRATCH, CSR_MSTATUS, CSR_MTVAL, CSR_MTVEC, CSR_SATP, CSR_SCAUSE, CSR_SEPC, CSR_STVAL,
    CSR_STVEC, CSR_TIME, CSR_UEPC,
};
use riscv_emu::cpu::cpu_instruction::{decode, Instruction, Operation};
use riscv_emu::machine::Machine;
use riscv_emu::system_bus::{INTC_ADDRESS_START, TIMER_ADDRESS_START, UART_ADDRESS_START};
use riscv_emu::trap::{Trap, Traps};

const START: u64 = 0x8000_0000;
const DATA: u64 = 0x8000_1000;
const MTVEC: u64 = 0x8000_4000;
const STVEC: u64 = 0x8000_5000;
const NOP: u32 = 0x0000_0013;

fn r(f7: u32, rs2: u32, rs1: u32, f3: u32, rd: u32, op: u32) -> u32 {
    (f7 << 25) | (rs2 << 20) | (rs1 << 15) | (f3 << 12) | (rd << 7) | op
}

fn i(imm: i32, rs1: u32, f3: u32, rd: u32, op: u32) -> u32 {
    (((imm as u32) & 0xfff) << 20) | (rs1 << 15) | (f3 << 12) | (rd << 7) | op
}

fn s(imm: i32, rs2: u32, rs1: u32, f3: u32, op: u32) -> u32 {
    let imm = imm as u32;
    (((imm >> 5) & 0x7f) << 25) | (rs2 << 20) | (rs1 << 15) | (f3 << 12) | ((imm & 0x1f) << 7) | op
}

fn b(imm: i32, rs2: u32, rs1: u32, f3: u32) -> u32 {
    let imm = imm as u32;
    (((imm >> 12) & 1) << 31)
        | (((imm >> 5) & 0x3f) << 25)
        | (rs2 << 20)
        | (rs1 << 15)
        | (f3 << 12)
        | (((imm >> 1) & 0xf) << 8)
        | (((imm >> 11) & 1) << 7)
        | 0x63
}

fn j(imm: i32, rd: u32) -> u32 {
    let imm = imm as u32;
    (((imm >> 20) & 1) << 31)
        | (((imm >> 1) & 0x3ff) << 21)
        | (((imm >> 11) & 1) << 20)
        | (((imm >> 12) & 0xff) << 12)
        | (rd << 7)
        | 0x6f
}

fn csr(addr: u32, rs1: u32, f3: u32, rd: u32) -> u32 {
    (addr << 20) | (rs1 << 15) | (f3 << 12) | (rd << 7) | 0x73
}

fn amo(f5: u32, rs2: u32, rs1: u32, f3: u32, rd: u32) -> u32 {
    (f5 << 27) | (rs2 << 20) | (rs1 << 15) | (f3 << 12) | (rd << 7) | 0x2f
}

fn hart(program: &[u32]) -> Cpu {
    let mut cpu = Cpu::new(Machine::SiFiveU, Terminal::Dummy(TtyDummy::new()));
    for (k, word) in program.iter().enumerate() {
        cpu.mmu.get_bus().write32(START + 4 * k as u64, *word).unwrap();
    }
    cpu.set_pc(START);
    cpu.csr.write_direct(CSR_MTVEC, MTVEC);
    cpu.csr.write_direct(CSR_STVEC, STVEC);
    cpu.x[10] = DATA as i64;
    cpu
}

fn run(cpu: &mut Cpu, steps: usize) {
    for _ in 0..steps {
        cpu.tick();
    }
}

fn mem64(cpu: &mut Cpu, addr: u64) -> u64 {
    cpu.mmu.get_bus().read64(addr).unwrap()
}

#[test]
fn new_hart() {
    let cpu = Cpu::new(Machine::SiFiveU, Terminal::Dummy(TtyDummy::new()));
    assert_eq!(cpu.pc, 0);
    assert!(!cpu.wfi);
    assert_eq!(cpu.xlen, Xlen::X64);
    assert_eq!(cpu.privilege, Privilege::Machine);
    assert_eq!(cpu.x, [0; 32]);
    assert_eq!(cpu.f, [0; 32]);
}

#[test]
fn reset_goes_to_machine_mode_at_zero() {
    let mut cpu = hart(&[]);
    cpu.privilege = Privilege::User;
    cpu.x[5] = 9;
    cpu.reset();
    assert_eq!(cpu.pc, 0);
    assert_eq!(cpu.privilege, Privilege::Machine);
    assert_eq!(cpu.x[5], 9);
}

#[test]
fn loads_extend_their_value() {
    let mut cpu = hart(&[
        i(0, 10, 0, 5, 0x03),
        i(0, 10, 4, 6, 0x03),
        i(0, 10, 1, 7, 0x03),
        i(0, 10, 5, 8, 0x03),
        i(0, 10, 2, 9, 0x03),
        i(0, 10, 6, 11, 0x03),
        i(0, 10, 3, 12, 0x03),
        i(-8, 13, 3, 14, 0x03),
    ]);
    cpu.mmu.get_bus().write64(DATA, 0x8899_aabb_ccdd_eeff).unwrap();
    cpu.x[13] = (DATA + 8) as i64;
    run(&mut cpu, 8);
    assert_eq!(cpu.x[5], -1);
    assert_eq!(cpu.x[6], 0xff);
    assert_eq!(cpu.x[7], -0x1101);
    assert_eq!(cpu.x[8], 0xeeff);
    assert_eq!(cpu.x[9], -0x3322_1101);
    assert_eq!(cpu.x[11], 0xccdd_eeff);
    assert_eq!(cpu.x[12], 0x8899_aabb_ccdd_eeffu64 as i64);
    assert_eq!(cpu.x[14], cpu.x[12]);
    assert_eq!(cpu.pc, START + 32);
}

#[test]
fn stores_write_the_low_bytes() {
    let mut cpu = hart(&[
        s(0, 11, 10, 0, 0x23),
        s(8, 11, 10, 1, 0x23),
        s(16, 11, 10, 2, 0x23),
        s(24, 11, 10, 3, 0x23),
    ]);
    cpu.x[11] = 0x0123_4567_89ab_cdef;
    run(&mut cpu, 4);
    assert_eq!(mem64(&mut cpu, DATA), 0xef);
    assert_eq!(mem64(&mut cpu, DATA + 8), 0xcdef);
    assert_eq!(mem64(&mut cpu, DATA + 16), 0x89ab_cdef);
    assert_eq!(mem64(&mut cpu, DATA + 24), 0x0123_4567_89ab_cdef);
}

#[test]
fn misaligned_access_is_done_byte_by_byte() {
    let mut cpu = hart(&[i(1, 10, 2, 5, 0x03), s(3, 11, 10, 2, 0x23), i(3, 10, 6, 6, 0x03)]);
    cpu.mmu.get_bus().write64(DATA, 0x8899_aabb_ccdd_eeff).unwrap();
    cpu.x[11] = 0x1122_3344;
    run(&mut cpu, 1);
    assert_eq!(cpu.x[5], 0xbbcc_ddeeu32 as i32 as i64);
    run(&mut cpu, 2);
    assert_eq!(mem64(&mut cpu, DATA), 0x8811_2233_44dd_eeff);
    assert_eq!(cpu.x[6], 0x1122_3344);
    assert_eq!(cpu.csr.read_direct(CSR_MCAUSE), 0);
}

#[test]
fn load_outside_every_region_faults() {
    let mut cpu = hart(&[NOP, i(0, 11, 2, 5, 0x03)]);
    cpu.x[11] = 0x1000;
    cpu.x[5] = 77;
    run(&mut cpu, 2);
    assert_eq!(cpu.pc, MTVEC);
    assert_eq!(cpu.csr.read_direct(CSR_MCAUSE), 5);
    assert_eq!(cpu.csr.read_direct(CSR_MTVAL), 0x1000);
    assert_eq!(cpu.csr.read_direct(CSR_MEPC), START + 4);
    assert_eq!(cpu.x[5], 77);
    // The instruction did not retire.
    assert_eq!(cpu.csr.read_direct(CSR_INSTRET), 1);
    assert_eq!(cpu.csr.read_direct(CSR_CYCLE), 2);
}

#[test]
fn store_outside_every_region_faults() {
    let mut cpu = hart(&[s(4, 5, 11, 3, 0x23)]);
    cpu.x[11] = 0x4000_0000;
    run(&mut cpu, 1);
    assert_eq!(cpu.pc, MTVEC);
    assert_eq!(cpu.csr.read_direct(CSR_MCAUSE), 7);
    assert_eq!(cpu.csr.read_direct(CSR_MTVAL), 0x4000_0004);
    assert_eq!(cpu.csr.read_direct(CSR_MEPC), START);
}

#[test]
fn arithmetic_instructions() {
    let mut cpu = hart(&[
        i(-40, 15, 0, 10, 0x13),
        r(0x20, 6, 5, 0, 7, 0x33),
        r(0x01, 6, 5, 4, 8, 0x33),
        r(0x01, 6, 5, 6, 9, 0x33),
        i(3, 5, 1, 11, 0x13),
        i(0x400 | 2, 12, 5, 12, 0x13),
        i(-1, 5, 7, 13, 0x13),
        0x1234_5737,
        0x0000_1797,
    ]);
    cpu.x[15] = 100;
    cpu.x[5] = 17;
    cpu.x[6] = 5;
    cpu.x[12] = -64;
    run(&mut cpu, 9);
    assert_eq!(cpu.x[10], 60);
    assert_eq!(cpu.x[7], 12);
    assert_eq!(cpu.x[8], 3);
    assert_eq!(cpu.x[9], 2);
    assert_eq!(cpu.x[11], 136);
    assert_eq!(cpu.x[12], -16);
    assert_eq!(cpu.x[13], 17);
    assert_eq!(cpu.x[14], 0x1234_5000);
    assert_eq!(cpu.x[15], (START + 32 + 0x1000) as i64);
}

#[test]
fn word_forms_work_on_32_bits() {
    let mut cpu = hart(&[
        i(1, 5, 0, 6, 0x1b),
        r(0x00, 5, 5, 0, 7, 0x3b),
        i(31, 8, 1, 9, 0x1b),
        r(0x01, 12, 11, 4, 13, 0x3b),
    ]);
    cpu.x[5] = 0x7fff_ffff;
    cpu.x[8] = 1;
    cpu.x[11] = 0x1_0000_0007;
    cpu.x[12] = 0x2_0000_0002;
    run(&mut cpu, 4);
    assert_eq!(cpu.x[6], -0x8000_0000);
    assert_eq!(cpu.x[7], -2);
    assert_eq!(cpu.x[9], -0x8000_0000);
    assert_eq!(cpu.x[13], 3);
}

#[test]
fn jumps_link_to_the_following_instruction() {
    let mut cpu = hart(&[j(16, 1), NOP, NOP, NOP, i(3, 11, 0, 5, 0x67)]);
    cpu.x[11] = (START + 0x100) as i64;
    run(&mut cpu, 1);
    assert_eq!(cpu.pc, START + 16);
    assert_eq!(cpu.x[1], (START + 4) as i64);
    run(&mut cpu, 1);
    // The lowest bit of the target is cleared.
    assert_eq!(cpu.pc, START + 0x102);
    assert_eq!(cpu.x[5], (START + 20) as i64);
}

#[test]
fn jalr_may_use_its_destination_as_base() {
    let mut cpu = hart(&[i(8, 5, 0, 5, 0x67)]);
    cpu.x[5] = (START + 0x40) as i64;
    run(&mut cpu, 1);
    assert_eq!(cpu.pc, START + 0x48);
    assert_eq!(cpu.x[5], (START + 4) as i64);
}

#[test]
fn compressed_jump_links_two_bytes_on() {
    let mut cpu = hart(&[]);
    // c.jalr a1
    cpu.mmu.get_bus().write16(START, 0x9582).unwrap();
    cpu.x[11] = (START + 0x200) as i64;
    run(&mut cpu, 1);
    assert_eq!(cpu.pc, START + 0x200);
    assert_eq!(cpu.x[1], (START + 2) as i64);
}

#[test]
fn compressed_and_full_instructions_mix() {
    let mut cpu = hart(&[]);
    // c.li a1, 5; addi a2, a1, 1; c.addi a2, 1
    cpu.mmu.get_bus().write16(START, 0x4595).unwrap();
    cpu.mmu.get_bus().write32(START + 2, i(1, 11, 0, 12, 0x13)).unwrap();
    cpu.mmu.get_bus().write16(START + 6, 0x0605).unwrap();
    run(&mut cpu, 3);
    assert_eq!(cpu.x[11], 5);
    assert_eq!(cpu.x[12], 7);
    assert_eq!(cpu.pc, START + 8);
    assert_eq!(cpu.csr.read_direct(CSR_INSTRET), 3);
}

#[test]
fn branches_taken_and_not_taken() {
    let mut cpu = hart(&[b(12, 6, 5, 0), b(8, 6, 5, 1), NOP, b(-12, 6, 5, 6)]);
    cpu.x[5] = 1;
    cpu.x[6] = -1;
    run(&mut cpu, 1);
    assert_eq!(cpu.pc, START + 4);
    run(&mut cpu, 1);
    assert_eq!(cpu.pc, START + 12);
    // 1 is below -1 as an unsigned number.
    run(&mut cpu, 1);
    assert_eq!(cpu.pc, START);
}

#[test]
fn register_zero_takes_nothing() {
    let mut cpu = hart(&[i(5, 0, 0, 0, 0x13), i(0, 10, 3, 0, 0x03), i(1, 0, 0, 5, 0x13)]);
    cpu.mmu.get_bus().write64(DATA, 99).unwrap();
    run(&mut cpu, 3);
    assert_eq!(cpu.x[0], 0);
    assert_eq!(cpu.x[5], 1);
}

#[test]
fn rv32_keeps_registers_sign_extended() {
    let mut cpu = hart(&[
        i(1, 5, 0, 5, 0x13),
        0x8000_0337,
        r(0x00, 7, 7, 0, 7, 0x33),
        i(4, 8, 1, 8, 0x13),
        i(0, 10, 2, 9, 0x03),
    ]);
    cpu.set_xlen(Xlen::X32);
    cpu.x[5] = 0x7fff_ffff;
    cpu.x[7] = 0x4000_0000;
    cpu.x[8] = 0x0fff_ffff;
    cpu.x[10] = DATA as u32 as i32 as i64;
    cpu.mmu.get_bus().write32(DATA, 0x8000_0001).unwrap();
    run(&mut cpu, 5);
    assert_eq!(cpu.x[5], -0x8000_0000);
    assert_eq!(cpu.x[6], -0x8000_0000);
    assert_eq!(cpu.x[7], -0x8000_0000);
    assert_eq!(cpu.x[8], -16);
    assert_eq!(cpu.x[9], -0x7fff_ffff);
    assert_eq!(cpu.pc, START + 20);
    for v in cpu.x.iter() {
        assert_eq!(*v as i32 as i64, *v);
    }
}

#[test]
fn rv32_has_no_double_word_instructions() {
    let ld = i(0, 10, 3, 5, 0x03);
    let mut cpu = hart(&[ld]);
    cpu.set_xlen(Xlen::X32);
    run(&mut cpu, 1);
    assert_eq!(cpu.pc, MTVEC);
    assert_eq!(cpu.csr.read_direct(CSR_MCAUSE), 2);
    assert_eq!(cpu.csr.read_direct(CSR_MTVAL), ld as u64);
    assert_eq!(cpu.csr.read_direct(CSR_MEPC), START);
}

#[test]
fn rv32_program_counter_has_32_bits() {
    let mut cpu = hart(&[i(0, 5, 0, 0, 0x67)]);
    cpu.set_xlen(Xlen::X32);
    cpu.x[5] = 0x1_8000_0040;
    run(&mut cpu, 1);
    assert_eq!(cpu.pc, 0x8000_0040);
}

#[test]
fn csr_read_write() {
    let mut cpu = hart(&[
        csr(0x340, 6, 1, 5),
        csr(0x340, 0, 2, 7),
        csr(0x340, 8, 2, 9),
        csr(0x340, 11, 3, 12),
        csr(0x340, 0, 3, 13),
    ]);
    cpu.csr.write_direct(CSR_MSCRATCH, 0x123);
    cpu.x[6] = 0xabc;
    cpu.x[8] = 0x1000;
    cpu.x[11] = 0x0f0;
    run(&mut cpu, 1);
    assert_eq!(cpu.x[5], 0x123);
    assert_eq!(cpu.csr.read_direct(CSR_MSCRATCH), 0xabc);
    run(&mut cpu, 1);
    assert_eq!(cpu.x[7], 0xabc);
    assert_eq!(cpu.csr.read_direct(CSR_MSCRATCH), 0xabc);
    run(&mut cpu, 1);
    assert_eq!(cpu.x[9], 0xabc);
    assert_eq!(cpu.csr.read_direct(CSR_MSCRATCH), 0x1abc);
    run(&mut cpu, 1);
    assert_eq!(cpu.x[12], 0x1abc);
    assert_eq!(cpu.csr.read_direct(CSR_MSCRATCH), 0x1a0c);
    run(&mut cpu, 1);
    assert_eq!(cpu.x[13], 0x1a0c);
    assert_eq!(cpu.csr.read_direct(CSR_MSCRATCH), 0x1a0c);
    assert_eq!(cpu.csr.read_direct(CSR_MCAUSE), 0);
}

#[test]
fn csr_immediate_forms() {
    let mut cpu = hart(&[
        csr(0x340, 21, 5, 0),
        csr(0x340, 10, 6, 5),
        csr(0x340, 1, 7, 6),
        csr(0x340, 0, 6, 7),
    ]);
    cpu.csr.write_direct(CSR_MSCRATCH, 0xffff);
    run(&mut cpu, 4);
    assert_eq!(cpu.x[5], 21);
    assert_eq!(cpu.x[6], 31);
    assert_eq!(cpu.x[7], 30);
    assert_eq!(cpu.csr.read_direct(CSR_MSCRATCH), 30);
}

#[test]
fn csr_access_above_the_privilege_level_traps() {
    let mut cpu = hart(&[NOP, csr(0x340, 6, 1, 5)]);
    cpu.privilege = Privilege::Supervisor;
    cpu.csr.write_direct(CSR_MSCRATCH, 0x123);
    cpu.x[5] = 1;
    cpu.x[6] = 0xabc;
    run(&mut cpu, 2);
    assert_eq!(cpu.privilege, Privilege::Machine);
    assert_eq!(cpu.pc, MTVEC);
    assert_eq!(cpu.csr.read_direct(CSR_MCAUSE), 2);
    assert_eq!(cpu.csr.read_direct(CSR_MEPC), START + 4);
    assert_eq!(cpu.csr.read_direct(CSR_MTVAL), START + 4);
    assert_eq!(cpu.csr.read_direct(CSR_MSCRATCH), 0x123);
    assert_eq!(cpu.x[5], 1);
    assert_eq!((cpu.csr.read_direct(CSR_MSTATUS) >> 11) & 3, 1);
}

#[test]
fn counters_advance() {
    let mut cpu = hart(&[NOP, NOP, csr(0xc00, 0, 2, 5), csr(0xc01, 0, 2, 6), csr(0xc02, 0, 2, 7)]);
    cpu.privilege = Privilege::User;
    run(&mut cpu, 5);
    assert_eq!(cpu.x[5], 3);
    assert_eq!(cpu.x[6], 4);
    assert_eq!(cpu.x[7], 4);
    assert_eq!(cpu.csr.read_direct(CSR_CYCLE), 5);
    assert_eq!(cpu.csr.read_direct(CSR_TIME), 5);
    assert_eq!(cpu.csr.read_direct(CSR_INSTRET), 5);
}

#[test]
fn ecall_by_privilege() {
    for (privilege, cause) in
        [(Privilege::User, 8), (Privilege::Supervisor, 9), (Privilege::Machine, 11)]
    {
        let mut cpu = hart(&[0x0000_0073]);
        cpu.privilege = privilege;
        cpu.csr.write_direct(CSR_MSTATUS, 0x8);
        run(&mut cpu, 1);
        assert_eq!(cpu.csr.read_direct(CSR_MCAUSE), cause);
        assert_eq!(cpu.csr.read_direct(CSR_MTVAL), 0);
        assert_eq!(cpu.csr.read_direct(CSR_MEPC), START);
        assert_eq!(cpu.privilege, Privilege::Machine);
        assert_eq!(cpu.pc, MTVEC);
        let mstatus = cpu.csr.read_direct(CSR_MSTATUS);
        assert_eq!(mstatus & 0x8, 0);
        assert_eq!(mstatus & 0x80, 0x80);
        assert_eq!((mstatus >> 11) & 3, privilege.level() as u64);
    }
}

#[test]
fn ebreak_and_illegal_instruction() {
    let mut cpu = hart(&[0x0010_0073]);
    run(&mut cpu, 1);
    assert_eq!(cpu.csr.read_direct(CSR_MCAUSE), 3);
    assert_eq!(cpu.csr.read_direct(CSR_MTVAL), START);
    assert_eq!(cpu.pc, MTVEC);
    let mut cpu = hart(&[0xffff_ffff]);
    run(&mut cpu, 1);
    assert_eq!(cpu.csr.read_direct(CSR_MCAUSE), 2);
    assert_eq!(cpu.csr.read_direct(CSR_MTVAL), 0xffff_ffff);
    assert_eq!(cpu.csr.read_direct(CSR_MEPC), START);
    // A half-word that is no compressed instruction.
    let mut cpu = hart(&[0]);
    run(&mut cpu, 1);
    assert_eq!(cpu.csr.read_direct(CSR_MCAUSE), 2);
    assert_eq!(cpu.csr.read_direct(CSR_MTVAL), 0);
}

#[test]
fn fetch_faults() {
    let mut cpu = hart(&[]);
    cpu.set_pc(0x1000);
    run(&mut cpu, 1);
    assert_eq!(cpu.csr.read_direct(CSR_MCAUSE), 1);
    assert_eq!(cpu.csr.read_direct(CSR_MTVAL), 0x1000);
    assert_eq!(cpu.csr.read_direct(CSR_MEPC), 0x1000);
    assert_eq!(cpu.pc, MTVEC);
    let mut cpu = hart(&[]);
    cpu.set_pc(START + 1);
    run(&mut cpu, 1);
    assert_eq!(cpu.csr.read_direct(CSR_MCAUSE), 0);
    assert_eq!(cpu.csr.read_direct(CSR_MTVAL), START + 1);
    assert_eq!(cpu.csr.read_direct(CSR_MEPC), START + 1);
}

#[test]
fn fetch_fault_of_the_second_half_reports_the_program_counter() {
    // The last half-word of main memory holds the first half of a 32-bit instruction.
    let end = START + 128 * 1024 * 1024;
    let mut cpu = hart(&[]);
    cpu.mmu.get_bus().write16(end - 2, 0x0013).unwrap();
    cpu.set_pc(end - 2);
    run(&mut cpu, 1);
    assert_eq!(cpu.csr.read_direct(CSR_MCAUSE), 1);
    assert_eq!(cpu.csr.read_direct(CSR_MTVAL), end - 2);
    assert_eq!(cpu.csr.read_direct(CSR_MEPC), end - 2);
}

#[test]
fn mret_restores_privilege_and_interrupt_enable() {
    let mut cpu = hart(&[0x3020_0073]);
    cpu.csr.write_direct(CSR_MEPC, START + 0x100);
    cpu.csr.write_direct(CSR_MSTATUS, (1 << 11) | 0x80);
    run(&mut cpu, 1);
    assert_eq!(cpu.pc, START + 0x100);
    assert_eq!(cpu.privilege, Privilege::Supervisor);
    assert_eq!(cpu.csr.read_direct(CSR_MSTATUS), 0x88);
    // With MPIE clear the interrupt enable comes back clear.
    let mut cpu = hart(&[0x3020_0073]);
    cpu.csr.write_direct(CSR_MSTATUS, (3 << 11) | 0x8);
    run(&mut cpu, 1);
    assert_eq!(cpu.privilege, Privilege::Machine);
    assert_eq!(cpu.csr.read_direct(CSR_MSTATUS), 0x80);
    assert_eq!(cpu.pc, 0);
}

#[test]
fn sret_and_uret() {
    let mut cpu = hart(&[0x1020_0073]);
    cpu.privilege = Privilege::Supervisor;
    cpu.csr.write_direct(CSR_SEPC, START + 0x40);
    cpu.csr.write_direct(CSR_MSTATUS, 0x20);
    run(&mut cpu, 1);
    assert_eq!(cpu.pc, START + 0x40);
    assert_eq!(cpu.privilege, Privilege::User);
    assert_eq!(cpu.csr.read_direct(CSR_MSTATUS), 0x22);
    let mut cpu = hart(&[0x1020_0073]);
    cpu.csr.write_direct(CSR_SEPC, START + 0x40);
    cpu.csr.write_direct(CSR_MSTATUS, 0x100);
    run(&mut cpu, 1);
    assert_eq!(cpu.privilege, Privilege::Supervisor);
    assert_eq!(cpu.csr.read_direct(CSR_MSTATUS), 0x20);
    let mut cpu = hart(&[0x0020_0073]);
    cpu.privilege = Privilege::User;
    cpu.csr.write_direct(CSR_UEPC, START + 0x80);
    cpu.csr.write_direct(CSR_MSTATUS, 0x10);
    run(&mut cpu, 1);
    assert_eq!(cpu.pc, START + 0x80);
    assert_eq!(cpu.privilege, Privilege::User);
    assert_eq!(cpu.csr.read_direct(CSR_MSTATUS), 0x11);
}

#[test]
fn trap_return_below_its_level_is_illegal() {
    let mut cpu = hart(&[0x3020_0073]);
    cpu.privilege = Privilege::Supervisor;
    run(&mut cpu, 1);
    assert_eq!(cpu.csr.read_direct(CSR_MCAUSE), 2);
    assert_eq!(cpu.csr.read_direct(CSR_MEPC), START);
    let mut cpu = hart(&[0x1020_0073]);
    cpu.privilege = Privilege::User;
    run(&mut cpu, 1);
    assert_eq!(cpu.csr.read_direct(CSR_MCAUSE), 2);
    assert_eq!(cpu.privilege, Privilege::Machine);
}

#[test]
fn wfi_halts_until_an_interrupt_is_pending() {
    let mut cpu = hart(&[0x1050_0073, i(1, 0, 0, 5, 0x13)]);
    cpu.mmu.get_bus().write64(TIMER_ADDRESS_START + 0x4000, u64::MAX).unwrap();
    run(&mut cpu, 1);
    assert!(cpu.wfi);
    assert_eq!(cpu.pc, START + 4);
    run(&mut cpu, 3);
    assert!(cpu.wfi);
    assert_eq!(cpu.pc, START + 4);
    assert_eq!(cpu.x[5], 0);
    assert_eq!(cpu.csr.read_direct(CSR_CYCLE), 4);
    assert_eq!(cpu.csr.read_direct(CSR_INSTRET), 1);
    // A pending software interrupt that is enabled in mie wakes the hart up; with the
    // global enable clear it is not taken.
    cpu.csr.write_direct(CSR_MIE, 0x8);
    cpu.mmu.get_bus().write32(TIMER_ADDRESS_START, 1).unwrap();
    run(&mut cpu, 1);
    assert!(!cpu.wfi);
    assert_eq!(cpu.x[5], 1);
    assert_eq!(cpu.pc, START + 8);
    assert_eq!(cpu.csr.read_direct(CSR_MIP) & 0x8, 0x8);
}

#[test]
fn interrupts_are_taken_by_priority() {
    let mut cpu = hart(&[NOP, NOP]);
    cpu.csr.write_direct(CSR_MSTATUS, 0x8);
    cpu.csr.write_direct(CSR_MIE, 0x88);
    cpu.mmu.get_bus().write32(TIMER_ADDRESS_START, 1).unwrap();
    // The compare register is 0, so the timer line rises with the first tick.
    run(&mut cpu, 1);
    assert_eq!(cpu.csr.read_direct(CSR_MIP) & 0x88, 0x88);
    assert_eq!(cpu.csr.read_direct(CSR_MCAUSE), (1 << 63) | 3);
    assert_eq!(cpu.csr.read_direct(CSR_MEPC), START);
    assert_eq!(cpu.csr.read_direct(CSR_MTVAL), 0);
    assert_eq!(cpu.pc, MTVEC);
    assert_eq!(cpu.csr.read_direct(CSR_INSTRET), 0);
}

#[test]
fn vectored_mode_applies_to_interrupts_only() {
    let mut cpu = hart(&[NOP]);
    cpu.csr.write_direct(CSR_MTVEC, MTVEC | 1);
    cpu.csr.write_direct(CSR_MSTATUS, 0x8);
    cpu.csr.write_direct(CSR_MIE, 0x80);
    run(&mut cpu, 1);
    assert_eq!(cpu.csr.read_direct(CSR_MCAUSE), (1 << 63) | 7);
    assert_eq!(cpu.pc, MTVEC + 4 * 7);
    let mut cpu = hart(&[0x0000_0073]);
    cpu.csr.write_direct(CSR_MTVEC, MTVEC | 1);
    run(&mut cpu, 1);
    assert_eq!(cpu.pc, MTVEC);
}

#[test]
fn rv32_interrupt_cause_has_bit_31() {
    let mut cpu = hart(&[NOP]);
    cpu.set_xlen(Xlen::X32);
    cpu.csr.write_direct(CSR_MSTATUS, 0x8);
    cpu.csr.write_direct(CSR_MIE, 0x80);
    run(&mut cpu, 1);
    assert_eq!(cpu.csr.read_direct(CSR_MCAUSE), 0x8000_0007);
}

#[test]
fn delegated_interrupt_goes_to_the_supervisor() {
    let mut cpu = hart(&[NOP, NOP]);
    cpu.privilege = Privilege::Supervisor;
    cpu.csr.write_direct(CSR_MIDELEG, 0x20);
    cpu.csr.write_direct(CSR_MIE, 0x20);
    cpu.csr.write_direct(CSR_MIP, 0x20);
    // With the supervisor's interrupt enable clear the interrupt waits.
    run(&mut cpu, 1);
    assert_eq!(cpu.pc, START + 4);
    cpu.csr.write_direct(CSR_MSTATUS, 0x2);
    run(&mut cpu, 1);
    assert_eq!(cpu.pc, STVEC);
    assert_eq!(cpu.privilege, Privilege::Supervisor);
    assert_eq!(cpu.csr.read_direct(CSR_SCAUSE), (1 << 63) | 5);
    assert_eq!(cpu.csr.read_direct(CSR_SEPC), START + 4);
    let mstatus = cpu.csr.read_direct(CSR_MSTATUS);
    assert_eq!(mstatus & 0x2, 0);
    assert_eq!(mstatus & 0x20, 0x20);
    assert_eq!(mstatus & 0x100, 0x100);
}

#[test]
fn interrupt_of_a_lower_level_is_not_taken() {
    let mut cpu = hart(&[NOP]);
    cpu.csr.write_direct(CSR_MIDELEG, 0x20);
    cpu.csr.write_direct(CSR_MIE, 0x20);
    cpu.csr.write_direct(CSR_MIP, 0x20);
    cpu.csr.write_direct(CSR_MSTATUS, 0xa);
    run(&mut cpu, 1);
    assert_eq!(cpu.pc, START + 4);
    assert_eq!(cpu.privilege, Privilege::Machine);
}

#[test]
fn interrupt_of_a_higher_level_needs_no_global_enable() {
    let mut cpu = hart(&[NOP]);
    cpu.privilege = Privilege::User;
    cpu.csr.write_direct(CSR_MIE, 0x80);
    run(&mut cpu, 1);
    assert_eq!(cpu.pc, MTVEC);
    assert_eq!(cpu.privilege, Privilege::Machine);
    assert_eq!(cpu.csr.read_direct(CSR_MCAUSE), (1 << 63) | 7);
    assert_eq!((cpu.csr.read_direct(CSR_MSTATUS) >> 11) & 3, 0);
}

#[test]
fn external_interrupt_from_the_uart() {
    let mut cpu = hart(&[NOP, NOP]);
    cpu.mmu.get_bus().write64(TIMER_ADDRESS_START + 0x4000, u64::MAX).unwrap();
    cpu.mmu.get_bus().write32(INTC_ADDRESS_START + 4 * 10, 1).unwrap();
    cpu.mmu.get_bus().write32(INTC_ADDRESS_START + 0x2000, 1 << 10).unwrap();
    cpu.csr.write_direct(CSR_MSTATUS, 0x8);
    cpu.csr.write_direct(CSR_MIE, 0x800);
    // The transmitter of the UART is empty from the start; without its enable bit no
    // interrupt comes of it.
    run(&mut cpu, 1);
    assert_eq!(cpu.csr.read_direct(CSR_MIP) & 0x800, 0);
    assert_eq!(cpu.pc, START + 4);
    cpu.mmu.get_bus().write8(UART_ADDRESS_START + 1, 0x02).unwrap();
    run(&mut cpu, 1);
    assert_eq!(cpu.csr.read_direct(CSR_MCAUSE), (1 << 63) | 11);
    assert_eq!(cpu.pc, MTVEC);
    // The claim takes the request away; the source stays in service.
    assert_eq!(cpu.mmu.get_bus().read32(INTC_ADDRESS_START + 0x20_0004), Ok(10));
    cpu.mmu.get_bus().write8(UART_ADDRESS_START, b'a').unwrap();
    cpu.mmu.get_bus().write32(MTVEC, NOP).unwrap();
    cpu.csr.write_direct(CSR_MSTATUS, 0x8);
    run(&mut cpu, 1);
    assert_eq!(cpu.csr.read_direct(CSR_MIP) & 0x800, 0);
    assert_eq!(cpu.pc, MTVEC + 4);
}

#[test]
fn atomic_memory_operations() {
    let mut cpu = hart(&[
        amo(0x00, 6, 10, 2, 5),
        amo(0x01, 8, 10, 3, 7),
        amo(0x10, 11, 10, 2, 9),
        amo(0x1c, 11, 10, 2, 12),
    ]);
    cpu.mmu.get_bus().write64(DATA, 0x1111_1111_ffff_fffe).unwrap();
    cpu.x[6] = 3;
    cpu.x[8] = 0x0000_0005_0000_0007;
    cpu.x[11] = -1;
    run(&mut cpu, 1);
    assert_eq!(cpu.x[5], -2);
    assert_eq!(mem64(&mut cpu, DATA), 0x1111_1111_0000_0001);
    run(&mut cpu, 1);
    assert_eq!(cpu.x[7], 0x1111_1111_0000_0001);
    assert_eq!(mem64(&mut cpu, DATA), 0x0000_0005_0000_0007);
    run(&mut cpu, 1);
    assert_eq!(cpu.x[9], 7);
    assert_eq!(mem64(&mut cpu, DATA), 0x0000_0005_ffff_ffff);
    run(&mut cpu, 1);
    assert_eq!(cpu.x[12], -1);
    assert_eq!(mem64(&mut cpu, DATA), 0x0000_0005_ffff_ffff);
}

#[test]
fn atomics_must_be_aligned() {
    let mut cpu = hart(&[amo(0x00, 6, 11, 2, 5)]);
    cpu.x[11] = (DATA + 2) as i64;
    run(&mut cpu, 1);
    assert_eq!(cpu.csr.read_direct(CSR_MCAUSE), 6);
    assert_eq!(cpu.csr.read_direct(CSR_MTVAL), DATA + 2);
    let mut cpu = hart(&[amo(0x02, 0, 11, 3, 5)]);
    cpu.x[11] = (DATA + 4) as i64;
    run(&mut cpu, 1);
    assert_eq!(cpu.csr.read_direct(CSR_MCAUSE), 4);
    assert_eq!(cpu.csr.read_direct(CSR_MTVAL), DATA + 4);
}

#[test]
fn load_reserved_and_store_conditional_on_double_words() {
    let mut cpu = hart(&[amo(0x02, 0, 10, 3, 5), amo(0x03, 6, 10, 3, 7)]);
    cpu.mmu.get_bus().write64(DATA, 0x8000_0000_0000_0001).unwrap();
    cpu.x[6] = 42;
    cpu.x[7] = 9;
    run(&mut cpu, 2);
    assert_eq!(cpu.x[5], i64::MIN + 1);
    assert_eq!(cpu.x[7], 0);
    assert_eq!(mem64(&mut cpu, DATA), 42);
}

#[test]
fn trap_entry_ends_the_reservation() {
    let mut cpu = hart(&[amo(0x02, 0, 10, 2, 5), 0x0000_0073]);
    cpu.mmu.get_bus().write32(MTVEC, amo(0x03, 6, 10, 2, 7)).unwrap();
    cpu.x[6] = 42;
    run(&mut cpu, 3);
    assert_eq!(cpu.x[7], 1);
    assert_eq!(mem64(&mut cpu, DATA), 0);
}

#[test]
fn floating_point_loads_and_stores_move_bits() {
    let mut cpu = hart(&[
        i(0, 10, 2, 1, 0x07),
        i(8, 10, 3, 2, 0x07),
        s(16, 1, 10, 2, 0x27),
        s(24, 2, 10, 3, 0x27),
        s(32, 1, 10, 3, 0x27),
    ]);
    cpu.mmu.get_bus().write32(DATA, 0x3f80_0000).unwrap();
    cpu.mmu.get_bus().write64(DATA + 8, 0x4000_0000_0000_0000).unwrap();
    run(&mut cpu, 5);
    assert_eq!(cpu.f[1], 0xffff_ffff_3f80_0000);
    assert_eq!(cpu.f[2], 0x4000_0000_0000_0000);
    assert_eq!(mem64(&mut cpu, DATA + 16), 0x3f80_0000);
    assert_eq!(mem64(&mut cpu, DATA + 24), 0x4000_0000_0000_0000);
    assert_eq!(mem64(&mut cpu, DATA + 32), 0xffff_ffff_3f80_0000);
    assert_eq!(f32::from_bits(cpu.f[1] as u32), 1.0);
    assert_eq!(f64::from_bits(cpu.f[2]), 2.0);
}

#[test]
fn fences() {
    let mut cpu = hart(&[0x0ff0_000f, 0x0000_100f, 0x1200_0073]);
    run(&mut cpu, 3);
    assert_eq!(cpu.pc, START + 12);
    assert_eq!(cpu.csr.read_direct(CSR_MCAUSE), 0);
    let mut cpu = hart(&[0x1200_0073]);
    cpu.privilege = Privilege::User;
    run(&mut cpu, 1);
    assert_eq!(cpu.csr.read_direct(CSR_MCAUSE), 2);
    assert_eq!(cpu.csr.read_direct(CSR_MTVAL), START);
}

#[test]
fn two_fences_in_succession() {
    let mut cpu = hart(&[0x1200_0073, 0x1200_0073]);
    cpu.privilege = Privilege::Supervisor;
    cpu.x[7] = 7;
    run(&mut cpu, 1);
    let (x, f, privilege, wfi) = (cpu.x, cpu.f, cpu.privilege, cpu.wfi);
    let mstatus = cpu.csr.read_direct(CSR_MSTATUS);
    let mcause = cpu.csr.read_direct(CSR_MCAUSE);
    let word = mem64(&mut cpu, DATA);
    run(&mut cpu, 1);
    assert_eq!(cpu.x, x);
    assert_eq!(cpu.f, f);
    assert_eq!(cpu.privilege, privilege);
    assert_eq!(cpu.wfi, wfi);
    assert_eq!(cpu.csr.read_direct(CSR_MSTATUS), mstatus);
    assert_eq!(cpu.csr.read_direct(CSR_MCAUSE), mcause);
    assert_eq!(mem64(&mut cpu, DATA), word);
    assert_eq!(cpu.pc, START + 8);
    assert_eq!(cpu.csr.read_direct(CSR_CYCLE), 2);
}

#[test]
fn program_runs_under_translation() {
    // The page at virtual address 0x1000 holds the program, the page at 0x2000 its data.
    let (root, mid, leaf) = (0x8001_0000u64, 0x8001_1000u64, 0x8001_2000u64);
    let pte = |pa: u64, flags: u64| ((pa >> 12) << 10) | flags;
    let mut cpu = hart(&[
        i(0, 10, 3, 5, 0x03),
        i(1, 5, 0, 5, 0x13),
        s(8, 5, 10, 3, 0x23),
        i(0, 11, 3, 6, 0x03),
    ]);
    let bus = cpu.mmu.get_bus();
    bus.write64(root, pte(mid, 0x01)).unwrap();
    bus.write64(mid, pte(leaf, 0x01)).unwrap();
    bus.write64(leaf + 8, pte(START, 0x0b)).unwrap();
    bus.write64(leaf + 16, pte(DATA, 0x07)).unwrap();
    bus.write64(DATA, 41).unwrap();
    cpu.csr.write_direct(CSR_SATP, (8 << 60) | (root >> 12));
    cpu.csr.write_direct(CSR_MEDELEG, 1 << 13);
    cpu.privilege = Privilege::Supervisor;
    cpu.set_pc(0x1000);
    cpu.x[10] = 0x2000;
    cpu.x[11] = 0x3000;
    run(&mut cpu, 3);
    assert_eq!(cpu.pc, 0x100c);
    assert_eq!(cpu.x[5], 42);
    assert_eq!(mem64(&mut cpu, DATA + 8), 42);
    // The walks have marked the pages: accessed by the fetch, dirty by the store.
    assert_eq!(mem64(&mut cpu, leaf + 8), pte(START, 0x4b));
    assert_eq!(mem64(&mut cpu, leaf + 16), pte(DATA, 0xc7));
    // The page at 0x3000 is not mapped: the load page fault goes to the supervisor.
    run(&mut cpu, 1);
    assert_eq!(cpu.privilege, Privilege::Supervisor);
    assert_eq!(cpu.pc, STVEC);
    assert_eq!(cpu.csr.read_direct(CSR_SCAUSE), 13);
    assert_eq!(cpu.csr.read_direct(CSR_STVAL), 0x3000);
    assert_eq!(cpu.csr.read_direct(CSR_SEPC), 0x100c);
    assert_eq!(cpu.x[6], 0);
    // The handler's address is not mapped either: an instruction page fault follows, which
    // the machine takes.
    run(&mut cpu, 1);
    assert_eq!(cpu.privilege, Privilege::Machine);
    assert_eq!(cpu.csr.read_direct(CSR_MCAUSE), 12);
    assert_eq!(cpu.csr.read_direct(CSR_MTVAL), STVEC);
    assert_eq!(cpu.csr.read_direct(CSR_MEPC), STVEC);
    assert_eq!(cpu.pc, MTVEC);
}

#[test]
fn program_writes_to_the_terminal() {
    let mut cpu = Cpu::new(Machine::SiFiveU, Terminal::Screen(Tty::new()));
    let program = [
        0x1000_0537,
        i(b'H' as i32, 0, 0, 5, 0x13),
        s(0, 5, 10, 0, 0x23),
        i(b'i' as i32, 0, 0, 5, 0x13),
        s(0, 5, 10, 0, 0x23),
        NOP,
    ];
    for (k, word) in program.iter().enumerate() {
        cpu.mmu.get_bus().write32(START + 4 * k as u64, *word).unwrap();
    }
    cpu.set_pc(START);
    if let Terminal::Screen(tty) = cpu.mmu.get_bus().terminal() {
        tty.push_input(b'k');
    }
    run(&mut cpu, 6);
    match cpu.mmu.get_bus().terminal() {
        Terminal::Screen(tty) => assert_eq!(tty.take_output(), vec![b'H', b'i']),
        Terminal::Dummy(_) => panic!("the screen was replaced"),
    }
    assert_eq!(cpu.mmu.get_bus().read8(UART_ADDRESS_START), Ok(b'k'));
}

#[test]
fn execute_reports_the_trap() {
    let mut cpu = hart(&[]);
    let ecall = decode(Xlen::X64, 0x0000_0073).unwrap();
    assert_eq!(
        cpu.execute(&ecall, START),
        Err(Trap { factor: Traps::EnvironmentCallFromMMode, value: 0 })
    );
    let addi = Instruction {
        operation: Operation::Alu {
            op: riscv_emu::cpu::cpu_instruction::AluOp::Add,
            word: false,
            immediate: true,
        },
        rd: 5,
        rs1: 0,
        rs2: 0,
        imm: 9,
    };
    assert_eq!(cpu.execute(&addi, START), Ok(()));
    assert_eq!(cpu.x[5], 9);
    assert_eq!(cpu.check_interrupt(), None);
    cpu.catch_exception(Trap { factor: Traps::Breakpoint, value: 5 }, 0x40);
    assert_eq!(cpu.pc, MTVEC);
    assert_eq!(cpu.csr.read_direct(CSR_MEPC), 0x40);
    assert_eq!(cpu.csr.read_direct(CSR_MTVAL), 5);
    cpu.interrupt_handler(Traps::MachineSoftwareInterrupt);
    assert_eq!(cpu.csr.read_direct(CSR_MEPC), MTVEC);
    assert_eq!(cpu.csr.read_direct(CSR_MCAUSE), (1 << 63) | 3);
    cpu.write_x(0, 5);
    cpu.write_x(31, 5);
    assert_eq!(cpu.x[0], 0);
    assert_eq!(cpu.x[31], 5);
}
