use riscv_emu::cpu::cpu::{Privilege, Xlen};
use riscv_emu::cpu::trap::{
    boxed, cause_of, cause_slot, delegated, ecall_of, epc_slot, global_enable, interrupt_of,
    lines_to_mip, previous_privilege, select_interrupt, status_on_entry, status_on_return, takes,
    tval_slot, tvec_slot, vector,
};
use riscv_emu::cpu::cpu_csr::{
    CSR_MCAUSE, CSR_MEPC, CSR_MTVAL, CSR_MTVEC, CSR_SCAUSE, CSR_SEPC, CSR_STVAL, CSR_STVEC,
    CSR_UCAUSE, CSR_UEPC, CSR_UTVAL, CSR_UTVEC,
};
use riscv_emu::cpu::cpu_instruction::Width;
use riscv_emu::trap::{Trap, Traps};

const INTERRUPTS: [(Traps, u64); 9] = [
    (Traps::UserSoftwareInterrupt, 0),
    (Traps::SupervisorSoftwareInterrupt, 1),
    (Traps::MachineSoftwareInterrupt, 3),
    (Traps::UserTimerInterrupt, 4),
    (Traps::SupervisorTimerInterrupt, 5),
    (Traps::MachineTimerInterrupt, 7),
    (Traps::UserExternalInterrupt, 8),
    (Traps::SupervisorExternalInterrupt, 9),
    (Traps::MachineExternalInterrupt, 11),
];

const EXCEPTIONS: [(Traps, u64); 14] = [
    (Traps::InstructionAddressMisaligned, 0),
    (Traps::InstructionAccessFault, 1),
    (Traps::IllegalInstruction, 2),
    (Traps::Breakpoint, 3),
    (Traps::LoadAddressMisaligned, 4),
    (Traps::LoadAccessFault, 5),
    (Traps::StoreAddressMisaligned, 6),
    (Traps::StoreAccessFault, 7),
    (Traps::EnvironmentCallFromUMode, 8),
    (Traps::EnvironmentCallFromSMode, 9),
    (Traps::EnvironmentCallFromMMode, 11),
    (Traps::InstructionPageFault, 12),
    (Traps::LoadPageFault, 13),
    (Traps::StorePageFault, 15),
];

#[test]
fn cause_numbers() {
    for (factor, code) in INTERRUPTS {
        assert!(factor.is_interrupt());
        assert_eq!(factor.code(), code);
        assert_eq!(interrupt_of(code), factor);
        assert_eq!(cause_of(Xlen::X64, factor), (1 << 63) | code);
        assert_eq!(cause_of(Xlen::X32, factor), (1 << 31) | code);
    }
    for (factor, code) in EXCEPTIONS {
        assert!(!factor.is_interrupt());
        assert_eq!(factor.code(), code);
        assert_eq!(cause_of(Xlen::X64, factor), code);
        assert_eq!(cause_of(Xlen::X32, factor), code);
    }
    let trap = Trap { factor: Traps::Breakpoint, value: 7 };
    assert_eq!(trap, trap.clone());
}

#[test]
fn privilege_levels() {
    assert_eq!(Privilege::User.level(), 0);
    assert_eq!(Privilege::Supervisor.level(), 1);
    assert_eq!(Privilege::Hypervisor.level(), 2);
    assert_eq!(Privilege::Machine.level(), 3);
    assert_eq!(Privilege::from_level(0), Privilege::User);
    assert_eq!(Privilege::from_level(1), Privilege::Supervisor);
    assert_eq!(Privilege::from_level(2), Privilege::Hypervisor);
    assert_eq!(Privilege::from_level(3), Privilege::Machine);
    assert_eq!(Privilege::from_level(0xfd), Privilege::Supervisor);
}

#[test]
fn delegation() {
    assert_eq!(delegated(0, 0, 9), Privilege::Machine);
    assert_eq!(delegated(1 << 9, 0, 9), Privilege::Supervisor);
    assert_eq!(delegated(1 << 9, 1 << 9, 9), Privilege::User);
    // The supervisor cannot delegate what was not delegated to it.
    assert_eq!(delegated(0, 1 << 9, 9), Privilege::Machine);
    assert_eq!(delegated(1 << 9, 0, 8), Privilege::Machine);
    assert_eq!(delegated(u64::MAX, 0, 63), Privilege::Supervisor);
}

#[test]
fn status_on_trap_entry() {
    // To machine level from supervisor level with MIE set.
    assert_eq!(status_on_entry(0x8, Privilege::Machine, Privilege::Supervisor), 0x880);
    assert_eq!(status_on_entry(0x1880, Privilege::Machine, Privilege::User), 0);
    assert_eq!(status_on_entry(0, Privilege::Machine, Privilege::Machine), 0x1800);
    // To supervisor level from user level with SIE set; the other fields stay.
    assert_eq!(status_on_entry(0x1aa, Privilege::Supervisor, Privilege::User), 0xa8);
    assert_eq!(status_on_entry(0x2, Privilege::Supervisor, Privilege::Supervisor), 0x120);
    assert_eq!(status_on_entry(0x1, Privilege::User, Privilege::User), 0x10);
    assert_eq!(status_on_entry(0x1888, Privilege::User, Privilege::User), 0x1888);
}

#[test]
fn status_on_trap_return() {
    assert_eq!(status_on_return(0x1880, Privilege::Machine), 0x88);
    assert_eq!(status_on_return(0x1808, Privilege::Machine), 0x80);
    assert_eq!(status_on_return(0x120, Privilege::Supervisor), 0x22);
    assert_eq!(status_on_return(0x102, Privilege::Supervisor), 0x20);
    assert_eq!(status_on_return(0x10, Privilege::User), 0x11);
    assert_eq!(status_on_return(0x1, Privilege::User), 0x10);
    assert_eq!(previous_privilege(0x1800, Privilege::Machine), Privilege::Machine);
    assert_eq!(previous_privilege(0x0800, Privilege::Machine), Privilege::Supervisor);
    assert_eq!(previous_privilege(0x1000, Privilege::Machine), Privilege::Supervisor);
    assert_eq!(previous_privilege(0x0000, Privilege::Machine), Privilege::User);
    assert_eq!(previous_privilege(0x1900, Privilege::Supervisor), Privilege::Supervisor);
    assert_eq!(previous_privilege(0x1800, Privilege::Supervisor), Privilege::User);
    assert_eq!(previous_privilege(0x1900, Privilege::User), Privilege::User);
    assert!(global_enable(0x8, Privilege::Machine));
    assert!(!global_enable(0x7, Privilege::Machine));
    assert!(global_enable(0x2, Privilege::Supervisor));
    assert!(!global_enable(0xd, Privilege::Supervisor));
    assert!(global_enable(0x1, Privilege::User));
}

#[test]
fn trap_vector() {
    let timer = Traps::MachineTimerInterrupt;
    assert_eq!(vector(Xlen::X64, 0x8000_4000, timer), 0x8000_4000);
    assert_eq!(vector(Xlen::X64, 0x8000_4001, timer), 0x8000_401c);
    assert_eq!(vector(Xlen::X64, 0x8000_4001, Traps::MachineExternalInterrupt), 0x8000_402c);
    assert_eq!(vector(Xlen::X64, 0x8000_4001, Traps::Breakpoint), 0x8000_4000);
    assert_eq!(vector(Xlen::X64, 0x8000_4003, timer), 0x8000_4000);
    assert_eq!(vector(Xlen::X32, 0xffff_ffff_8000_4000, timer), 0x8000_4000);
    assert_eq!(vector(Xlen::X64, u64::MAX, timer), 0xffff_ffff_ffff_fffc);
    assert_eq!(vector(Xlen::X64, 0xffff_ffff_ffff_fffd, timer), 0x18);
}

#[test]
fn registers_of_each_level() {
    assert_eq!(epc_slot(Privilege::Machine), CSR_MEPC);
    assert_eq!(epc_slot(Privilege::Supervisor), CSR_SEPC);
    assert_eq!(epc_slot(Privilege::User), CSR_UEPC);
    assert_eq!(cause_slot(Privilege::Machine), CSR_MCAUSE);
    assert_eq!(cause_slot(Privilege::Supervisor), CSR_SCAUSE);
    assert_eq!(cause_slot(Privilege::User), CSR_UCAUSE);
    assert_eq!(tval_slot(Privilege::Machine), CSR_MTVAL);
    assert_eq!(tval_slot(Privilege::Supervisor), CSR_STVAL);
    assert_eq!(tval_slot(Privilege::User), CSR_UTVAL);
    assert_eq!(tvec_slot(Privilege::Machine), CSR_MTVEC);
    assert_eq!(tvec_slot(Privilege::Supervisor), CSR_STVEC);
    assert_eq!(tvec_slot(Privilege::User), CSR_UTVEC);
    assert_eq!(tvec_slot(Privilege::Hypervisor), CSR_MTVEC);
}

#[test]
fn interrupt_lines_drive_their_bits() {
    assert_eq!(lines_to_mip(0, false, false, false, false, false), 0);
    assert_eq!(lines_to_mip(0, true, false, false, false, false), 0x800);
    assert_eq!(lines_to_mip(0, false, true, false, false, false), 0x200);
    assert_eq!(lines_to_mip(0, false, false, true, false, false), 0x100);
    assert_eq!(lines_to_mip(0, false, false, false, true, false), 0x080);
    assert_eq!(lines_to_mip(0, false, false, false, false, true), 0x008);
    // The driven bits fall with their lines; the other bits stay.
    assert_eq!(lines_to_mip(0xfff, false, false, false, false, false), 0x477);
    assert_eq!(lines_to_mip(0x022, true, true, true, true, true), 0xbaa);
}

#[test]
fn interrupt_selection_follows_the_priority_order() {
    let m = Privilege::Machine;
    let order = [11, 3, 7, 9, 1, 5, 8, 0, 4];
    let mut pending: u64 = 0xbbb;
    for code in order {
        assert_eq!(select_interrupt(pending, 0, 0, 0x8, m), Some(interrupt_of(code)));
        pending &= !(1 << code);
    }
    assert_eq!(select_interrupt(pending, 0, 0, 0x8, m), None);
    assert_eq!(select_interrupt(0xbbb, 0, 0, 0, m), None);
    // Bits that stand for no interrupt are never taken.
    assert_eq!(select_interrupt(0x444, 0, 0, 0x8, m), None);
}

#[test]
fn interrupt_enable_rules() {
    let (u, s, m) = (Privilege::User, Privilege::Supervisor, Privilege::Machine);
    // Handled by the machine: taken below machine level always, at machine level with MIE.
    assert!(takes(0x80, 0, 0, 0, u, 7));
    assert!(takes(0x80, 0, 0, 0, s, 7));
    assert!(!takes(0x80, 0, 0, 0, m, 7));
    assert!(takes(0x80, 0, 0, 0x8, m, 7));
    // Handled by the supervisor: never taken at machine level.
    assert!(takes(0x20, 0x20, 0, 0, u, 5));
    assert!(!takes(0x20, 0x20, 0, 0, s, 5));
    assert!(takes(0x20, 0x20, 0, 0x2, s, 5));
    assert!(!takes(0x20, 0x20, 0, 0xa, m, 5));
    // Handled by the user level.
    assert!(takes(0x10, 0x10, 0x10, 0x1, u, 4));
    assert!(!takes(0x10, 0x10, 0x10, 0xa, u, 4));
    assert!(!takes(0x10, 0x10, 0x10, 0xb, s, 4));
    // Not pending.
    assert!(!takes(0x7f, 0, 0, 0x8, m, 7));
    // A delegated interrupt is selected after one that the machine handles.
    assert_eq!(select_interrupt(0x0a0, 0x20, 0, 0x2, s), Some(Traps::MachineTimerInterrupt));
    assert_eq!(select_interrupt(0x020, 0x20, 0, 0x2, s), Some(Traps::SupervisorTimerInterrupt));
    assert_eq!(select_interrupt(0x020, 0x20, 0, 0x8, m), None);
}

#[test]
fn environment_calls_and_boxing() {
    assert_eq!(ecall_of(Privilege::User), Traps::EnvironmentCallFromUMode);
    assert_eq!(ecall_of(Privilege::Supervisor), Traps::EnvironmentCallFromSMode);
    assert_eq!(ecall_of(Privilege::Hypervisor), Traps::EnvironmentCallFromSMode);
    assert_eq!(ecall_of(Privilege::Machine), Traps::EnvironmentCallFromMMode);
    assert_eq!(boxed(0x3f80_0000, Width::Word), 0xffff_ffff_3f80_0000);
    assert_eq!(boxed(0x1_3f80_0000, Width::Word), 0xffff_ffff_3f80_0000);
    assert_eq!(boxed(0x4000_0000_0000_0000, Width::Double), 0x4000_0000_0000_0000);
}
