use riscv_emu::cpu::cpu::Privilege;
use riscv_emu::cpu::cpu_csr::{
    window_of, Csr, CSR_FCSR, CSR_FFLAGS, CSR_FRM, CSR_MIE, CSR_MIP, CSR_MSCRATCH, CSR_MSTATUS,
    CSR_SIE, CSR_SIP, CSR_SSCRATCH, CSR_SSTATUS, CSR_UIE, CSR_UIP, CSR_USCRATCH, CSR_USTATUS,
    MSTATUS_WRITABLE, SSTATUS_MASK, SSTATUS_WRITABLE,
};
use riscv_emu::trap::{Trap, Traps};

#[test]
fn csr_starts_zeroed() {
    let csr = Csr::new();
    assert_eq!(csr.read_direct(0), 0);
    assert_eq!(csr.read_direct(CSR_MSTATUS), 0);
    assert_eq!(csr.read_direct(4095), 0);
}

#[test]
fn csr_direct_access() {
    let mut csr = Csr::new();
    csr.write_direct(CSR_MSCRATCH, 0xdead_beef);
    assert_eq!(csr.read_direct(CSR_MSCRATCH), 0xdead_beef);
    csr.read_modify_write_direct(CSR_MSCRATCH, 0xf_0000_0000);
    assert_eq!(csr.read_direct(CSR_MSCRATCH), 0xf_dead_beef);
}

#[test]
fn directly_stored_value_is_what_a_read_returns() {
    let mut c = Csr::new();
    c.write_direct(0x100, 0x22);
    assert_eq!(c.read(0x100, 0x8000_0000, &Privilege::Supervisor), Ok(0x22));
    assert_eq!(
        c.read(0x100, 0x8000_0000, &Privilege::User),
        Err(Trap { factor: Traps::IllegalInstruction, value: 0x8000_0000 })
    );
    assert_eq!(c.read_direct(CSR_SSTATUS), 0x22);
    // sstatus is kept in the slot of mstatus.
    assert_eq!(c.read_direct(CSR_MSTATUS), 0x22);
    c.write_direct(CSR_MSTATUS, 0x1888);
    assert_eq!(c.read_direct(CSR_MSTATUS), 0x1888);
    assert_eq!(c.read_direct(CSR_SSTATUS), 0);
    // A direct store reaches every bit that the register shows.
    c.write_direct(CSR_SSTATUS, u64::MAX);
    assert_eq!(c.read_direct(CSR_SSTATUS), SSTATUS_MASK);
    assert_eq!(c.read(CSR_SSTATUS, 0, &Privilege::Supervisor), Ok(SSTATUS_MASK));
    assert_eq!(c.read_direct(CSR_MSTATUS), SSTATUS_MASK | 0x1888);
    c.write_direct(CSR_FRM, 5);
    assert_eq!(c.read_direct(CSR_FRM), 5);
    assert_eq!(c.read(CSR_FRM, 0, &Privilege::User), Ok(5));
    assert_eq!(c.read_direct(CSR_FCSR), 0xa0);
    c.read_modify_write_direct(CSR_SIE, 0xfff);
    assert_eq!(c.read_direct(CSR_MIE), 0x333);
    c.read_modify_write_direct(CSR_MIE, 0x800);
    assert_eq!(c.read_direct(CSR_MIE), 0xb33);
    assert_eq!(c.read_direct(CSR_SIE), 0x333);
}

#[test]
fn csr_access_is_gated_by_privilege() {
    let mut csr = Csr::new();
    csr.write_direct(CSR_MSCRATCH, 7);
    let refused = Err(Trap { factor: Traps::IllegalInstruction, value: 0x8000_0040 });
    assert_eq!(csr.read(CSR_MSCRATCH, 0x8000_0040, &Privilege::Supervisor), refused);
    assert_eq!(csr.read(CSR_MSCRATCH, 0x8000_0040, &Privilege::User), refused);
    assert_eq!(csr.read(CSR_MSCRATCH, 0x8000_0040, &Privilege::Machine), Ok(7));
    assert_eq!(csr.read(CSR_SSCRATCH, 0, &Privilege::Supervisor), Ok(0));
    assert_eq!(csr.read(CSR_USCRATCH, 0, &Privilege::User), Ok(0));
    assert_eq!(
        csr.read(CSR_SSCRATCH, 4, &Privilege::User),
        Err(Trap { factor: Traps::IllegalInstruction, value: 4 })
    );
}

#[test]
fn csr_refused_write_changes_nothing() {
    let mut csr = Csr::new();
    csr.write_direct(CSR_MSCRATCH, 7);
    assert_eq!(
        csr.write(CSR_MSCRATCH, 9, 0x100, &Privilege::Supervisor),
        Err(Trap { factor: Traps::IllegalInstruction, value: 0x100 })
    );
    assert_eq!(csr.read_direct(CSR_MSCRATCH), 7);
    assert_eq!(csr.write(CSR_MSCRATCH, 9, 0x100, &Privilege::Machine), Ok(()));
    assert_eq!(csr.read_direct(CSR_MSCRATCH), 9);
}

#[test]
fn sstatus_is_a_window_onto_mstatus() {
    let mut csr = Csr::new();
    csr.write_direct(CSR_MSTATUS, u64::MAX);
    assert_eq!(csr.read(CSR_SSTATUS, 0, &Privilege::Supervisor), Ok(SSTATUS_MASK));
    assert_eq!(csr.read(CSR_USTATUS, 0, &Privilege::User), Ok(0x11));
    csr.write(CSR_SSTATUS, 0, 0, &Privilege::Supervisor).unwrap();
    assert_eq!(csr.read_direct(CSR_MSTATUS), !SSTATUS_WRITABLE);
    assert_eq!(csr.read_direct(CSR_MSTATUS), 0xffff_fffc_fff3_9ecc);
    csr.write(CSR_SSTATUS, 0x2, 0, &Privilege::Supervisor).unwrap();
    assert_eq!(csr.read_direct(CSR_MSTATUS), !SSTATUS_WRITABLE | 0x2);
    // MIE (bit 3) cannot be set through sstatus.
    csr.write_direct(CSR_MSTATUS, 0);
    csr.write(CSR_SSTATUS, 0xa, 0, &Privilege::Supervisor).unwrap();
    assert_eq!(csr.read_direct(CSR_MSTATUS), 0x2);
}

#[test]
fn sie_and_sip_are_windows_onto_mie_and_mip() {
    let mut csr = Csr::new();
    csr.write_direct(CSR_MIE, 0xaaa);
    csr.write_direct(CSR_MIP, 0xfff);
    assert_eq!(csr.read(CSR_SIE, 0, &Privilege::Supervisor), Ok(0x222));
    assert_eq!(csr.read(CSR_SIP, 0, &Privilege::Supervisor), Ok(0x333));
    assert_eq!(csr.read(CSR_UIE, 0, &Privilege::User), Ok(0));
    csr.write(CSR_SIE, 0xfff, 0, &Privilege::Supervisor).unwrap();
    assert_eq!(csr.read_direct(CSR_MIE), 0xbbb);
    // The external interrupt bits follow their lines and cannot be written.
    csr.write(CSR_SIP, 0, 0, &Privilege::Supervisor).unwrap();
    assert_eq!(csr.read_direct(CSR_MIP), 0xfcc);
    csr.write(CSR_UIP, 0xfff, 0, &Privilege::User).unwrap();
    assert_eq!(csr.read_direct(CSR_MIP), 0xfdd);
    csr.write(CSR_MIP, 0xfff, 0, &Privilege::Machine).unwrap();
    assert_eq!(csr.read_direct(CSR_MIP), 0xfff);
    csr.write(CSR_MIP, 0, 0, &Privilege::Machine).unwrap();
    assert_eq!(csr.read_direct(CSR_MIP), 0xfcc);
    assert_eq!(csr.read(CSR_MIP, 0, &Privilege::Machine), Ok(0xfcc));
}

#[test]
fn reserved_bits_of_mstatus_are_not_written() {
    let mut csr = Csr::new();
    csr.write(CSR_MSTATUS, u64::MAX, 0, &Privilege::Machine).unwrap();
    assert_eq!(csr.read_direct(CSR_MSTATUS), MSTATUS_WRITABLE);
    assert_eq!(csr.read_direct(CSR_MSTATUS), 0xf_007e_79bb);
    assert_eq!(csr.read(CSR_MSTATUS, 0, &Privilege::Machine), Ok(0xf_007e_79bb));
    csr.write(CSR_MSTATUS, 0x1888, 0, &Privilege::Machine).unwrap();
    assert_eq!(csr.read_direct(CSR_MSTATUS), 0x1888);
    // A value that was stored directly is read as it is.
    csr.write_direct(CSR_MSTATUS, u64::MAX);
    assert_eq!(csr.read(CSR_MSTATUS, 0, &Privilege::Machine), Ok(u64::MAX));
}

#[test]
fn fflags_and_frm_are_fields_of_fcsr() {
    let mut csr = Csr::new();
    csr.write(CSR_FCSR, 0xfff, 0, &Privilege::User).unwrap();
    assert_eq!(csr.read_direct(CSR_FCSR), 0xff);
    assert_eq!(csr.read(CSR_FFLAGS, 0, &Privilege::User), Ok(0x1f));
    assert_eq!(csr.read(CSR_FRM, 0, &Privilege::User), Ok(0x7));
    csr.write(CSR_FRM, 0x2, 0, &Privilege::User).unwrap();
    assert_eq!(csr.read_direct(CSR_FCSR), 0x5f);
    csr.write(CSR_FFLAGS, 0x21, 0, &Privilege::User).unwrap();
    assert_eq!(csr.read_direct(CSR_FCSR), 0x41);
}

#[test]
fn window_of_an_ordinary_register_is_its_own_slot() {
    let w = window_of(CSR_MSCRATCH);
    assert_eq!(w.slot, CSR_MSCRATCH);
    assert_eq!(w.mask, u64::MAX);
    assert_eq!(w.writable, u64::MAX);
    assert_eq!(w.shift, 0);
    let frm = window_of(CSR_FRM);
    assert_eq!(frm.slot, CSR_FCSR);
    assert_eq!(frm.mask, 0xe0);
    assert_eq!(frm.writable, 0xe0);
    assert_eq!(frm.shift, 5);
    let sip = window_of(CSR_SIP);
    assert_eq!((sip.slot, sip.mask, sip.writable), (CSR_MIP, 0x333, 0x033));
}
