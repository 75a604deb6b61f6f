//! How a trap is taken and left: the level that handles it, the registers that record it,
//! the fields of `mstatus` that change, and the interrupt to take among those pending.

use crate::cpu::cpu::{Privilege, Xlen};
use crate::cpu::cpu_csr::{
    CSR_COUNT, CSR_MCAUSE, CSR_MEPC, CSR_MTVAL, CSR_MTVEC, CSR_SCAUSE, CSR_SEPC, CSR_STVAL,
    CSR_STVEC, CSR_UCAUSE, CSR_UEPC, CSR_UTVAL, CSR_UTVEC,
};
use crate::cpu::cpu_instruction::{unsigned, Width};
use crate::trap::Traps;
use vstd::prelude::*;

verus! {

/// Bits of `mip` that follow the interrupt lines: the external interrupts of the three
/// levels, the machine timer and the machine software interrupt.
pub const MIP_DRIVEN: u64 = 0xB88;

pub const MIP_MEIP: u64 = 0x800;
pub const MIP_SEIP: u64 = 0x200;
pub const MIP_UEIP: u64 = 0x100;
pub const MIP_MTIP: u64 = 0x080;
pub const MIP_MSIP: u64 = 0x008;

/// The value with which a single-precision number is boxed in a floating-point register.
pub const NAN_BOX: u64 = 0xffff_ffff_0000_0000;

/// The level that takes a trap with the cause number `code`, given the delegation
/// registers of the machine and of the supervisor level: the machine, unless bit `code` of
/// `m_deleg` hands the trap down to the supervisor, which hands it on to the user where bit
/// `code` of `s_deleg` says so.
pub open spec fn spec_delegated(m_deleg: u64, s_deleg: u64, code: u64) -> Privilege {
    if (m_deleg >> code) & 1 == 1 {
        if (s_deleg >> code) & 1 == 1 {
            Privilege::User
        } else {
            Privilege::Supervisor
        }
    } else {
        Privilege::Machine
    }
}

#[verifier::when_used_as_spec(spec_delegated)]
pub fn delegated(m_deleg: u64, s_deleg: u64, code: u64) -> (r: Privilege)
    requires
        code < 64,
    ensures
        r == spec_delegated(m_deleg, s_deleg, code),
{
    if (m_deleg >> code) & 1 == 1 {
        if (s_deleg >> code) & 1 == 1 {
            Privilege::User
        } else {
            Privilege::Supervisor
        }
    } else {
        Privilege::Machine
    }
}

/// The value of the cause register for a trap: the cause number, with the highest bit of
/// the register set for an interrupt.
pub open spec fn spec_cause_of(xlen: Xlen, factor: Traps) -> u64 {
    if factor.is_interrupt() {
        match xlen {
            Xlen::X32 => 0x8000_0000 | factor.code(),
            Xlen::X64 => 0x8000_0000_0000_0000 | factor.code(),
        }
    } else {
        factor.code()
    }
}

#[verifier::when_used_as_spec(spec_cause_of)]
pub fn cause_of(xlen: Xlen, factor: Traps) -> (r: u64)
    ensures
        r == spec_cause_of(xlen, factor),
{
    if factor.is_interrupt() {
        match xlen {
            Xlen::X32 => 0x8000_0000 | factor.code(),
            Xlen::X64 => 0x8000_0000_0000_0000 | factor.code(),
        }
    } else {
        factor.code()
    }
}

/// `mstatus` after a trap from level `from` was taken to level `target`: the interrupt
/// enable of the target level moves to its previous-enable bit and is cleared, and the
/// previous-privilege field of the target level takes `from`.
pub open spec fn spec_status_on_entry(mstatus: u64, target: Privilege, from: Privilege) -> u64 {
    match target {
        Privilege::User => (mstatus & !0x11u64) | ((mstatus & 1) << 4),
        Privilege::Supervisor => (mstatus & !0x122u64) | (((mstatus >> 1) & 1) << 5) | (((from.level()
            as u64) & 1) << 8),
        _ => (mstatus & !0x1888u64) | (((mstatus >> 3) & 1) << 7) | ((from.level() as u64) << 11),
    }
}

#[verifier::when_used_as_spec(spec_status_on_entry)]
pub fn status_on_entry(mstatus: u64, target: Privilege, from: Privilege) -> (r: u64)
    ensures
        r == spec_status_on_entry(mstatus, target, from),
{
    match target {
        Privilege::User => (mstatus & !0x11u64) | ((mstatus & 1) << 4),
        Privilege::Supervisor => (mstatus & !0x122u64) | (((mstatus >> 1) & 1) << 5) | (((from.level()
            as u64) & 1) << 8),
        _ => (mstatus & !0x1888u64) | (((mstatus >> 3) & 1) << 7) | ((from.level() as u64) << 11),
    }
}

/// `mstatus` after a return from a trap of level `level`: the interrupt enable of the level
/// takes its previous-enable bit, that bit is set, and the previous-privilege field of the
/// level is set to user.
pub open spec fn spec_status_on_return(mstatus: u64, level: Privilege) -> u64 {
    match level {
        Privilege::User => (mstatus & !0x11u64) | ((mstatus >> 4) & 1) | 0x10,
        Privilege::Supervisor => (mstatus & !0x122u64) | (((mstatus >> 5) & 1) << 1) | 0x20,
        _ => (mstatus & !0x1888u64) | (((mstatus >> 7) & 1) << 3) | 0x80,
    }
}

#[verifier::when_used_as_spec(spec_status_on_return)]
pub fn status_on_return(mstatus: u64, level: Privilege) -> (r: u64)
    ensures
        r == spec_status_on_return(mstatus, level),
{
    match level {
        Privilege::User => (mstatus & !0x11u64) | ((mstatus >> 4) & 1) | 0x10,
        Privilege::Supervisor => (mstatus & !0x122u64) | (((mstatus >> 5) & 1) << 1) | 0x20,
        _ => (mstatus & !0x1888u64) | (((mstatus >> 7) & 1) << 3) | 0x80,
    }
}

/// The level that the previous-privilege field of the level `level` holds; the reserved
/// encoding of the hypervisor level counts as supervisor.
pub open spec fn spec_previous_privilege(mstatus: u64, level: Privilege) -> Privilege {
    match level {
        Privilege::User => Privilege::User,
        Privilege::Supervisor => Privilege::from_level((mstatus >> 8) & 1),
        _ => match Privilege::from_level(mstatus >> 11) {
            Privilege::Hypervisor => Privilege::Supervisor,
            p => p,
        },
    }
}

#[verifier::when_used_as_spec(spec_previous_privilege)]
pub fn previous_privilege(mstatus: u64, level: Privilege) -> (r: Privilege)
    ensures
        r == spec_previous_privilege(mstatus, level),
{
    match level {
        Privilege::User => Privilege::User,
        Privilege::Supervisor => Privilege::from_level((mstatus >> 8) & 1),
        _ => match Privilege::from_level(mstatus >> 11) {
            Privilege::Hypervisor => Privilege::Supervisor,
            p => p,
        },
    }
}

/// Whether the interrupt enable of the level `level` is set in `mstatus`.
pub open spec fn spec_global_enable(mstatus: u64, level: Privilege) -> bool {
    match level {
        Privilege::User => mstatus & 0x1 != 0,
        Privilege::Supervisor => mstatus & 0x2 != 0,
        _ => mstatus & 0x8 != 0,
    }
}

#[verifier::when_used_as_spec(spec_global_enable)]
pub fn global_enable(mstatus: u64, level: Privilege) -> (r: bool)
    ensures
        r == spec_global_enable(mstatus, level),
{
    match level {
        Privilege::User => mstatus & 0x1 != 0,
        Privilege::Supervisor => mstatus & 0x2 != 0,
        _ => mstatus & 0x8 != 0,
    }
}

/// The address at which the handler of a trap starts: the base of the trap-vector
/// register, and for an interrupt in vectored mode four times the cause number beyond it.
pub open spec fn spec_vector(xlen: Xlen, tvec: u64, factor: Traps) -> u64 {
    if tvec & 3 == 1 && factor.is_interrupt() {
        unsigned(xlen, (tvec & !3u64).wrapping_add(factor.code() << 2) as i64)
    } else {
        unsigned(xlen, (tvec & !3u64) as i64)
    }
}

#[verifier::when_used_as_spec(spec_vector)]
pub fn vector(xlen: Xlen, tvec: u64, factor: Traps) -> (r: u64)
    ensures
        r == spec_vector(xlen, tvec, factor),
{
    if tvec & 3 == 1 && factor.is_interrupt() {
        unsigned(xlen, (tvec & !3u64).wrapping_add(factor.code() << 2) as i64)
    } else {
        unsigned(xlen, (tvec & !3u64) as i64)
    }
}

/// The exception program counter of the level.
pub open spec fn spec_epc_slot(level: Privilege) -> u16 {
    match level {
        Privilege::User => CSR_UEPC,
        Privilege::Supervisor => CSR_SEPC,
        _ => CSR_MEPC,
    }
}

#[verifier::when_used_as_spec(spec_epc_slot)]
pub fn epc_slot(level: Privilege) -> (r: u16)
    ensures
        r == spec_epc_slot(level),
        r < CSR_COUNT,
{
    match level {
        Privilege::User => CSR_UEPC,
        Privilege::Supervisor => CSR_SEPC,
        _ => CSR_MEPC,
    }
}

/// The cause register of the level.
pub open spec fn spec_cause_slot(level: Privilege) -> u16 {
    match level {
        Privilege::User => CSR_UCAUSE,
        Privilege::Supervisor => CSR_SCAUSE,
        _ => CSR_MCAUSE,
    }
}

#[verifier::when_used_as_spec(spec_cause_slot)]
pub fn cause_slot(level: Privilege) -> (r: u16)
    ensures
        r == spec_cause_slot(level),
        r < CSR_COUNT,
{
    match level {
        Privilege::User => CSR_UCAUSE,
        Privilege::Supervisor => CSR_SCAUSE,
        _ => CSR_MCAUSE,
    }
}

/// The trap value register of the level.
pub open spec fn spec_tval_slot(level: Privilege) -> u16 {
    match level {
        Privilege::User => CSR_UTVAL,
        Privilege::Supervisor => CSR_STVAL,
        _ => CSR_MTVAL,
    }
}

#[verifier::when_used_as_spec(spec_tval_slot)]
pub fn tval_slot(level: Privilege) -> (r: u16)
    ensures
        r == spec_tval_slot(level),
        r < CSR_COUNT,
{
    match level {
        Privilege::User => CSR_UTVAL,
        Privilege::Supervisor => CSR_STVAL,
        _ => CSR_MTVAL,
    }
}

/// The trap-vector register of the level.
pub open spec fn spec_tvec_slot(level: Privilege) -> u16 {
    match level {
        Privilege::User => CSR_UTVEC,
        Privilege::Supervisor => CSR_STVEC,
        _ => CSR_MTVEC,
    }
}

#[verifier::when_used_as_spec(spec_tvec_slot)]
pub fn tvec_slot(level: Privilege) -> (r: u16)
    ensures
        r == spec_tvec_slot(level),
        r < CSR_COUNT,
{
    match level {
        Privilege::User => CSR_UTVEC,
        Privilege::Supervisor => CSR_STVEC,
        _ => CSR_MTVEC,
    }
}

/// `mip` after the interrupt lines were sampled: each driven bit takes the state of its
/// line, the other bits stay.
pub open spec fn spec_lines_to_mip(mip: u64, machine: bool, supervisor: bool, user: bool, timer: bool, software: bool) -> u64 {
    (mip & !MIP_DRIVEN) | (if machine {
        MIP_MEIP
    } else {
        0
    }) | (if supervisor {
        MIP_SEIP
    } else {
        0
    }) | (if user {
        MIP_UEIP
    } else {
        0
    }) | (if timer {
        MIP_MTIP
    } else {
        0
    }) | (if software {
        MIP_MSIP
    } else {
        0
    })
}

#[verifier::when_used_as_spec(spec_lines_to_mip)]
pub fn lines_to_mip(mip: u64, machine: bool, supervisor: bool, user: bool, timer: bool, software: bool) -> (r: u64)
    ensures
        r == spec_lines_to_mip(mip, machine, supervisor, user, timer, software),
{
    (mip & !MIP_DRIVEN) | (if machine {
        MIP_MEIP
    } else {
        0
    }) | (if supervisor {
        MIP_SEIP
    } else {
        0
    }) | (if user {
        MIP_UEIP
    } else {
        0
    }) | (if timer {
        MIP_MTIP
    } else {
        0
    }) | (if software {
        MIP_MSIP
    } else {
        0
    })
}

/// The interrupt with the cause number `code`.
pub open spec fn spec_interrupt_of(code: u64) -> Traps {
    if code == 11 {
        Traps::MachineExternalInterrupt
    } else if code == 3 {
        Traps::MachineSoftwareInterrupt
    } else if code == 7 {
        Traps::MachineTimerInterrupt
    } else if code == 9 {
        Traps::SupervisorExternalInterrupt
    } else if code == 1 {
        Traps::SupervisorSoftwareInterrupt
    } else if code == 5 {
        Traps::SupervisorTimerInterrupt
    } else if code == 8 {
        Traps::UserExternalInterrupt
    } else if code == 0 {
        Traps::UserSoftwareInterrupt
    } else {
        Traps::UserTimerInterrupt
    }
}

#[verifier::when_used_as_spec(spec_interrupt_of)]
pub fn interrupt_of(code: u64) -> (r: Traps)
    ensures
        r == spec_interrupt_of(code),
{
    if code == 11 {
        Traps::MachineExternalInterrupt
    } else if code == 3 {
        Traps::MachineSoftwareInterrupt
    } else if code == 7 {
        Traps::MachineTimerInterrupt
    } else if code == 9 {
        Traps::SupervisorExternalInterrupt
    } else if code == 1 {
        Traps::SupervisorSoftwareInterrupt
    } else if code == 5 {
        Traps::SupervisorTimerInterrupt
    } else if code == 8 {
        Traps::UserExternalInterrupt
    } else if code == 0 {
        Traps::UserSoftwareInterrupt
    } else {
        Traps::UserTimerInterrupt
    }
}

/// Whether the interrupt with the cause number `code` is taken: it is pending and enabled,
/// and the level that handles it is above the hart's, or is the hart's with its interrupt
/// enable set.
pub open spec fn spec_takes(pending: u64, mideleg: u64, sideleg: u64, mstatus: u64, privilege: Privilege, code: u64) -> bool {
    (pending >> code) & 1 == 1 && (delegated(mideleg, sideleg, code).level() > privilege.level() || (
    delegated(mideleg, sideleg, code).level() == privilege.level() && global_enable(
        mstatus,
        delegated(mideleg, sideleg, code),
    )))
}

#[verifier::when_used_as_spec(spec_takes)]
pub fn takes(pending: u64, mideleg: u64, sideleg: u64, mstatus: u64, privilege: Privilege, code: u64) -> (r: bool)
    requires
        code < 64,
    ensures
        r == spec_takes(pending, mideleg, sideleg, mstatus, privilege, code),
{
    (pending >> code) & 1 == 1 && (delegated(mideleg, sideleg, code).level() > privilege.level() || (
    delegated(mideleg, sideleg, code).level() == privilege.level() && global_enable(
        mstatus,
        delegated(mideleg, sideleg, code),
    )))
}

/// The interrupt that the hart takes, if any: the first one that is taken in the order
/// machine external, machine software, machine timer, supervisor external, supervisor
/// software, supervisor timer, user external, user software, user timer.
pub open spec fn spec_select_interrupt(pending: u64, mideleg: u64, sideleg: u64, mstatus: u64, privilege: Privilege) -> Option<Traps> {
    if takes(pending, mideleg, sideleg, mstatus, privilege, 11) {
        Some(interrupt_of(11))
    } else if takes(pending, mideleg, sideleg, mstatus, privilege, 3) {
        Some(interrupt_of(3))
    } else if takes(pending, mideleg, sideleg, mstatus, privilege, 7) {
        Some(interrupt_of(7))
    } else if takes(pending, mideleg, sideleg, mstatus, privilege, 9) {
        Some(interrupt_of(9))
    } else if takes(pending, mideleg, sideleg, mstatus, privilege, 1) {
        Some(interrupt_of(1))
    } else if takes(pending, mideleg, sideleg, mstatus, privilege, 5) {
        Some(interrupt_of(5))
    } else if takes(pending, mideleg, sideleg, mstatus, privilege, 8) {
        Some(interrupt_of(8))
    } else if takes(pending, mideleg, sideleg, mstatus, privilege, 0) {
        Some(interrupt_of(0))
    } else if takes(pending, mideleg, sideleg, mstatus, privilege, 4) {
        Some(interrupt_of(4))
    } else {
        None
    }
}

#[verifier::when_used_as_spec(spec_select_interrupt)]
pub fn select_interrupt(pending: u64, mideleg: u64, sideleg: u64, mstatus: u64, privilege: Privilege) -> (r: Option<Traps>)
    ensures
        r == spec_select_interrupt(pending, mideleg, sideleg, mstatus, privilege),
{
    if takes(pending, mideleg, sideleg, mstatus, privilege, 11) {
        Some(interrupt_of(11))
    } else if takes(pending, mideleg, sideleg, mstatus, privilege, 3) {
        Some(interrupt_of(3))
    } else if takes(pending, mideleg, sideleg, mstatus, privilege, 7) {
        Some(interrupt_of(7))
    } else if takes(pending, mideleg, sideleg, mstatus, privilege, 9) {
        Some(interrupt_of(9))
    } else if takes(pending, mideleg, sideleg, mstatus, privilege, 1) {
        Some(interrupt_of(1))
    } else if takes(pending, mideleg, sideleg, mstatus, privilege, 5) {
        Some(interrupt_of(5))
    } else if takes(pending, mideleg, sideleg, mstatus, privilege, 8) {
        Some(interrupt_of(8))
    } else if takes(pending, mideleg, sideleg, mstatus, privilege, 0) {
        Some(interrupt_of(0))
    } else if takes(pending, mideleg, sideleg, mstatus, privilege, 4) {
        Some(interrupt_of(4))
    } else {
        None
    }
}

/// The exception that an environment call at the level `privilege` raises.
pub open spec fn spec_ecall_of(privilege: Privilege) -> Traps {
    match privilege {
        Privilege::User => Traps::EnvironmentCallFromUMode,
        Privilege::Machine => Traps::EnvironmentCallFromMMode,
        _ => Traps::EnvironmentCallFromSMode,
    }
}

#[verifier::when_used_as_spec(spec_ecall_of)]
pub fn ecall_of(privilege: Privilege) -> (r: Traps)
    ensures
        r == spec_ecall_of(privilege),
{
    match privilege {
        Privilege::User => Traps::EnvironmentCallFromUMode,
        Privilege::Machine => Traps::EnvironmentCallFromMMode,
        _ => Traps::EnvironmentCallFromSMode,
    }
}

/// The floating-point register that a loaded `value` of width `width` becomes: a
/// single-precision value is boxed in ones.
pub open spec fn spec_boxed(value: u64, width: Width) -> u64 {
    match width {
        Width::Double => value,
        _ => NAN_BOX | (value as u32 as u64),
    }
}

#[verifier::when_used_as_spec(spec_boxed)]
pub fn boxed(value: u64, width: Width) -> (r: u64)
    ensures
        r == spec_boxed(value, width),
{
    match width {
        Width::Double => value,
        _ => NAN_BOX | (value as u32 as u64),
    }
}

} // verus!
