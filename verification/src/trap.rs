//! Causes of traps: asynchronous interrupts and synchronous exceptions.

use vstd::prelude::*;

verus! {

/// A trap that an instruction or the interrupt logic raises: its cause and the value that goes
/// to the trap-value register.
#[derive(Clone, Copy, Debug, PartialEq, Eq, Structural)]
pub struct Trap {
    pub factor: Traps,
    pub value: u64,
}

#[derive(Clone, Copy, Debug, PartialEq, Eq, Structural)]
pub enum Traps {
    // Interrupts
    UserSoftwareInterrupt,
    SupervisorSoftwareInterrupt,
    MachineSoftwareInterrupt,
    UserTimerInterrupt,
    SupervisorTimerInterrupt,
    MachineTimerInterrupt,
    UserExternalInterrupt,
    SupervisorExternalInterrupt,
    MachineExternalInterrupt,
    // Exceptions
    InstructionAddressMisaligned,
    InstructionAccessFault,
    IllegalInstruction,
    Breakpoint,
    LoadAddressMisaligned,
    LoadAccessFault,
    StoreAddressMisaligned,
    StoreAccessFault,
    EnvironmentCallFromUMode,
    EnvironmentCallFromSMode,
    EnvironmentCallFromMMode,
    InstructionPageFault,
    LoadPageFault,
    StorePageFault,
}

impl Traps {
    /// Whether the cause is asynchronous.
    pub open spec fn spec_is_interrupt(self) -> bool {
        match self {
            Traps::UserSoftwareInterrupt
            | Traps::SupervisorSoftwareInterrupt
            | Traps::MachineSoftwareInterrupt
            | Traps::UserTimerInterrupt
            | Traps::SupervisorTimerInterrupt
            | Traps::MachineTimerInterrupt
            | Traps::UserExternalInterrupt
            | Traps::SupervisorExternalInterrupt
            | Traps::MachineExternalInterrupt => true,
            _ => false,
        }
    }

    /// The cause number that the privileged architecture gives to the trap, without the
    /// interrupt flag.
    pub open spec fn spec_code(self) -> u64 {
        match self {
            Traps::UserSoftwareInterrupt => 0,
            Traps::SupervisorSoftwareInterrupt => 1,
            Traps::MachineSoftwareInterrupt => 3,
            Traps::UserTimerInterrupt => 4,
            Traps::SupervisorTimerInterrupt => 5,
            Traps::MachineTimerInterrupt => 7,
            Traps::UserExternalInterrupt => 8,
            Traps::SupervisorExternalInterrupt => 9,
            Traps::MachineExternalInterrupt => 11,
            Traps::InstructionAddressMisaligned => 0,
            Traps::InstructionAccessFault => 1,
            Traps::IllegalInstruction => 2,
            Traps::Breakpoint => 3,
            Traps::LoadAddressMisaligned => 4,
            Traps::LoadAccessFault => 5,
            Traps::StoreAddressMisaligned => 6,
            Traps::StoreAccessFault => 7,
            Traps::EnvironmentCallFromUMode => 8,
            Traps::EnvironmentCallFromSMode => 9,
            Traps::EnvironmentCallFromMMode => 11,
            Traps::InstructionPageFault => 12,
            Traps::LoadPageFault => 13,
            Traps::StorePageFault => 15,
        }
    }

    #[verifier::when_used_as_spec(spec_is_interrupt)]
    pub fn is_interrupt(self) -> (r: bool)
        ensures
            r == self.spec_is_interrupt(),
    {
        match self {
            Traps::UserSoftwareInterrupt
            | Traps::SupervisorSoftwareInterrupt
            | Traps::MachineSoftwareInterrupt
            | Traps::UserTimerInterrupt
            | Traps::SupervisorTimerInterrupt
            | Traps::MachineTimerInterrupt
            | Traps::UserExternalInterrupt
            | Traps::SupervisorExternalInterrupt
            | Traps::MachineExternalInterrupt => true,
            _ => false,
        }
    }

    #[verifier::when_used_as_spec(spec_code)]
    pub fn code(self) -> (r: u64)
        ensures
            r == self.spec_code(),
            r < 16,
    {
        match self {
            Traps::UserSoftwareInterrupt => 0,
            Traps::SupervisorSoftwareInterrupt => 1,
            Traps::MachineSoftwareInterrupt => 3,
            Traps::UserTimerInterrupt => 4,
            Traps::SupervisorTimerInterrupt => 5,
            Traps::MachineTimerInterrupt => 7,
            Traps::UserExternalInterrupt => 8,
            Traps::SupervisorExternalInterrupt => 9,
            Traps::MachineExternalInterrupt => 11,
            Traps::InstructionAddressMisaligned => 0,
            Traps::InstructionAccessFault => 1,
            Traps::IllegalInstruction => 2,
            Traps::Breakpoint => 3,
            Traps::LoadAddressMisaligned => 4,
            Traps::LoadAccessFault => 5,
            Traps::StoreAddressMisaligned => 6,
            Traps::StoreAccessFault => 7,
            Traps::EnvironmentCallFromUMode => 8,
            Traps::EnvironmentCallFromSMode => 9,
            Traps::EnvironmentCallFromMMode => 11,
            Traps::InstructionPageFault => 12,
            Traps::LoadPageFault => 13,
            Traps::StorePageFault => 15,
        }
    }
}

} // verus!
