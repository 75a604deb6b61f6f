//! The machines that can be built.

use vstd::prelude::*;

verus! {

/// Flavour of the memory map.
#[derive(Clone, Copy, Debug, PartialEq, Eq, Structural)]
pub enum Machine {
    /// FE310-like: the common devices and, besides them, PRCI, GPIO and the SPI flash.
    SiFiveE,
    /// The "virt" map: timer, interrupt controller, UART, block device and main memory.
    SiFiveU,
}

} // verus!
