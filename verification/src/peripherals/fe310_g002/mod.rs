//! Devices of the FE310-G002 flavour of the machine.

pub mod fe310_uart;
pub mod gpio;
pub mod prci;
