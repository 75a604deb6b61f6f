//! The devices behind the memory map.

pub mod fe310_g002;
pub mod intc;
pub mod timer;
pub mod uart;
pub mod virtio;
