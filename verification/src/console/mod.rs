//! The VirtIO console device: its configuration space, the backends it
//! talks to on the host, and the MMIO devices.

pub mod constants;
pub mod config;
pub mod backend;
pub mod host;
pub mod mmio;
pub mod device;
pub mod terminal;
