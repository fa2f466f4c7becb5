//! The VirtIO network device: its configuration space, the packet header
//! and buffers, the network backends and the MMIO device.

pub mod constants;
pub mod config;
pub mod packet;
pub mod backend;
pub mod device;
