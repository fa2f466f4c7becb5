//! VirtIO device emulation over MMIO for a hypervisor: the split virtqueue
//! (descriptor table, available ring, used ring), the MMIO register files of
//! the block, network and console devices, and their device-specific
//! configuration spaces, request formats and backends.

pub mod constants;
pub mod device_type;
pub mod error;
pub mod flags;
pub mod memory;
pub mod transport;

pub mod queue;
pub mod config;
pub mod regs;
pub mod block;
pub mod console;
pub mod net;
