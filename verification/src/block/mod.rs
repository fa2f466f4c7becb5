//! The VirtIO block device: its configuration space, its request format,
//! the storage backends it reads and writes, and the MMIO device itself.

pub mod constants;
pub mod config;
pub mod backend;
pub mod cache;
pub mod request;
pub mod processing;
pub mod device;
