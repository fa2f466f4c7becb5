//! Constants of the VirtIO console device (VirtIO 1.1, section 5.3).

use crate::constants::VIRTIO_F_VERSION_1;
use vstd::prelude::*;

verus! {

/// Configuration space: columns (2 bytes).
pub const VIRTIO_CONSOLE_CFG_COLS: u64 = 0x00;

/// Configuration space: rows (2 bytes).
pub const VIRTIO_CONSOLE_CFG_ROWS: u64 = 0x02;

/// Configuration space: maximum number of ports (4 bytes).
pub const VIRTIO_CONSOLE_CFG_MAX_NR_PORTS: u64 = 0x04;

/// Configuration space: emergency write (4 bytes).
pub const VIRTIO_CONSOLE_CFG_EMERG_WR: u64 = 0x08;

/// Feature: the device knows the console size.
pub const VIRTIO_CONSOLE_F_SIZE: u64 = 1;

/// Feature: the device has several ports.
pub const VIRTIO_CONSOLE_F_MULTIPORT: u64 = 2;

/// Feature: the device takes emergency writes.
pub const VIRTIO_CONSOLE_F_EMERG_WRITE: u64 = 4;

/// The features the console device offers: VirtIO 1.0 and the console
/// size. EVENT_IDX is left out, so that the guest notifies on every buffer.
pub const VIRTIO_CONSOLE_DEFAULT_FEATURES: u64 = VIRTIO_F_VERSION_1 | VIRTIO_CONSOLE_F_SIZE;

/// Receive queue index (data from host to guest).
pub const VIRTIO_CONSOLE_RECEIVEQ: u16 = 0;

/// Transmit queue index (data from guest to host).
pub const VIRTIO_CONSOLE_TRANSMITQ: u16 = 1;

/// Receive queue index of port 0 (data from host to guest).
pub const VIRTIO_CONSOLE_RX_QUEUE: u16 = 0;

/// Transmit queue index of port 0 (data from guest to host).
pub const VIRTIO_CONSOLE_TX_QUEUE: u16 = 1;

/// Number of queues in single-port mode.
pub const VIRTIO_CONSOLE_QUEUE_COUNT_SINGLE: usize = 2;

/// Default console columns.
pub const DEFAULT_CONSOLE_COLS: u16 = 80;

/// Default console rows.
pub const DEFAULT_CONSOLE_ROWS: u16 = 25;

/// Default maximum number of ports (single-port mode).
pub const DEFAULT_MAX_NR_PORTS: u32 = 1;

/// Default queue size of the console queues.
pub const DEFAULT_CONSOLE_QUEUE_SIZE: u16 = 64;

/// The size of the chunks in which host input is forwarded to the guest.
pub const CONSOLE_INPUT_CHUNK: usize = 256;

/// The size of the buffer the legacy device reads host input into.
pub const CONSOLE_RX_BUFFER_SIZE: usize = 512;

} // verus!
