//! Constants of the VirtIO block device (VirtIO 1.1, section 5.2).

use crate::constants::{VIRTIO_F_RING_EVENT_IDX, VIRTIO_F_VERSION_1};
use vstd::prelude::*;

verus! {

/// Request type: read from the device.
pub const VIRTIO_BLK_T_IN: u32 = 0;

/// Request type: write to the device.
pub const VIRTIO_BLK_T_OUT: u32 = 1;

/// Request type: flush the device's write cache.
pub const VIRTIO_BLK_T_FLUSH: u32 = 4;

/// Request status: success.
pub const VIRTIO_BLK_S_OK: u8 = 0;

/// Request status: device or driver error.
pub const VIRTIO_BLK_S_IOERR: u8 = 1;

/// Request status: request unsupported by the device.
pub const VIRTIO_BLK_S_UNSUPP: u8 = 2;

/// The size of a sector, the unit of block addresses.
pub const SECTOR_SIZE: u32 = 512;

/// The size of a sector as a 64-bit value.
pub const SECTOR_SIZE_U64: u64 = 512;

/// The capacity of a block device that no one configured, in sectors.
pub const DEFAULT_CAPACITY_SECTORS: u64 = 2048;

/// The fewest descriptors a request chain can have: header and status.
pub const MIN_DESCRIPTOR_CHAIN_LENGTH: usize = 2;

/// The features the block device offers.
pub const VIRTIO_BLK_FEATURES: u64 = VIRTIO_F_VERSION_1 | VIRTIO_F_RING_EVENT_IDX;

/// Offset of the request type in the request header.
pub const VIRTIO_BLK_REQ_TYPE_OFFSET: usize = 0;

/// Offset of the start sector in the request header.
pub const VIRTIO_BLK_REQ_SECTOR_OFFSET: usize = 8;

/// Configuration space: capacity in sectors, low 32 bits.
pub const VIRTIO_BLK_CFG_CAPACITY_LOW: u64 = 0x00;

/// Configuration space: capacity in sectors, high 32 bits.
pub const VIRTIO_BLK_CFG_CAPACITY_HIGH: u64 = 0x04;

/// Configuration space: largest segment size.
pub const VIRTIO_BLK_CFG_SIZE_MAX: u64 = 0x08;

/// Configuration space: most segments in a request.
pub const VIRTIO_BLK_CFG_SEG_MAX: u64 = 0x0c;

/// Configuration space: geometry (cylinders, heads, sectors).
pub const VIRTIO_BLK_CFG_GEOMETRY: u64 = 0x10;

/// Configuration space: block size.
pub const VIRTIO_BLK_CFG_BLK_SIZE: u64 = 0x14;

/// Configuration space: logical blocks per physical block, as a power of two.
pub const VIRTIO_BLK_CFG_PHYSICAL_BLOCK_EXP: u64 = 0x18;

/// Configuration space: offset of the first aligned logical block.
pub const VIRTIO_BLK_CFG_ALIGNMENT_OFFSET: u64 = 0x19;

/// Configuration space: suggested minimum I/O size in blocks.
pub const VIRTIO_BLK_CFG_MIN_IO_SIZE: u64 = 0x1a;

/// Configuration space: optimal I/O size in blocks.
pub const VIRTIO_BLK_CFG_OPT_IO_SIZE: u64 = 0x1c;

} // verus!
