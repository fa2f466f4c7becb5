//! The configuration space of the VirtIO block device.

use crate::block::constants::{
    DEFAULT_CAPACITY_SECTORS, SECTOR_SIZE, VIRTIO_BLK_CFG_ALIGNMENT_OFFSET, VIRTIO_BLK_CFG_BLK_SIZE,
    VIRTIO_BLK_CFG_CAPACITY_HIGH, VIRTIO_BLK_CFG_CAPACITY_LOW, VIRTIO_BLK_CFG_GEOMETRY,
    VIRTIO_BLK_CFG_MIN_IO_SIZE, VIRTIO_BLK_CFG_OPT_IO_SIZE, VIRTIO_BLK_CFG_PHYSICAL_BLOCK_EXP,
    VIRTIO_BLK_CFG_SEG_MAX, VIRTIO_BLK_CFG_SIZE_MAX,
};
use vstd::prelude::*;

verus! {

/// Configuration space of a VirtIO block device.
#[derive(Debug, Clone, Copy, PartialEq, Eq, Structural)]
pub struct VirtioBlockConfig {
    /// Capacity in 512-byte sectors
    pub capacity: u64,
    /// Largest segment size
    pub size_max: u32,
    /// Most segments in a request
    pub seg_max: u32,
    /// Geometry: cylinders
    pub cylinders: u16,
    /// Geometry: heads
    pub heads: u8,
    /// Geometry: sectors per track
    pub sectors: u8,
    /// Block size
    pub blk_size: u32,
    /// Logical blocks per physical block, as a power of two
    pub physical_block_exp: u8,
    /// Offset of the first aligned logical block
    pub alignment_offset: u8,
    /// Suggested minimum I/O size in blocks
    pub min_io_size: u16,
    /// Optimal I/O size in blocks
    pub opt_io_size: u32,
}

impl VirtioBlockConfig {
    /// The configuration of a block device that no one configured.
    pub open spec fn spec_default() -> Self {
        VirtioBlockConfig {
            capacity: DEFAULT_CAPACITY_SECTORS,
            size_max: 65536,
            seg_max: 128,
            cylinders: 0,
            heads: 0,
            sectors: 0,
            blk_size: SECTOR_SIZE,
            physical_block_exp: 0,
            alignment_offset: 0,
            min_io_size: 0,
            opt_io_size: 0,
        }
    }

    /// The 32-bit value that a read at `offset` in the configuration space
    /// gives: the field that starts there (the geometry packed as cylinders,
    /// heads << 16, sectors << 24), 0 at any other offset.
    pub open spec fn spec_read(self, offset: u64) -> u32 {
        if offset == VIRTIO_BLK_CFG_CAPACITY_LOW {
            (self.capacity % 0x1_0000_0000) as u32
        } else if offset == VIRTIO_BLK_CFG_CAPACITY_HIGH {
            (self.capacity / 0x1_0000_0000) as u32
        } else if offset == VIRTIO_BLK_CFG_SIZE_MAX {
            self.size_max
        } else if offset == VIRTIO_BLK_CFG_SEG_MAX {
            self.seg_max
        } else if offset == VIRTIO_BLK_CFG_GEOMETRY {
            (self.cylinders + self.heads * 0x1_0000 + self.sectors * 0x100_0000) as u32
        } else if offset == VIRTIO_BLK_CFG_BLK_SIZE {
            self.blk_size
        } else if offset == VIRTIO_BLK_CFG_PHYSICAL_BLOCK_EXP {
            self.physical_block_exp as u32
        } else if offset == VIRTIO_BLK_CFG_ALIGNMENT_OFFSET {
            self.alignment_offset as u32
        } else if offset == VIRTIO_BLK_CFG_MIN_IO_SIZE {
            self.min_io_size as u32
        } else if offset == VIRTIO_BLK_CFG_OPT_IO_SIZE {
            self.opt_io_size
        } else {
            0
        }
    }

    /// The value of the configuration space at `offset` (see `spec_read`).
    pub fn read(&self, offset: u64) -> (v: u32)
        ensures
            v == self.spec_read(offset),
    {
        proof {
            crate::flags::lemma_words64(self.capacity, 0);
        }
        if offset == VIRTIO_BLK_CFG_CAPACITY_LOW {
            self.capacity as u32
        } else if offset == VIRTIO_BLK_CFG_CAPACITY_HIGH {
            (self.capacity >> 32) as u32
        } else if offset == VIRTIO_BLK_CFG_SIZE_MAX {
            self.size_max
        } else if offset == VIRTIO_BLK_CFG_SEG_MAX {
            self.seg_max
        } else if offset == VIRTIO_BLK_CFG_GEOMETRY {
            let c = self.cylinders as u32;
            let h = self.heads as u32;
            let s = self.sectors as u32;
            let g = c | (h << 16) | (s << 24);
            proof {
                assert(c | (h << 16u32) | (s << 24u32) == c + h * 0x1_0000 + s * 0x100_0000)
                    by (bit_vector)
                    requires
                        c < 0x1_0000,
                        h < 0x100,
                        s < 0x100,
                ;
            }
            g
        } else if offset == VIRTIO_BLK_CFG_BLK_SIZE {
            self.blk_size
        } else if offset == VIRTIO_BLK_CFG_PHYSICAL_BLOCK_EXP {
            self.physical_block_exp as u32
        } else if offset == VIRTIO_BLK_CFG_ALIGNMENT_OFFSET {
            self.alignment_offset as u32
        } else if offset == VIRTIO_BLK_CFG_MIN_IO_SIZE {
            self.min_io_size as u32
        } else if offset == VIRTIO_BLK_CFG_OPT_IO_SIZE {
            self.opt_io_size
        } else {
            0
        }
    }
}

impl Default for VirtioBlockConfig {
    /// A device of `DEFAULT_CAPACITY_SECTORS` sectors of 512 bytes, segments
    /// of up to 64 KiB, up to 128 of them, no geometry.
    fn default() -> (c: Self)
        ensures
            c == Self::spec_default(),
    {
        VirtioBlockConfig {
            capacity: DEFAULT_CAPACITY_SECTORS,
            size_max: 65536,
            seg_max: 128,
            cylinders: 0,
            heads: 0,
            sectors: 0,
            blk_size: SECTOR_SIZE,
            physical_block_exp: 0,
            alignment_offset: 0,
            min_io_size: 0,
            opt_io_size: 0,
        }
    }
}

} // verus!
