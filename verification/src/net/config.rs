//! The configuration space of the VirtIO network device: MAC address,
//! status, maximum queue pairs and MTU, twelve bytes in this order, the
//! 16-bit fields little-endian.

use crate::flags::set_flag16;
use crate::memory::{le16, le16_bytes, le32, le32_bytes};
use crate::net::constants::{
    VIRTIO_NET_CONFIG_SIZE, VIRTIO_NET_DEFAULT_MTU, VIRTIO_NET_DEFAULT_QUEUE_PAIRS,
    VIRTIO_NET_S_ANNOUNCE, VIRTIO_NET_S_LINK_UP,
};
use vstd::prelude::*;

verus! {

/// The value of `width` bytes at `offset` of a configuration image, read
/// little-endian; 0 for a range beyond the image or another width.
pub open spec fn image_read(b: Seq<u8>, offset: int, width: int) -> u32 {
    if offset < 0 || offset + width > b.len() {
        0
    } else if width == 1 {
        b[offset] as u32
    } else if width == 2 {
        le16(b[offset], b[offset + 1]) as u32
    } else if width == 4 {
        le32(b.subrange(offset, offset + 4))
    } else {
        0
    }
}

/// A configuration image with `width` bytes at `offset` replaced by the
/// low bytes of `value`, little-endian; unchanged for a range beyond the
/// image or another width.
pub open spec fn image_write(b: Seq<u8>, offset: int, width: int, value: u32) -> Seq<u8> {
    if offset < 0 || offset + width > b.len() {
        b
    } else {
        let data = if width == 1 {
            seq![(value % 0x100) as u8]
        } else if width == 2 {
            le16_bytes((value % 0x1_0000) as u16)
        } else if width == 4 {
            le32_bytes(value)
        } else {
            Seq::empty()
        };
        b.subrange(0, offset) + data + b.subrange(offset + data.len(), b.len() as int)
    }
}

/// VirtIO network device configuration space.
#[derive(Debug, Clone, Copy)]
pub struct VirtioNetConfig {
    /// MAC address (6 bytes)
    pub mac: [u8; 6],
    /// Status field (2 bytes)
    pub status: u16,
    /// Maximum number of virtqueue pairs (2 bytes)
    pub max_virtqueue_pairs: u16,
    /// Maximum MTU (2 bytes)
    pub mtu: u16,
}

/// The two bytes of a little-endian 16-bit value encode it again.
proof fn lemma_le16_bytes_of(b0: u8, b1: u8)
    ensures
        le16_bytes(le16(b0, b1)) =~= seq![b0, b1],
{
    let v = b0 as int + b1 as int * 0x100;
    assert(v % 0x100 == b0 && v / 0x100 == b1) by (nonlinear_arith)
        requires
            v == b0 as int + b1 as int * 0x100,
            0 <= b0 < 0x100,
            0 <= b1 < 0x100,
    ;
}

impl VirtioNetConfig {
    /// The configuration space as bytes.
    pub open spec fn spec_bytes(&self) -> Seq<u8> {
        self.mac@ + le16_bytes(self.status) + le16_bytes(self.max_virtqueue_pairs) + le16_bytes(self.mtu)
    }

    /// A configuration with this MAC address, the link up, one queue pair
    /// and the default MTU.
    pub fn new(mac: [u8; 6]) -> (c: Self)
        ensures
            c.mac == mac,
            c.status == VIRTIO_NET_S_LINK_UP,
            c.max_virtqueue_pairs == VIRTIO_NET_DEFAULT_QUEUE_PAIRS,
            c.mtu == VIRTIO_NET_DEFAULT_MTU,
    {
        Self {
            mac,
            status: VIRTIO_NET_S_LINK_UP,
            max_virtqueue_pairs: VIRTIO_NET_DEFAULT_QUEUE_PAIRS,
            mtu: VIRTIO_NET_DEFAULT_MTU,
        }
    }

    /// Whether the link is up.
    pub fn is_link_up(&self) -> (b: bool)
        ensures
            b == (self.status & VIRTIO_NET_S_LINK_UP != 0),
    {
        (self.status & VIRTIO_NET_S_LINK_UP) != 0
    }

    /// Sets or clears the link-up bit, keeping the other status bits.
    pub fn set_link_up(&mut self, up: bool)
        ensures
            final(self).status & VIRTIO_NET_S_LINK_UP == (if up {
                VIRTIO_NET_S_LINK_UP
            } else {
                0u16
            }),
            final(self).status & !VIRTIO_NET_S_LINK_UP == old(self).status & !VIRTIO_NET_S_LINK_UP,
            final(self).mac == old(self).mac,
            final(self).max_virtqueue_pairs == old(self).max_virtqueue_pairs,
            final(self).mtu == old(self).mtu,
    {
        self.status = set_flag16(self.status, VIRTIO_NET_S_LINK_UP, up);
    }

    /// Whether the announce bit is set.
    pub fn should_announce(&self) -> (b: bool)
        ensures
            b == (self.status & VIRTIO_NET_S_ANNOUNCE != 0),
    {
        (self.status & VIRTIO_NET_S_ANNOUNCE) != 0
    }

    /// Sets or clears the announce bit, keeping the other status bits.
    pub fn set_announce(&mut self, announce: bool)
        ensures
            final(self).status & VIRTIO_NET_S_ANNOUNCE == (if announce {
                VIRTIO_NET_S_ANNOUNCE
            } else {
                0u16
            }),
            final(self).status & !VIRTIO_NET_S_ANNOUNCE == old(self).status & !VIRTIO_NET_S_ANNOUNCE,
            final(self).mac == old(self).mac,
            final(self).max_virtqueue_pairs == old(self).max_virtqueue_pairs,
            final(self).mtu == old(self).mtu,
    {
        self.status = set_flag16(self.status, VIRTIO_NET_S_ANNOUNCE, announce);
    }

    /// The configuration space as bytes (see `spec_bytes`).
    pub fn as_bytes(&self) -> (b: Vec<u8>)
        ensures
            b@ == self.spec_bytes(),
    {
        let mut b: Vec<u8> = Vec::with_capacity(VIRTIO_NET_CONFIG_SIZE);
        let mut i: usize = 0;
        while i < 6
            invariant
                i <= 6,
                b@ == self.mac@.subrange(0, i as int),
            decreases 6 - i,
        {
            b.push(self.mac[i]);
            i = i + 1;
            proof {
                assert(b@ =~= self.mac@.subrange(0, i as int));
            }
        }
        b.push((self.status % 0x100) as u8);
        b.push((self.status / 0x100) as u8);
        b.push((self.max_virtqueue_pairs % 0x100) as u8);
        b.push((self.max_virtqueue_pairs / 0x100) as u8);
        b.push((self.mtu % 0x100) as u8);
        b.push((self.mtu / 0x100) as u8);
        proof {
            assert(b@ =~= self.spec_bytes());
        }
        b
    }

    /// The size of the configuration space in bytes.
    pub fn size() -> (n: usize)
        ensures
            n == VIRTIO_NET_CONFIG_SIZE,
    {
        VIRTIO_NET_CONFIG_SIZE
    }

    /// Reads `width` bytes at `offset` of the configuration space (see `image_read`).
    pub fn read_config(&self, offset: u64, width: usize) -> (v: u32)
        ensures
            v == image_read(self.spec_bytes(), offset as int, width as int),
    {
        let bytes = self.as_bytes();
        if offset > VIRTIO_NET_CONFIG_SIZE as u64 || width > VIRTIO_NET_CONFIG_SIZE - offset as usize {
            return 0;
        }
        let offset = offset as usize;
        if width == 1 {
            bytes[offset] as u32
        } else if width == 2 {
            (bytes[offset] as u32) + (bytes[offset + 1] as u32) * 0x100
        } else if width == 4 {
            let lo = (bytes[offset] as u32) + (bytes[offset + 1] as u32) * 0x100;
            let hi = (bytes[offset + 2] as u32) + (bytes[offset + 3] as u32) * 0x100;
            proof {
                assert(bytes@.subrange(offset as int, offset + 4)[2] == bytes@[offset + 2]);
            }
            lo + hi * 0x1_0000
        } else {
            0
        }
    }

    /// Writes `width` bytes at `offset` of the configuration space (see `image_write`).
    pub fn write_config(&mut self, offset: u64, width: usize, value: u32)
        ensures
            final(self).spec_bytes() == image_write(old(self).spec_bytes(), offset as int, width as int, value),
    {
        let mut bytes = self.as_bytes();
        if offset > VIRTIO_NET_CONFIG_SIZE as u64 || width > VIRTIO_NET_CONFIG_SIZE - offset as usize {
            return;
        }
        let offset = offset as usize;
        let ghost b0 = bytes@;
        if width == 1 {
            bytes.set(offset, (value % 0x100) as u8);
        } else if width == 2 {
            let v = (value % 0x1_0000) as u16;
            bytes.set(offset, (v % 0x100) as u8);
            bytes.set(offset + 1, (v / 0x100) as u8);
        } else if width == 4 {
            let lo = (value % 0x1_0000) as u16;
            let hi = (value / 0x1_0000) as u16;
            bytes.set(offset, (lo % 0x100) as u8);
            bytes.set(offset + 1, (lo / 0x100) as u8);
            bytes.set(offset + 2, (hi % 0x100) as u8);
            bytes.set(offset + 3, (hi / 0x100) as u8);
        } else {
            return;
        }
        proof {
            assert(bytes@ =~= image_write(b0, offset as int, width as int, value));
        }
        self.load_bytes(&bytes);
    }

    /// Sets the fields from a configuration image.
    fn load_bytes(&mut self, bytes: &Vec<u8>)
        requires
            bytes@.len() == VIRTIO_NET_CONFIG_SIZE,
        ensures
            final(self).spec_bytes() == bytes@,
    {
        self.mac = [bytes[0], bytes[1], bytes[2], bytes[3], bytes[4], bytes[5]];
        self.status = (bytes[6] as u16) + (bytes[7] as u16) * 0x100;
        self.max_virtqueue_pairs = (bytes[8] as u16) + (bytes[9] as u16) * 0x100;
        self.mtu = (bytes[10] as u16) + (bytes[11] as u16) * 0x100;
        proof {
            lemma_le16_bytes_of(bytes@[6], bytes@[7]);
            lemma_le16_bytes_of(bytes@[8], bytes@[9]);
            lemma_le16_bytes_of(bytes@[10], bytes@[11]);
            assert(self.spec_bytes() =~= bytes@);
        }
    }
}

impl Default for VirtioNetConfig {
    /// The configuration of MAC address 52:54:00:12:34:56.
    fn default() -> (c: Self)
        ensures
            c.mac@ == seq![0x52u8, 0x54, 0x00, 0x12, 0x34, 0x56],
            c.status == VIRTIO_NET_S_LINK_UP,
            c.max_virtqueue_pairs == VIRTIO_NET_DEFAULT_QUEUE_PAIRS,
            c.mtu == VIRTIO_NET_DEFAULT_MTU,
    {
        let c = Self::new([0x52, 0x54, 0x00, 0x12, 0x34, 0x56]);
        assert(c.mac@ =~= seq![0x52u8, 0x54, 0x00, 0x12, 0x34, 0x56]);
        c
    }
}

/// Writing a configuration field and reading it back at the same offset and
/// width gives the value's low bytes.
pub proof fn lemma_config_write_read(c: Seq<u8>, offset: int, width: int, value: u32)
    requires
        0 <= offset,
        offset + width <= c.len(),
        width == 1 || width == 2 || width == 4,
    ensures
        image_read(image_write(c, offset, width, value), offset, width) == (if width == 1 {
            value % 0x100
        } else if width == 2 {
            value % 0x1_0000
        } else {
            value
        }),
{
    let w = image_write(c, offset, width, value);
    if width == 1 {
        assert(w[offset] == (value % 0x100) as u8);
    } else if width == 2 {
        crate::memory::lemma_le16_round_trip((value % 0x1_0000) as u16);
        assert(w[offset] == le16_bytes((value % 0x1_0000) as u16)[0]);
        assert(w[offset + 1] == le16_bytes((value % 0x1_0000) as u16)[1]);
    } else {
        crate::memory::lemma_le32_round_trip(value);
        assert(w.subrange(offset, offset + 4) =~= le32_bytes(value));
    }
}

} // verus!
