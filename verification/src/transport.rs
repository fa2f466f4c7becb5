//! The MMIO transport: access widths, register offsets within a device's
//! window, and the byte encoding of the values that MMIO accesses carry.

use crate::constants::VIRTIO_MMIO_CONFIG_OFFSET;
use crate::error::{VirtioError, VirtioResult};
use crate::memory::{le16, le16_bytes, le32, le32_bytes, le64, le64_bytes};
use vstd::prelude::*;

verus! {

/// The width of an MMIO access.
#[derive(Debug, Clone, Copy, PartialEq, Eq, Structural)]
pub enum AccessWidth {
    /// 8 bits
    Byte,
    /// 16 bits
    Word,
    /// 32 bits
    Dword,
    /// 64 bits
    Qword,
}

impl AccessWidth {
    /// The number of bytes an access of this width moves.
    pub open spec fn spec_size(self) -> nat {
        match self {
            AccessWidth::Byte => 1,
            AccessWidth::Word => 2,
            AccessWidth::Dword => 4,
            AccessWidth::Qword => 8,
        }
    }

    /// The number of bytes an access of this width moves.
    pub fn size(&self) -> (n: usize)
        ensures
            n == self.spec_size(),
    {
        match self {
            AccessWidth::Byte => 1,
            AccessWidth::Word => 2,
            AccessWidth::Dword => 4,
            AccessWidth::Qword => 8,
        }
    }
}

/// Whether `addr` lies in the `size` bytes from `base` on.
pub open spec fn in_window(addr: usize, base: usize, size: usize) -> bool {
    base <= addr && addr - base < size
}

/// The eight bytes that carry `val` in an access of width `w`: its low
/// `w` bytes in little-endian order, then zeros.
pub open spec fn spec_value_to_bytes(val: usize, w: AccessWidth) -> Seq<u8> {
    let data = match w {
        AccessWidth::Byte => seq![(val % 0x100) as u8],
        AccessWidth::Word => le16_bytes((val % 0x1_0000) as u16),
        AccessWidth::Dword => le32_bytes((val as int % 0x1_0000_0000) as u32),
        AccessWidth::Qword => le64_bytes(val as u64),
    };
    data + Seq::new((8 - data.len()) as nat, |i: int| 0u8)
}

/// The value that the first bytes of `data` carry in an access of width `w`.
pub open spec fn spec_bytes_to_value(data: Seq<u8>, w: AccessWidth) -> usize {
    match w {
        AccessWidth::Byte => data[0] as usize,
        AccessWidth::Word => le16(data[0], data[1]) as usize,
        AccessWidth::Dword => le32(data.subrange(0, 4)) as usize,
        AccessWidth::Qword => le64(data.subrange(0, 8)) as usize,
    }
}

/// `val` cut down to the low bytes that an access of width `w` carries.
pub open spec fn truncate_to_width(val: usize, w: AccessWidth) -> usize {
    match w {
        AccessWidth::Byte => val % 0x100,
        AccessWidth::Word => val % 0x1_0000,
        AccessWidth::Dword => (val as int % 0x1_0000_0000) as usize,
        AccessWidth::Qword => val,
    }
}

/// The outcome of validating an MMIO access: `None` for an address outside
/// the window (a read of it gives 0, a write is ignored); inside, the
/// registers before the configuration space take 32-bit accesses only, and
/// the result is the register offset.
pub open spec fn spec_validate_access(addr: usize, width: AccessWidth, base_addr: usize, size: usize) -> VirtioResult<
    Option<usize>,
> {
    if !in_window(addr, base_addr, size) {
        Ok(None)
    } else if addr - base_addr < VIRTIO_MMIO_CONFIG_OFFSET && width != AccessWidth::Dword {
        Err(VirtioError::InvalidAccessWidth)
    } else {
        Ok(Some((addr - base_addr) as usize))
    }
}

/// MMIO transport layer utilities.
pub struct MmioTransport;

impl MmioTransport {
    /// Checks an access width: the VirtIO MMIO registers take 32-bit accesses only.
    pub fn validate_access_width(width: AccessWidth) -> (r: VirtioResult<()>)
        ensures
            r is Ok <==> width == AccessWidth::Dword,
            r is Err ==> r == Err::<(), VirtioError>(VirtioError::InvalidAccessWidth),
    {
        if width != AccessWidth::Dword {
            return Err(VirtioError::InvalidAccessWidth);
        }
        Ok(())
    }

    /// The offset of `addr` from the start of the window at `base_addr`.
    pub fn calculate_offset(addr: usize, base_addr: usize) -> (off: usize)
        requires
            addr >= base_addr,
        ensures
            off == addr - base_addr,
    {
        addr - base_addr
    }

    /// Whether `addr` lies in the `size` bytes from `base_addr` on.
    pub fn is_address_in_range(addr: usize, base_addr: usize, size: usize) -> (b: bool)
        ensures
            b <==> in_window(addr, base_addr, size),
    {
        addr >= base_addr && addr - base_addr < size
    }

    /// Validates an MMIO read: `None` for an address outside the window,
    /// which reads as 0; inside, the registers before the configuration space
    /// take 32-bit accesses only. Returns the register offset.
    pub fn validate_read_access(addr: usize, width: AccessWidth, base_addr: usize, size: usize) -> (r:
        VirtioResult<Option<usize>>)
        ensures
            r == spec_validate_access(addr, width, base_addr, size),
    {
        if !Self::is_address_in_range(addr, base_addr, size) {
            return Ok(None);
        }
        let offset = Self::calculate_offset(addr, base_addr);
        if offset < VIRTIO_MMIO_CONFIG_OFFSET {
            Self::validate_access_width(width)?;
        }
        Ok(Some(offset))
    }

    /// Validates an MMIO write, with the same rules as `validate_read_access`:
    /// `None` for an address outside the window, whose write is ignored.
    pub fn validate_write_access(addr: usize, width: AccessWidth, base_addr: usize, size: usize) -> (r:
        VirtioResult<Option<usize>>)
        ensures
            r == spec_validate_access(addr, width, base_addr, size),
    {
        if !Self::is_address_in_range(addr, base_addr, size) {
            return Ok(None);
        }
        let offset = Self::calculate_offset(addr, base_addr);
        if offset < VIRTIO_MMIO_CONFIG_OFFSET {
            Self::validate_access_width(width)?;
        }
        Ok(Some(offset))
    }

    /// The eight bytes that carry `val` in an access of the given width.
    pub fn value_to_bytes(val: usize, width: AccessWidth) -> (data: [u8; 8])
        ensures
            data@ == spec_value_to_bytes(val, width),
    {
        let mut data = [0u8; 8];
        match width {
            AccessWidth::Byte => {
                data[0] = (val % 0x100) as u8;
            },
            AccessWidth::Word => {
                let v = (val % 0x1_0000) as u16;
                data[0] = (v % 0x100) as u8;
                data[1] = (v / 0x100) as u8;
            },
            AccessWidth::Dword => {
                let v = ((val as u64) % 0x1_0000_0000) as u32;
                let lo = (v % 0x1_0000) as u16;
                let hi = (v / 0x1_0000) as u16;
                data[0] = (lo % 0x100) as u8;
                data[1] = (lo / 0x100) as u8;
                data[2] = (hi % 0x100) as u8;
                data[3] = (hi / 0x100) as u8;
            },
            AccessWidth::Qword => {
                let v = val as u64;
                let l = (v % 0x1_0000_0000) as u32;
                let h = (v / 0x1_0000_0000) as u32;
                let l0 = (l % 0x1_0000) as u16;
                let l1 = (l / 0x1_0000) as u16;
                let h0 = (h % 0x1_0000) as u16;
                let h1 = (h / 0x1_0000) as u16;
                data[0] = (l0 % 0x100) as u8;
                data[1] = (l0 / 0x100) as u8;
                data[2] = (l1 % 0x100) as u8;
                data[3] = (l1 / 0x100) as u8;
                data[4] = (h0 % 0x100) as u8;
                data[5] = (h0 / 0x100) as u8;
                data[6] = (h1 % 0x100) as u8;
                data[7] = (h1 / 0x100) as u8;
            },
        }
        assert(data@ =~= spec_value_to_bytes(val, width));
        data
    }

    /// The value that the first bytes of `data` carry in an access of the
    /// given width; fails when `data` is shorter than the access.
    pub fn bytes_to_value(data: &[u8], width: AccessWidth) -> (r: VirtioResult<usize>)
        ensures
            data@.len() < width.spec_size() ==> r == Err::<usize, VirtioError>(
                VirtioError::InvalidBufferSize,
            ),
            data@.len() >= width.spec_size() ==> r == Ok::<usize, VirtioError>(
                spec_bytes_to_value(data@, width),
            ),
    {
        if data.len() < width.size() {
            return Err(VirtioError::InvalidBufferSize);
        }
        match width {
            AccessWidth::Byte => Ok(data[0] as usize),
            AccessWidth::Word => Ok((data[0] as u16 + data[1] as u16 * 0x100) as usize),
            AccessWidth::Dword => {
                let lo = data[0] as u32 + data[1] as u32 * 0x100;
                let hi = data[2] as u32 + data[3] as u32 * 0x100;
                Ok((lo + hi * 0x1_0000) as usize)
            },
            AccessWidth::Qword => {
                let l = (data[0] as u32 + data[1] as u32 * 0x100) + (data[2] as u32 + data[3] as u32
                    * 0x100) * 0x1_0000;
                let h = (data[4] as u32 + data[5] as u32 * 0x100) + (data[6] as u32 + data[7] as u32
                    * 0x100) * 0x1_0000;
                proof {
                    assert(l == le32(data@.subrange(0, 4)));
                    assert(h == le32(data@.subrange(4, 8)));
                    assert(data@.subrange(0, 8).subrange(0, 4) =~= data@.subrange(0, 4));
                    assert(data@.subrange(0, 8).subrange(4, 8) =~= data@.subrange(4, 8));
                }
                Ok((l as u64 + h as u64 * 0x1_0000_0000) as usize)
            },
        }
    }
}

/// Encoding a value for an access and decoding it again gives back the part
/// of the value that the access width carries.
pub proof fn lemma_value_bytes_round_trip(val: usize, w: AccessWidth)
    ensures
        spec_bytes_to_value(spec_value_to_bytes(val, w), w) == truncate_to_width(val, w),
{
    let b = spec_value_to_bytes(val, w);
    match w {
        AccessWidth::Byte => {},
        AccessWidth::Word => {
            crate::memory::lemma_le16_round_trip((val % 0x1_0000) as u16);
        },
        AccessWidth::Dword => {
            let v = (val as int % 0x1_0000_0000) as u32;
            crate::memory::lemma_le32_round_trip(v);
            assert(b.subrange(0, 4) =~= le32_bytes(v));
        },
        AccessWidth::Qword => {
            crate::memory::lemma_le64_round_trip(val as u64);
            assert(b.subrange(0, 8) =~= le64_bytes(val as u64));
        },
    }
}

} // verus!
