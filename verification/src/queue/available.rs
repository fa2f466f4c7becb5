//! The available ring: where the guest offers descriptor chains to the device.

use crate::constants::{VIRTQ_AVAIL_F_NO_INTERRUPT, VIRTQ_RING_HEADER_SIZE};
use crate::error::{VirtioError, VirtioResult};
use crate::flags::set_flag16;
use crate::memory::{
    GuestMemoryAccess, le16_bytes, mem_u16, range_mapped, read_u16, store_bytes, write_bytes,
    write_u16,
};
use vstd::prelude::*;

verus! {

/// The header of the available ring (it is followed in guest memory by
/// `ring[queue_size]: u16` and, with EVENT_IDX, `used_event: u16`).
#[derive(Debug, Clone, Copy, PartialEq, Eq, Structural)]
pub struct VirtqAvail {
    /// Flags
    pub flags: u16,
    /// Index of the next available descriptor
    pub idx: u16,
}

impl VirtqAvail {
    /// Whether the driver asked the device not to interrupt.
    pub open spec fn spec_no_interrupt(&self) -> bool {
        self.flags & VIRTQ_AVAIL_F_NO_INTERRUPT != 0
    }

    /// An available ring header with no flags and index 0.
    pub fn new() -> (h: Self)
        ensures
            h == (VirtqAvail { flags: 0, idx: 0 }),
    {
        Self { flags: 0, idx: 0 }
    }

    /// Whether interrupts are disabled.
    pub fn no_interrupt(&self) -> (b: bool)
        ensures
            b == self.spec_no_interrupt(),
    {
        (self.flags & VIRTQ_AVAIL_F_NO_INTERRUPT) != 0
    }

    /// Sets or clears the NO_INTERRUPT flag, leaving the other flags and the index.
    pub fn set_no_interrupt(&mut self, no_interrupt: bool)
        ensures
            final(self).spec_no_interrupt() == no_interrupt,
            final(self).flags & !VIRTQ_AVAIL_F_NO_INTERRUPT == old(self).flags
                & !VIRTQ_AVAIL_F_NO_INTERRUPT,
            final(self).idx == old(self).idx,
    {
        self.flags = set_flag16(self.flags, VIRTQ_AVAIL_F_NO_INTERRUPT, no_interrupt);
    }
}

/// How far ring index `a` is ahead of ring index `b`, counting modulo 2^16.
pub open spec fn ring_distance(a: u16, b: u16) -> u16 {
    ((a - b) % 0x1_0000) as u16
}

/// Moving one slot on from ring index `cur`, `n` slots after `start` and
/// short of `avail`, is `n + 1` slots after `start` and one slot closer to `avail`.
pub proof fn lemma_ring_step(avail: u16, start: u16, cur: u16, n: nat)
    requires
        cur != avail,
        cur == ((start + n) % 0x1_0000) as u16,
        n + ring_distance(avail, cur) == ring_distance(avail, start),
    ensures
        ((cur + 1) % 0x1_0000) as u16 == ((start + n + 1) % 0x1_0000) as u16,
        (n + 1) + ring_distance(avail, ((cur + 1) % 0x1_0000) as u16) == ring_distance(avail, start),
{
}

/// Moving ring index `cur`, short of `avail`, on by one brings it one
/// step closer to `avail`.
pub proof fn lemma_ring_advance(avail: u16, cur: u16)
    requires
        cur != avail,
    ensures
        ring_distance(avail, ((cur + 1) % 0x1_0000) as u16) == ring_distance(avail, cur) - 1,
        ring_distance(avail, cur) > 0,
{
}

/// The available ring header stored at guest address `a`.
pub open spec fn avail_header_at(m: Map<int, u8>, a: int) -> VirtqAvail {
    VirtqAvail { flags: mem_u16(m, a), idx: mem_u16(m, a + 2) }
}

/// Available ring management.
#[derive(Debug, Clone, Copy)]
pub struct AvailableRing {
    /// Base address of the available ring
    pub base_addr: usize,
    /// Queue size
    pub size: u16,
    /// Last seen available index
    pub last_avail_idx: u16,
}

impl AvailableRing {
    /// Well-formedness: the whole ring, `used_event` included, lies within the
    /// address space.
    pub open spec fn wf(&self) -> bool {
        self.base_addr + VIRTQ_RING_HEADER_SIZE + self.size * 2 + 2 <= usize::MAX
    }

    /// Whether the ring has an address and at least one entry.
    pub open spec fn spec_is_valid(&self) -> bool {
        self.base_addr != 0 && self.size > 0
    }

    /// The address of ring entry `index`.
    pub open spec fn spec_entry_addr(&self, index: int) -> int {
        self.base_addr + VIRTQ_RING_HEADER_SIZE + index * 2
    }

    /// The address of the `used_event` field.
    pub open spec fn spec_used_event_addr(&self) -> int {
        self.base_addr + VIRTQ_RING_HEADER_SIZE + self.size * 2
    }

    /// Creates an available ring that has seen no index yet.
    pub fn new(base_addr: usize, size: u16) -> (r: Self)
        requires
            base_addr + VIRTQ_RING_HEADER_SIZE + size * 2 + 2 <= usize::MAX,
        ensures
            r.wf(),
            r == (AvailableRing { base_addr, size, last_avail_idx: 0 }),
    {
        Self { base_addr, size, last_avail_idx: 0 }
    }

    /// The address of the ring header.
    pub fn header_addr(&self) -> (a: usize)
        ensures
            a == self.base_addr,
    {
        self.base_addr
    }

    /// The address of the ring array.
    pub fn ring_addr(&self) -> (a: usize)
        requires
            self.wf(),
        ensures
            a == self.base_addr + VIRTQ_RING_HEADER_SIZE,
    {
        self.base_addr + VIRTQ_RING_HEADER_SIZE
    }

    /// The address of a ring entry, or `None` past the end of the ring.
    pub fn ring_entry_addr(&self, index: u16) -> (a: Option<usize>)
        requires
            self.wf(),
        ensures
            a == (if index < self.size {
                Some(self.spec_entry_addr(index as int) as usize)
            } else {
                None
            }),
    {
        if index >= self.size {
            return None;
        }
        Some(self.base_addr + VIRTQ_RING_HEADER_SIZE + index as usize * 2)
    }

    /// The address of the `used_event` field.
    pub fn used_event_addr(&self) -> (a: usize)
        requires
            self.wf(),
        ensures
            a == self.spec_used_event_addr(),
    {
        self.base_addr + VIRTQ_RING_HEADER_SIZE + self.size as usize * 2
    }

    /// The size of the ring in bytes, `used_event` included.
    pub fn total_size(&self) -> (n: usize)
        ensures
            n == VIRTQ_RING_HEADER_SIZE + self.size * 2 + 2,
    {
        VIRTQ_RING_HEADER_SIZE + (self.size as usize * 2) + 2
    }

    /// Whether the ring has an address and at least one entry.
    pub fn is_valid(&self) -> (b: bool)
        ensures
            b == self.spec_is_valid(),
    {
        self.base_addr != 0 && self.size > 0
    }

    /// Whether the guest has made descriptors available beyond the last seen index.
    pub fn has_new_avail(&self, current_idx: u16) -> (b: bool)
        ensures
            b == (current_idx != self.last_avail_idx),
    {
        current_idx != self.last_avail_idx
    }

    /// Records the last seen available index.
    pub fn update_last_avail_idx(&mut self, idx: u16)
        ensures
            *final(self) == (AvailableRing { last_avail_idx: idx, ..*old(self) }),
    {
        self.last_avail_idx = idx;
    }

    /// Reads the ring header from guest memory.
    pub fn read_avail_header<M: GuestMemoryAccess>(&self, mem: &M) -> (r: VirtioResult<VirtqAvail>)
        requires
            self.wf(),
        ensures
            r == (if !self.spec_is_valid() {
                Err(VirtioError::QueueNotReady)
            } else if !range_mapped(mem.mem(), self.base_addr as int, 4) {
                Err(VirtioError::InvalidAddress)
            } else {
                Ok(avail_header_at(mem.mem(), self.base_addr as int))
            }),
    {
        if !self.is_valid() {
            return Err(VirtioError::QueueNotReady);
        }
        if !mem.check_range(self.base_addr, 4) {
            return Err(VirtioError::InvalidAddress);
        }
        proof {
            let m = mem.mem();
            assert(range_mapped(m, self.base_addr as int, 2)) by {
                assert forall|i: int| 0 <= i < 2 implies #[trigger] m.dom().contains(
                    self.base_addr + i,
                ) by {}
            }
            assert(range_mapped(m, self.base_addr + 2, 2)) by {
                assert forall|i: int| 0 <= i < 2 implies #[trigger] m.dom().contains(
                    self.base_addr + 2 + i,
                ) by {
                    assert(m.dom().contains(self.base_addr + (2 + i)));
                }
            }
        }
        let flags = read_u16(mem, self.base_addr).unwrap();
        let idx = read_u16(mem, self.base_addr + 2).unwrap();
        Ok(VirtqAvail { flags, idx })
    }

    /// Writes the ring header into guest memory.
    pub fn write_avail_header<M: GuestMemoryAccess>(&self, mem: &mut M, header: &VirtqAvail) -> (r:
        VirtioResult<()>)
        requires
            self.wf(),
        ensures
            match r {
                Ok(_) => self.spec_is_valid() && range_mapped(old(mem).mem(), self.base_addr as int, 4)
                    && final(mem).mem() == store_bytes(
                    old(mem).mem(),
                    self.base_addr as int,
                    le16_bytes(header.flags) + le16_bytes(header.idx),
                ),
                Err(e) => final(mem).mem() == old(mem).mem() && e == (if !self.spec_is_valid() {
                    VirtioError::QueueNotReady
                } else {
                    VirtioError::InvalidAddress
                }) && !(self.spec_is_valid() && range_mapped(
                    old(mem).mem(),
                    self.base_addr as int,
                    4,
                )),
            },
    {
        if !self.is_valid() {
            return Err(VirtioError::QueueNotReady);
        }
        let b = [
            (header.flags % 0x100) as u8,
            (header.flags / 0x100) as u8,
            (header.idx % 0x100) as u8,
            (header.idx / 0x100) as u8,
        ];
        assert(b@ =~= le16_bytes(header.flags) + le16_bytes(header.idx));
        let r = write_bytes(mem, self.base_addr, &b);
        assert(b@.len() == 4);
        r
    }

    /// Reads the index that the guest will fill next.
    pub fn read_avail_idx<M: GuestMemoryAccess>(&self, mem: &M) -> (r: VirtioResult<u16>)
        requires
            self.wf(),
        ensures
            r == (if !self.spec_is_valid() {
                Err(VirtioError::QueueNotReady)
            } else if !range_mapped(mem.mem(), self.base_addr + 2, 2) {
                Err(VirtioError::InvalidAddress)
            } else {
                Ok(mem_u16(mem.mem(), self.base_addr + 2))
            }),
    {
        if !self.is_valid() {
            return Err(VirtioError::QueueNotReady);
        }
        read_u16(mem, self.base_addr + 2)
    }

    /// Reads the index that the guest will fill next (alias of `read_avail_idx`).
    pub fn get_avail_idx<M: GuestMemoryAccess>(&self, mem: &M) -> (r: VirtioResult<u16>)
        requires
            self.wf(),
        ensures
            r == (if !self.spec_is_valid() {
                Err(VirtioError::QueueNotReady)
            } else if !range_mapped(mem.mem(), self.base_addr + 2, 2) {
                Err(VirtioError::InvalidAddress)
            } else {
                Ok(mem_u16(mem.mem(), self.base_addr + 2))
            }),
    {
        self.read_avail_idx(mem)
    }

    /// Reads the descriptor index in ring slot `ring_index` modulo the ring size.
    pub fn read_avail_ring_entry<M: GuestMemoryAccess>(&self, mem: &M, ring_index: u16) -> (r:
        VirtioResult<u16>)
        requires
            self.wf(),
        ensures
            r == (if !self.spec_is_valid() {
                Err(VirtioError::QueueNotReady)
            } else if !range_mapped(
                mem.mem(),
                self.spec_entry_addr((ring_index % self.size) as int),
                2,
            ) {
                Err(VirtioError::InvalidAddress)
            } else {
                Ok(mem_u16(mem.mem(), self.spec_entry_addr((ring_index % self.size) as int)))
            }),
    {
        if !self.is_valid() {
            return Err(VirtioError::QueueNotReady);
        }
        let entry_addr = match self.ring_entry_addr(ring_index % self.size) {
            Some(a) => a,
            None => return Err(VirtioError::InvalidQueue),
        };
        read_u16(mem, entry_addr)
    }

    /// Writes a descriptor index into ring slot `ring_index` modulo the ring size.
    pub fn write_avail_ring_entry<M: GuestMemoryAccess>(
        &self,
        mem: &mut M,
        ring_index: u16,
        desc_index: u16,
    ) -> (r: VirtioResult<()>)
        requires
            self.wf(),
        ensures
            match r {
                Ok(_) => self.spec_is_valid() && final(mem).mem() == store_bytes(
                    old(mem).mem(),
                    self.spec_entry_addr((ring_index % self.size) as int),
                    le16_bytes(desc_index),
                ),
                Err(e) => final(mem).mem() == old(mem).mem() && e == (if !self.spec_is_valid() {
                    VirtioError::QueueNotReady
                } else {
                    VirtioError::InvalidAddress
                }),
            },
            r is Ok <==> self.spec_is_valid() && range_mapped(
                old(mem).mem(),
                self.spec_entry_addr((ring_index % self.size) as int),
                2,
            ),
    {
        if !self.is_valid() {
            return Err(VirtioError::QueueNotReady);
        }
        let entry_addr = match self.ring_entry_addr(ring_index % self.size) {
            Some(a) => a,
            None => return Err(VirtioError::InvalidQueue),
        };
        write_u16(mem, entry_addr, desc_index)
    }

    /// The number of descriptors made available since the last seen index,
    /// counted modulo 2^16.
    pub fn get_available_count<M: GuestMemoryAccess>(&self, mem: &M) -> (r: VirtioResult<u16>)
        requires
            self.wf(),
        ensures
            r == (match self.read_avail_idx_spec(mem.mem()) {
                Ok(idx) => Ok(ring_distance(idx, self.last_avail_idx)),
                Err(e) => Err(e),
            }),
    {
        let current_idx = self.read_avail_idx(mem)?;
        Ok(current_idx.wrapping_sub(self.last_avail_idx))
    }

    /// The available index as `read_avail_idx` reads it.
    pub open spec fn read_avail_idx_spec(&self, m: Map<int, u8>) -> VirtioResult<u16> {
        if !self.spec_is_valid() {
            Err(VirtioError::QueueNotReady)
        } else if !range_mapped(m, self.base_addr + 2, 2) {
            Err(VirtioError::InvalidAddress)
        } else {
            Ok(mem_u16(m, self.base_addr + 2))
        }
    }

    /// Whether the driver suppressed interrupts (the NO_INTERRUPT flag).
    pub fn interrupts_suppressed<M: GuestMemoryAccess>(&self, mem: &M) -> (r: VirtioResult<bool>)
        requires
            self.wf(),
        ensures
            r == (if !self.spec_is_valid() {
                Err(VirtioError::QueueNotReady)
            } else if !range_mapped(mem.mem(), self.base_addr as int, 4) {
                Err(VirtioError::InvalidAddress)
            } else {
                Ok(avail_header_at(mem.mem(), self.base_addr as int).spec_no_interrupt())
            }),
    {
        let header = self.read_avail_header(mem)?;
        Ok(header.no_interrupt())
    }

    /// Sets or clears the NO_INTERRUPT flag in the ring header in guest memory.
    pub fn set_interrupt_suppression<M: GuestMemoryAccess>(&self, mem: &mut M, suppress: bool) -> (r:
        VirtioResult<()>)
        requires
            self.wf(),
        ensures
            match r {
                Ok(_) => self.spec_is_valid() && range_mapped(old(mem).mem(), self.base_addr as int, 4)
                    && {
                    let h = avail_header_at(final(mem).mem(), self.base_addr as int);
                    let h0 = avail_header_at(old(mem).mem(), self.base_addr as int);
                    &&& h.spec_no_interrupt() == suppress
                    &&& h.flags & !VIRTQ_AVAIL_F_NO_INTERRUPT == h0.flags & !VIRTQ_AVAIL_F_NO_INTERRUPT
                    &&& h.idx == h0.idx
                },
                Err(e) => final(mem).mem() == old(mem).mem() && e == (if !self.spec_is_valid() {
                    VirtioError::QueueNotReady
                } else {
                    VirtioError::InvalidAddress
                }),
            },
    {
        let mut header = self.read_avail_header(mem)?;
        header.set_no_interrupt(suppress);
        let r = self.write_avail_header(mem, &header);
        proof {
            if r is Ok {
                let m0 = old(mem).mem();
                let s = le16_bytes(header.flags) + le16_bytes(header.idx);
                crate::memory::lemma_store_bytes_read_back(m0, self.base_addr as int, s);
                let m1 = mem.mem();
                assert(crate::memory::bytes_at(m1, self.base_addr as int, 4)[0] == m1[self.base_addr + 0]);
                assert(crate::memory::bytes_at(m1, self.base_addr as int, 4)[1] == m1[self.base_addr + 1]);
                assert(crate::memory::bytes_at(m1, self.base_addr as int, 4)[2] == m1[self.base_addr + 2]);
                assert(crate::memory::bytes_at(m1, self.base_addr as int, 4)[3] == m1[self.base_addr + 3]);
                crate::memory::lemma_le16_round_trip(header.flags);
                crate::memory::lemma_le16_round_trip(header.idx);
            }
        }
        r
    }

    /// Reads the `used_event` field.
    pub fn read_used_event<M: GuestMemoryAccess>(&self, mem: &M) -> (r: VirtioResult<u16>)
        requires
            self.wf(),
        ensures
            r == (if !self.spec_is_valid() {
                Err(VirtioError::QueueNotReady)
            } else if !range_mapped(mem.mem(), self.spec_used_event_addr(), 2) {
                Err(VirtioError::InvalidAddress)
            } else {
                Ok(mem_u16(mem.mem(), self.spec_used_event_addr()))
            }),
    {
        if !self.is_valid() {
            return Err(VirtioError::QueueNotReady);
        }
        let event_addr = self.used_event_addr();
        read_u16(mem, event_addr)
    }

    /// Writes the `used_event` field.
    pub fn write_used_event<M: GuestMemoryAccess>(&self, mem: &mut M, event: u16) -> (r: VirtioResult<
        (),
    >)
        requires
            self.wf(),
        ensures
            match r {
                Ok(_) => self.spec_is_valid() && final(mem).mem() == store_bytes(
                    old(mem).mem(),
                    self.spec_used_event_addr(),
                    le16_bytes(event),
                ),
                Err(e) => final(mem).mem() == old(mem).mem() && e == (if !self.spec_is_valid() {
                    VirtioError::QueueNotReady
                } else {
                    VirtioError::InvalidAddress
                }),
            },
            r is Ok <==> self.spec_is_valid() && range_mapped(
                old(mem).mem(),
                self.spec_used_event_addr(),
                2,
            ),
    {
        if !self.is_valid() {
            return Err(VirtioError::QueueNotReady);
        }
        let event_addr = self.used_event_addr();
        write_u16(mem, event_addr, event)
    }
}

} // verus!
