//! The used ring: where the device returns finished descriptor chains to the guest.

use crate::constants::{VIRTQ_RING_HEADER_SIZE, VIRTQ_USED_ELEM_SIZE, VIRTQ_USED_F_NO_NOTIFY};
use crate::error::{VirtioError, VirtioResult};
use crate::flags::set_flag16;
use crate::memory::{
    GuestMemoryAccess, le16_bytes, le32_bytes, mem_u16, mem_u32, range_mapped, read_u16,
    store_bytes, write_bytes, write_u16,
};
use vstd::prelude::*;

verus! {

/// An element of the used ring: the head of a finished chain and the number
/// of bytes the device wrote into it.
#[derive(Debug, Clone, Copy, PartialEq, Eq, Structural)]
pub struct VirtqUsedElem {
    /// Index of the start of the used descriptor chain
    pub id: u32,
    /// Total length of the descriptor chain which was used
    pub len: u32,
}

impl VirtqUsedElem {
    /// Creates a used element.
    pub fn new(id: u32, len: u32) -> (e: Self)
        ensures
            e == (VirtqUsedElem { id, len }),
    {
        Self { id, len }
    }

    /// The head index of the finished chain.
    pub fn id(&self) -> (r: u32)
        ensures
            r == self.id,
    {
        self.id
    }

    /// The number of bytes written into the chain.
    pub fn len(&self) -> (r: u32)
        ensures
            r == self.len,
    {
        self.len
    }
}

/// The header of the used ring (it is followed in guest memory by
/// `ring[queue_size]: VirtqUsedElem` and, with EVENT_IDX, `avail_event: u16`).
#[derive(Debug, Clone, Copy, PartialEq, Eq, Structural)]
pub struct VirtqUsed {
    /// Flags
    pub flags: u16,
    /// Index of the next used element
    pub idx: u16,
}

impl VirtqUsed {
    /// Whether the device asked the driver not to notify.
    pub open spec fn spec_no_notify(&self) -> bool {
        self.flags & VIRTQ_USED_F_NO_NOTIFY != 0
    }

    /// A used ring header with no flags and index 0.
    pub fn new() -> (h: Self)
        ensures
            h == (VirtqUsed { flags: 0, idx: 0 }),
    {
        Self { flags: 0, idx: 0 }
    }

    /// Whether notifications are disabled.
    pub fn no_notify(&self) -> (b: bool)
        ensures
            b == self.spec_no_notify(),
    {
        (self.flags & VIRTQ_USED_F_NO_NOTIFY) != 0
    }

    /// Sets or clears the NO_NOTIFY flag, leaving the other flags and the index.
    pub fn set_no_notify(&mut self, no_notify: bool)
        ensures
            final(self).spec_no_notify() == no_notify,
            final(self).flags & !VIRTQ_USED_F_NO_NOTIFY == old(self).flags & !VIRTQ_USED_F_NO_NOTIFY,
            final(self).idx == old(self).idx,
    {
        self.flags = set_flag16(self.flags, VIRTQ_USED_F_NO_NOTIFY, no_notify);
    }
}

/// The used ring header stored at guest address `a`.
pub open spec fn used_header_at(m: Map<int, u8>, a: int) -> VirtqUsed {
    VirtqUsed { flags: mem_u16(m, a), idx: mem_u16(m, a + 2) }
}

/// The used element stored at guest address `a`.
pub open spec fn used_elem_at(m: Map<int, u8>, a: int) -> VirtqUsedElem {
    VirtqUsedElem { id: mem_u32(m, a), len: mem_u32(m, a + 4) }
}

/// The eight bytes that store a used element.
pub open spec fn used_elem_bytes(id: u32, len: u32) -> Seq<u8> {
    le32_bytes(id) + le32_bytes(len)
}

/// Ring index `i` advanced by one, modulo 2^16.
pub open spec fn next_index(i: u16) -> u16 {
    ((i + 1) % 0x1_0000) as u16
}

/// Used ring management.
#[derive(Debug, Clone, Copy)]
pub struct UsedRing {
    /// Base address of the used ring
    pub base_addr: usize,
    /// Queue size
    pub size: u16,
    /// Current used index
    pub used_idx: u16,
}

impl UsedRing {
    /// Well-formedness: the whole ring, `avail_event` included, lies within
    /// the address space.
    pub open spec fn wf(&self) -> bool {
        self.base_addr + VIRTQ_RING_HEADER_SIZE + self.size * VIRTQ_USED_ELEM_SIZE + 2 <= usize::MAX
    }

    /// Whether the ring has an address and at least one entry.
    pub open spec fn spec_is_valid(&self) -> bool {
        self.base_addr != 0 && self.size > 0
    }

    /// The address of ring entry `index`.
    pub open spec fn spec_entry_addr(&self, index: int) -> int {
        self.base_addr + VIRTQ_RING_HEADER_SIZE + index * VIRTQ_USED_ELEM_SIZE
    }

    /// The address of the `avail_event` field.
    pub open spec fn spec_avail_event_addr(&self) -> int {
        self.base_addr + VIRTQ_RING_HEADER_SIZE + self.size * VIRTQ_USED_ELEM_SIZE
    }

    /// The slot that the next used element goes to.
    pub open spec fn spec_next_slot(&self) -> int {
        self.spec_entry_addr((self.used_idx % self.size) as int)
    }

    /// Creates a used ring whose index is 0.
    pub fn new(base_addr: usize, size: u16) -> (r: Self)
        requires
            base_addr + VIRTQ_RING_HEADER_SIZE + size * VIRTQ_USED_ELEM_SIZE + 2 <= usize::MAX,
        ensures
            r.wf(),
            r == (UsedRing { base_addr, size, used_idx: 0 }),
    {
        Self { base_addr, size, used_idx: 0 }
    }

    /// The address of the ring header.
    pub fn header_addr(&self) -> (a: usize)
        ensures
            a == self.base_addr,
    {
        self.base_addr
    }

    /// The address of the ring array.
    pub fn ring_addr(&self) -> (a: usize)
        requires
            self.wf(),
        ensures
            a == self.base_addr + VIRTQ_RING_HEADER_SIZE,
    {
        self.base_addr + VIRTQ_RING_HEADER_SIZE
    }

    /// The address of a ring entry, or `None` past the end of the ring.
    pub fn ring_entry_addr(&self, index: u16) -> (a: Option<usize>)
        requires
            self.wf(),
        ensures
            a == (if index < self.size {
                Some(self.spec_entry_addr(index as int) as usize)
            } else {
                None
            }),
    {
        if index >= self.size {
            return None;
        }
        Some(self.base_addr + VIRTQ_RING_HEADER_SIZE + index as usize * VIRTQ_USED_ELEM_SIZE)
    }

    /// The address of the `avail_event` field.
    pub fn avail_event_addr(&self) -> (a: usize)
        requires
            self.wf(),
        ensures
            a == self.spec_avail_event_addr(),
    {
        self.base_addr + VIRTQ_RING_HEADER_SIZE + self.size as usize * VIRTQ_USED_ELEM_SIZE
    }

    /// The size of the ring in bytes, `avail_event` included.
    pub fn total_size(&self) -> (n: usize)
        ensures
            n == VIRTQ_RING_HEADER_SIZE + self.size * VIRTQ_USED_ELEM_SIZE + 2,
    {
        VIRTQ_RING_HEADER_SIZE + (self.size as usize * VIRTQ_USED_ELEM_SIZE) + 2
    }

    /// Whether the ring has an address and at least one entry.
    pub fn is_valid(&self) -> (b: bool)
        ensures
            b == self.spec_is_valid(),
    {
        self.base_addr != 0 && self.size > 0
    }

    /// Publishes a finished chain: writes the element (`id`, `len`) into the
    /// slot of the current index, advances the index by one (modulo 2^16),
    /// and writes the new index into the ring header.
    pub fn add_used<M: GuestMemoryAccess>(&mut self, mem: &mut M, id: u32, len: u32) -> (r: VirtioResult<
        (),
    >)
        requires
            old(self).wf(),
        ensures
            final(self).wf(),
            final(self).base_addr == old(self).base_addr,
            final(self).size == old(self).size,
            match r {
                Ok(_) => {
                    &&& old(self).spec_is_valid()
                    &&& final(self).used_idx == next_index(old(self).used_idx)
                    &&& range_mapped(old(mem).mem(), old(self).spec_next_slot(), 8)
                    &&& range_mapped(old(mem).mem(), old(self).base_addr + 2, 2)
                    &&& final(mem).mem() == store_bytes(
                        store_bytes(
                            old(mem).mem(),
                            old(self).spec_next_slot(),
                            used_elem_bytes(id, len),
                        ),
                        old(self).base_addr + 2,
                        le16_bytes(final(self).used_idx),
                    )
                },
                Err(e) => if !old(self).spec_is_valid() {
                    e == VirtioError::QueueNotReady && *final(self) == *old(self) && final(mem).mem()
                        == old(mem).mem()
                } else if !range_mapped(old(mem).mem(), old(self).spec_next_slot(), 8) {
                    e == VirtioError::InvalidAddress && *final(self) == *old(self) && final(mem).mem()
                        == old(mem).mem()
                } else {
                    &&& e == VirtioError::InvalidAddress
                    &&& !range_mapped(old(mem).mem(), old(self).base_addr + 2, 2)
                    &&& final(self).used_idx == next_index(old(self).used_idx)
                    &&& final(mem).mem() == store_bytes(
                        old(mem).mem(),
                        old(self).spec_next_slot(),
                        used_elem_bytes(id, len),
                    )
                },
            },
    {
        if !self.is_valid() {
            return Err(VirtioError::QueueNotReady);
        }
        let ring_index = self.used_idx % self.size;
        let elem_addr = match self.ring_entry_addr(ring_index) {
            Some(a) => a,
            None => return Err(VirtioError::InvalidQueue),
        };
        let i0 = (id % 0x1_0000) as u16;
        let i1 = (id / 0x1_0000) as u16;
        let n0 = (len % 0x1_0000) as u16;
        let n1 = (len / 0x1_0000) as u16;
        let bytes = [
            (i0 % 0x100) as u8,
            (i0 / 0x100) as u8,
            (i1 % 0x100) as u8,
            (i1 / 0x100) as u8,
            (n0 % 0x100) as u8,
            (n0 / 0x100) as u8,
            (n1 % 0x100) as u8,
            (n1 / 0x100) as u8,
        ];
        assert(bytes@ =~= used_elem_bytes(id, len));
        let w = write_bytes(mem, elem_addr, &bytes);
        assert(bytes@.len() == 8);
        if w.is_err() {
            return Err(VirtioError::InvalidAddress);
        }
        self.used_idx = self.used_idx.wrapping_add(1);
        let ghost mid = mem.mem();
        let r = self.write_used_idx(mem);
        proof {
            crate::memory::lemma_store_bytes_read_back(
                old(mem).mem(),
                old(self).spec_next_slot(),
                used_elem_bytes(id, len),
            );
            assert forall|k: int, n: int|
                0 <= k && 0 <= n && k + n <= 2 implies #[trigger] range_mapped(
                old(mem).mem(),
                old(self).base_addr + 2 + k,
                n,
            ) == range_mapped(mid, old(self).base_addr + 2 + k, n) by {}
        }
        r
    }

    /// Writes the current used index into the ring header.
    pub fn write_used_idx<M: GuestMemoryAccess>(&self, mem: &mut M) -> (r: VirtioResult<()>)
        requires
            self.wf(),
        ensures
            match r {
                Ok(_) => self.spec_is_valid() && range_mapped(old(mem).mem(), self.base_addr + 2, 2)
                    && final(mem).mem() == store_bytes(
                    old(mem).mem(),
                    self.base_addr + 2,
                    le16_bytes(self.used_idx),
                ),
                Err(e) => final(mem).mem() == old(mem).mem() && e == (if !self.spec_is_valid() {
                    VirtioError::QueueNotReady
                } else {
                    VirtioError::InvalidAddress
                }) && !(self.spec_is_valid() && range_mapped(
                    old(mem).mem(),
                    self.base_addr + 2,
                    2,
                )),
            },
    {
        if !self.is_valid() {
            return Err(VirtioError::QueueNotReady);
        }
        write_u16(mem, self.base_addr + 2, self.used_idx)
    }

    /// Reads the ring header from guest memory.
    pub fn read_used_header<M: GuestMemoryAccess>(&self, mem: &M) -> (r: VirtioResult<VirtqUsed>)
        requires
            self.wf(),
        ensures
            r == (if !self.spec_is_valid() {
                Err(VirtioError::QueueNotReady)
            } else if !range_mapped(mem.mem(), self.base_addr as int, 4) {
                Err(VirtioError::InvalidAddress)
            } else {
                Ok(used_header_at(mem.mem(), self.base_addr as int))
            }),
    {
        if !self.is_valid() {
            return Err(VirtioError::QueueNotReady);
        }
        if !mem.check_range(self.base_addr, 4) {
            return Err(VirtioError::InvalidAddress);
        }
        proof {
            let m = mem.mem();
            assert(range_mapped(m, self.base_addr as int, 2)) by {
                assert forall|i: int| 0 <= i < 2 implies #[trigger] m.dom().contains(
                    self.base_addr + i,
                ) by {}
            }
            assert(range_mapped(m, self.base_addr + 2, 2)) by {
                assert forall|i: int| 0 <= i < 2 implies #[trigger] m.dom().contains(
                    self.base_addr + 2 + i,
                ) by {
                    assert(m.dom().contains(self.base_addr + (2 + i)));
                }
            }
        }
        let flags = read_u16(mem, self.base_addr).unwrap();
        let idx = read_u16(mem, self.base_addr + 2).unwrap();
        Ok(VirtqUsed { flags, idx })
    }

    /// Writes the ring header into guest memory.
    pub fn write_used_header<M: GuestMemoryAccess>(&self, mem: &mut M, header: &VirtqUsed) -> (r:
        VirtioResult<()>)
        requires
            self.wf(),
        ensures
            match r {
                Ok(_) => self.spec_is_valid() && range_mapped(old(mem).mem(), self.base_addr as int, 4)
                    && final(mem).mem() == store_bytes(
                    old(mem).mem(),
                    self.base_addr as int,
                    le16_bytes(header.flags) + le16_bytes(header.idx),
                ),
                Err(e) => final(mem).mem() == old(mem).mem() && e == (if !self.spec_is_valid() {
                    VirtioError::QueueNotReady
                } else {
                    VirtioError::InvalidAddress
                }) && !(self.spec_is_valid() && range_mapped(
                    old(mem).mem(),
                    self.base_addr as int,
                    4,
                )),
            },
    {
        if !self.is_valid() {
            return Err(VirtioError::QueueNotReady);
        }
        let b = [
            (header.flags % 0x100) as u8,
            (header.flags / 0x100) as u8,
            (header.idx % 0x100) as u8,
            (header.idx / 0x100) as u8,
        ];
        assert(b@ =~= le16_bytes(header.flags) + le16_bytes(header.idx));
        let r = write_bytes(mem, self.base_addr, &b);
        assert(b@.len() == 4);
        r
    }

    /// The current used index.
    pub fn get_used_idx(&self) -> (i: u16)
        ensures
            i == self.used_idx,
    {
        self.used_idx
    }

    /// Sets the used index.
    pub fn set_used_idx(&mut self, idx: u16)
        ensures
            *final(self) == (UsedRing { used_idx: idx, ..*old(self) }),
    {
        self.used_idx = idx;
    }

    /// Whether the driver wants notifications: the NO_NOTIFY flag of the
    /// header in guest memory is clear.
    pub fn should_notify<M: GuestMemoryAccess>(&self, mem: &M) -> (r: VirtioResult<bool>)
        requires
            self.wf(),
        ensures
            r == (if !self.spec_is_valid() {
                Err(VirtioError::QueueNotReady)
            } else if !range_mapped(mem.mem(), self.base_addr as int, 4) {
                Err(VirtioError::InvalidAddress)
            } else {
                Ok(!used_header_at(mem.mem(), self.base_addr as int).spec_no_notify())
            }),
    {
        if !self.is_valid() {
            return Err(VirtioError::QueueNotReady);
        }
        let header = self.read_used_header(mem)?;
        Ok(!header.no_notify())
    }

    /// Sets or clears the NO_NOTIFY flag of the header in guest memory.
    pub fn set_notification<M: GuestMemoryAccess>(&self, mem: &mut M, suppress: bool) -> (r:
        VirtioResult<()>)
        requires
            self.wf(),
        ensures
            match r {
                Ok(_) => self.spec_is_valid() && range_mapped(old(mem).mem(), self.base_addr as int, 4)
                    && {
                    let h = used_header_at(final(mem).mem(), self.base_addr as int);
                    let h0 = used_header_at(old(mem).mem(), self.base_addr as int);
                    &&& h.spec_no_notify() == suppress
                    &&& h.flags & !VIRTQ_USED_F_NO_NOTIFY == h0.flags & !VIRTQ_USED_F_NO_NOTIFY
                    &&& h.idx == h0.idx
                },
                Err(e) => final(mem).mem() == old(mem).mem() && e == (if !self.spec_is_valid() {
                    VirtioError::QueueNotReady
                } else {
                    VirtioError::InvalidAddress
                }),
            },
    {
        if !self.is_valid() {
            return Err(VirtioError::QueueNotReady);
        }
        let mut header = self.read_used_header(mem)?;
        header.set_no_notify(suppress);
        let r = self.write_used_header(mem, &header);
        proof {
            if r is Ok {
                let m0 = old(mem).mem();
                let s = le16_bytes(header.flags) + le16_bytes(header.idx);
                crate::memory::lemma_store_bytes_read_back(m0, self.base_addr as int, s);
                let m1 = mem.mem();
                assert(crate::memory::bytes_at(m1, self.base_addr as int, 4)[0] == m1[self.base_addr + 0]);
                assert(crate::memory::bytes_at(m1, self.base_addr as int, 4)[1] == m1[self.base_addr + 1]);
                assert(crate::memory::bytes_at(m1, self.base_addr as int, 4)[2] == m1[self.base_addr + 2]);
                assert(crate::memory::bytes_at(m1, self.base_addr as int, 4)[3] == m1[self.base_addr + 3]);
                crate::memory::lemma_le16_round_trip(header.flags);
                crate::memory::lemma_le16_round_trip(header.idx);
            }
        }
        r
    }

    /// Writes the `avail_event` field, which tells the guest when to notify next.
    pub fn write_avail_event<M: GuestMemoryAccess>(&self, mem: &mut M, event: u16) -> (r: VirtioResult<
        (),
    >)
        requires
            self.wf(),
        ensures
            match r {
                Ok(_) => self.spec_is_valid() && final(mem).mem() == store_bytes(
                    old(mem).mem(),
                    self.spec_avail_event_addr(),
                    le16_bytes(event),
                ),
                Err(e) => final(mem).mem() == old(mem).mem() && e == (if !self.spec_is_valid() {
                    VirtioError::QueueNotReady
                } else {
                    VirtioError::InvalidAddress
                }),
            },
            r is Ok <==> self.spec_is_valid() && range_mapped(
                old(mem).mem(),
                self.spec_avail_event_addr(),
                2,
            ),
    {
        if !self.is_valid() {
            return Err(VirtioError::QueueNotReady);
        }
        let a = self.avail_event_addr();
        write_u16(mem, a, event)
    }

    /// Reads the `avail_event` field.
    pub fn read_avail_event<M: GuestMemoryAccess>(&self, mem: &M) -> (r: VirtioResult<u16>)
        requires
            self.wf(),
        ensures
            r == (if !self.spec_is_valid() {
                Err(VirtioError::QueueNotReady)
            } else if !range_mapped(mem.mem(), self.spec_avail_event_addr(), 2) {
                Err(VirtioError::InvalidAddress)
            } else {
                Ok(mem_u16(mem.mem(), self.spec_avail_event_addr()))
            }),
    {
        if !self.is_valid() {
            return Err(VirtioError::QueueNotReady);
        }
        let a = self.avail_event_addr();
        read_u16(mem, a)
    }
}

/// What the guest sees after the device publishes a chain with `add_used`:
/// the element (`id`, `len`) in the slot of the old index, and the advanced
/// index in the ring header.
pub proof fn lemma_published_element_visible(m: Map<int, u8>, r: UsedRing, id: u32, len: u32)
    requires
        r.wf(),
        r.spec_is_valid(),
        range_mapped(m, r.spec_next_slot(), 8),
        range_mapped(m, r.base_addr + 2, 2),
    ensures
        ({
            let m1 = store_bytes(m, r.spec_next_slot(), used_elem_bytes(id, len));
            let m2 = store_bytes(m1, r.base_addr + 2, le16_bytes(next_index(r.used_idx)));
            &&& used_elem_at(m2, r.spec_next_slot()) == (VirtqUsedElem { id, len })
            &&& used_header_at(m2, r.base_addr as int).idx == next_index(r.used_idx)
        }),
{
    let slot = r.spec_next_slot();
    let bytes = used_elem_bytes(id, len);
    let m1 = store_bytes(m, slot, bytes);
    let hdr = le16_bytes(next_index(r.used_idx));
    let m2 = store_bytes(m1, r.base_addr + 2, hdr);
    crate::memory::lemma_store_bytes_read_back(m, slot, bytes);
    assert(range_mapped(m1, r.base_addr + 2, 2)) by {
        assert forall|i: int| 0 <= i < 2 implies #[trigger] m1.dom().contains(r.base_addr + 2 + i) by {
            assert(m.dom().contains(r.base_addr + 2 + i));
        }
    }
    crate::memory::lemma_store_bytes_read_back(m1, r.base_addr + 2, hdr);
    crate::memory::lemma_u16_write_read(m1, r.base_addr + 2, next_index(r.used_idx));
    crate::memory::lemma_le32_round_trip(id);
    crate::memory::lemma_le32_round_trip(len);
    assert(crate::memory::bytes_at(m2, slot, 4) =~= le32_bytes(id)) by {
        assert forall|i: int| 0 <= i < 4 implies m2[slot + i] == le32_bytes(id)[i] by {
            assert(m.dom().contains(slot + i));
            assert(m1[slot + i] == bytes[i]);
        }
    }
    assert(crate::memory::bytes_at(m2, slot + 4, 4) =~= le32_bytes(len)) by {
        assert forall|i: int| 0 <= i < 4 implies m2[slot + 4 + i] == le32_bytes(len)[i] by {
            assert(m.dom().contains(slot + (4 + i)));
            assert(m1[slot + (4 + i)] == bytes[4 + i]);
        }
    }
}

} // verus!
