//! A virtqueue as a device drives it: its configuration registers, its three
//! rings, and the bookkeeping for used-buffer notifications.

use crate::constants::{VIRTQ_DESC_SIZE, VIRTQ_RING_HEADER_SIZE, VIRTQ_USED_ELEM_SIZE};
use crate::device_type::VirtioDeviceType;
use crate::error::{VirtioError, VirtioResult};
use crate::memory::{GuestMemoryAccess, le16_bytes, range_mapped, store_bytes};
use crate::queue::available::{AvailableRing, avail_header_at, ring_distance};
use crate::queue::descriptor::{DescriptorTable, VirtqDesc, data_buffers};
use crate::queue::used::{UsedRing, VirtqUsed, next_index};
use vstd::prelude::*;

verus! {

/// Guest memory after `bytes` were stored from `addr` on, if that range is
/// backed; unchanged otherwise.
pub open spec fn store_if_mapped(m: Map<int, u8>, addr: int, bytes: Seq<u8>) -> Map<int, u8> {
    if range_mapped(m, addr, bytes.len() as int) {
        store_bytes(m, addr, bytes)
    } else {
        m
    }
}

/// The EVENT_IDX rule (VirtIO 1.1, 2.6.7.2): having moved the used index from
/// `old` to `new`, the device notifies iff the driver's `used_event` lies in
/// `old .. new` (modulo 2^16), i.e. `(new - event - 1) < (new - old)`.
pub open spec fn vring_need_event(event: u16, new: u16, old: u16) -> bool {
    ring_distance(ring_distance(new, event), 1) < ring_distance(new, old)
}

/// Whether a nonzero queue size is a power of two.
pub open spec fn is_power_of_two(n: u16) -> bool {
    n > 0 && n & ((n - 1) as u16) == 0
}

/// A ring of `bytes` bytes at `addr` lies within the address space.
pub open spec fn region_fits(addr: usize, bytes: int) -> bool {
    addr + bytes <= usize::MAX
}

/// VirtIO queue.
#[derive(Debug, Clone, Copy)]
pub struct VirtioQueue {
    /// Queue index
    pub index: u16,
    /// Queue size
    pub size: u16,
    /// Descriptor table
    pub desc_table: Option<DescriptorTable>,
    /// Available ring
    pub avail_ring: Option<AvailableRing>,
    /// Used ring
    pub used_ring: Option<UsedRing>,
    /// Maximum queue size
    pub max_size: u16,
    /// Queue ready flag
    pub ready: bool,
    /// Descriptor table address (guest physical)
    pub desc_table_addr: usize,
    /// Available ring address (guest physical)
    pub avail_ring_addr: usize,
    /// Used ring address (guest physical)
    pub used_ring_addr: usize,
    /// Next available index, while no available ring is set
    pub next_avail: u16,
    /// Next used index
    pub next_used: u16,
    /// Event index enabled (VIRTIO_F_RING_EVENT_IDX)
    pub event_idx_enabled: bool,
    /// Used index at the last notification (for EVENT_IDX)
    pub signalled_used: u16,
    /// Whether `signalled_used` holds a value (whether the device has notified yet)
    pub signalled_used_valid: bool,
}

impl VirtioQueue {
    /// The available ring.
    pub open spec fn spec_avail_ring(&self) -> Option<AvailableRing> {
        self.avail_ring
    }

    /// The used ring.
    pub open spec fn spec_used_ring(&self) -> Option<UsedRing> {
        self.used_ring
    }

    /// The next available index kept while no available ring is set.
    pub open spec fn spec_next_avail(&self) -> u16 {
        self.next_avail
    }

    /// The next used index.
    pub open spec fn spec_next_used(&self) -> u16 {
        self.next_used
    }

    /// The used index at the last notification.
    pub open spec fn spec_signalled_used(&self) -> u16 {
        self.signalled_used
    }

    /// Whether the device has notified since EVENT_IDX was enabled.
    pub open spec fn spec_signalled_used_valid(&self) -> bool {
        self.signalled_used_valid
    }

    /// Well-formedness: each ring exists exactly when its address is set, sits
    /// at that address, and lies within the address space.
    pub open spec fn wf(&self) -> bool {
        &&& (self.desc_table is Some <==> self.desc_table_addr != 0)
        &&& (self.desc_table is Some ==> self.desc_table->Some_0.wf()
            && self.desc_table->Some_0.base_addr == self.desc_table_addr)
        &&& (self.spec_avail_ring() is Some <==> self.avail_ring_addr != 0)
        &&& (self.spec_avail_ring() is Some ==> self.spec_avail_ring()->Some_0.wf()
            && self.spec_avail_ring()->Some_0.base_addr == self.avail_ring_addr)
        &&& (self.spec_used_ring() is Some <==> self.used_ring_addr != 0)
        &&& (self.spec_used_ring() is Some ==> self.spec_used_ring()->Some_0.wf()
            && self.spec_used_ring()->Some_0.base_addr == self.used_ring_addr)
    }

    /// Whether the queue is ready and has all three ring addresses.
    pub open spec fn spec_is_valid(&self) -> bool {
        self.ready && self.desc_table_addr != 0 && self.avail_ring_addr != 0 && self.used_ring_addr != 0
    }

    /// The last available index the device has seen.
    pub open spec fn spec_last_avail_idx(&self) -> u16 {
        match self.spec_avail_ring() {
            Some(a) => a.last_avail_idx,
            None => self.spec_next_avail(),
        }
    }

    /// The chain at `head` as the descriptor table gives it.
    pub open spec fn spec_chain(&self, m: Map<int, u8>, head: u16) -> VirtioResult<Seq<VirtqDesc>> {
        match self.desc_table {
            Some(t) => t.spec_follow_chain(m, head),
            None => Err(VirtioError::QueueNotReady),
        }
    }

    /// An unconfigured queue: not ready, no rings, indices and notification
    /// state cleared, its size and maximum size `size`.
    pub open spec fn spec_new(index: u16, size: u16) -> Self {
        VirtioQueue {
            index,
            size,
            desc_table: None,
            avail_ring: None,
            used_ring: None,
            max_size: size,
            ready: false,
            desc_table_addr: 0,
            avail_ring_addr: 0,
            used_ring_addr: 0,
            next_avail: 0,
            next_used: 0,
            event_idx_enabled: false,
            signalled_used: 0,
            signalled_used_valid: false,
        }
    }

    /// Creates an unconfigured queue of the given (maximum) size.
    pub fn new(index: u16, size: u16) -> (q: Self)
        ensures
            q.wf(),
            q == VirtioQueue::spec_new(index, size),
    {
        Self {
            index,
            size,
            desc_table: None,
            avail_ring: None,
            used_ring: None,
            max_size: size,
            ready: false,
            desc_table_addr: 0,
            avail_ring_addr: 0,
            used_ring_addr: 0,
            next_avail: 0,
            next_used: 0,
            event_idx_enabled: false,
            signalled_used: 0,
            signalled_used_valid: false,
        }
    }

    /// The queue after `set_size(size)`.
    pub open spec fn spec_after_set_size(self, size: u16) -> Self {
        if is_power_of_two(size) && size <= self.max_size {
            VirtioQueue { size, ..self }
        } else {
            self
        }
    }

    /// The queue after `set_desc_table_addr(addr)`.
    pub open spec fn spec_after_set_desc(self, addr: usize) -> Self {
        if self.desc_table_addr == 0 && (addr == 0 || region_fits(addr, self.size * VIRTQ_DESC_SIZE)) {
            VirtioQueue {
                desc_table_addr: addr,
                desc_table: if addr != 0 {
                    Some(DescriptorTable { base_addr: addr, size: self.size })
                } else {
                    None
                },
                ..self
            }
        } else {
            self
        }
    }

    /// The queue after `set_avail_ring_addr(addr)`.
    pub open spec fn spec_after_set_avail(self, addr: usize) -> Self {
        if self.avail_ring_addr == 0 && (addr == 0 || region_fits(
            addr,
            VIRTQ_RING_HEADER_SIZE + self.size * 2 + 2,
        )) {
            VirtioQueue {
                avail_ring_addr: addr,
                avail_ring: if addr != 0 {
                    Some(AvailableRing { base_addr: addr, size: self.size, last_avail_idx: 0 })
                } else {
                    None
                },
                ..self
            }
        } else {
            self
        }
    }

    /// The queue after `set_used_ring_addr(addr)`.
    pub open spec fn spec_after_set_used(self, addr: usize) -> Self {
        if self.used_ring_addr == 0 && (addr == 0 || region_fits(
            addr,
            VIRTQ_RING_HEADER_SIZE + self.size * VIRTQ_USED_ELEM_SIZE + 2,
        )) {
            VirtioQueue {
                used_ring_addr: addr,
                used_ring: if addr != 0 {
                    Some(UsedRing { base_addr: addr, size: self.size, used_idx: 0 })
                } else {
                    None
                },
                ..self
            }
        } else {
            self
        }
    }

    /// Sets the queue size: a power of two no larger than the maximum size.
    pub fn set_size(&mut self, size: u16) -> (r: VirtioResult<()>)
        ensures
            *final(self) == old(self).spec_after_set_size(size),
            match r {
                Ok(_) => is_power_of_two(size) && size <= old(self).max_size && *final(self) == (
                VirtioQueue { size, ..*old(self) }),
                Err(e) => !(is_power_of_two(size) && size <= old(self).max_size) && e
                    == VirtioError::InvalidQueue && *final(self) == *old(self),
            },
    {
        if size == 0 || size > self.max_size || (size & (size - 1)) != 0 {
            return Err(VirtioError::InvalidQueue);
        }
        self.size = size;
        Ok(())
    }

    /// Sets the descriptor table address. It can be set once: a second write
    /// while an address is set is refused, as is a table that would reach
    /// beyond the address space. Writing 0 leaves the queue without a table.
    pub fn set_desc_table_addr(&mut self, addr: usize) -> (r: VirtioResult<()>)
        requires
            old(self).wf(),
        ensures
            final(self).wf(),
            *final(self) == old(self).spec_after_set_desc(addr),
            match r {
                Ok(_) => old(self).desc_table_addr == 0 && (addr == 0 || region_fits(
                    addr,
                    old(self).size * VIRTQ_DESC_SIZE,
                )) && *final(self) == (VirtioQueue {
                    desc_table_addr: addr,
                    desc_table: if addr != 0 {
                        Some(DescriptorTable { base_addr: addr, size: old(self).size })
                    } else {
                        None
                    },
                    ..*old(self)
                }),
                Err(e) => e == VirtioError::InvalidConfig && *final(self) == *old(self) && !(
                old(self).desc_table_addr == 0 && (addr == 0 || region_fits(
                    addr,
                    old(self).size * VIRTQ_DESC_SIZE,
                ))),
            },
    {
        if self.desc_table_addr != 0 {
            return Err(VirtioError::InvalidConfig);
        }
        if addr != 0 && addr > usize::MAX - self.size as usize * VIRTQ_DESC_SIZE {
            return Err(VirtioError::InvalidConfig);
        }
        self.desc_table_addr = addr;
        if addr != 0 {
            self.desc_table = Some(DescriptorTable::new(addr, self.size));
        }
        Ok(())
    }

    /// Sets the available ring address, with the same rules as the descriptor table's.
    pub fn set_avail_ring_addr(&mut self, addr: usize) -> (r: VirtioResult<()>)
        requires
            old(self).wf(),
        ensures
            final(self).wf(),
            *final(self) == old(self).spec_after_set_avail(addr),
            match r {
                Ok(_) => old(self).avail_ring_addr == 0 && (addr == 0 || region_fits(
                    addr,
                    VIRTQ_RING_HEADER_SIZE + old(self).size * 2 + 2,
                )) && final(self).avail_ring_addr == addr && final(self).spec_avail_ring() == (
                if addr != 0 {
                    Some(AvailableRing { base_addr: addr, size: old(self).size, last_avail_idx: 0 })
                } else {
                    None
                }) && final(self).same_except_avail(*old(self)),
                Err(e) => e == VirtioError::InvalidConfig && *final(self) == *old(self) && !(
                old(self).avail_ring_addr == 0 && (addr == 0 || region_fits(
                    addr,
                    VIRTQ_RING_HEADER_SIZE + old(self).size * 2 + 2,
                ))),
            },
    {
        if self.avail_ring_addr != 0 {
            return Err(VirtioError::InvalidConfig);
        }
        if addr != 0 && addr > usize::MAX - (VIRTQ_RING_HEADER_SIZE + self.size as usize * 2 + 2) {
            return Err(VirtioError::InvalidConfig);
        }
        self.avail_ring_addr = addr;
        if addr != 0 {
            self.avail_ring = Some(AvailableRing::new(addr, self.size));
        }
        Ok(())
    }

    /// Sets the used ring address, with the same rules as the descriptor table's.
    pub fn set_used_ring_addr(&mut self, addr: usize) -> (r: VirtioResult<()>)
        requires
            old(self).wf(),
        ensures
            final(self).wf(),
            *final(self) == old(self).spec_after_set_used(addr),
            match r {
                Ok(_) => old(self).used_ring_addr == 0 && (addr == 0 || region_fits(
                    addr,
                    VIRTQ_RING_HEADER_SIZE + old(self).size * VIRTQ_USED_ELEM_SIZE + 2,
                )) && final(self).used_ring_addr == addr && final(self).spec_used_ring() == (
                if addr != 0 {
                    Some(UsedRing { base_addr: addr, size: old(self).size, used_idx: 0 })
                } else {
                    None
                }) && final(self).same_except_used(*old(self)),
                Err(e) => e == VirtioError::InvalidConfig && *final(self) == *old(self) && !(
                old(self).used_ring_addr == 0 && (addr == 0 || region_fits(
                    addr,
                    VIRTQ_RING_HEADER_SIZE + old(self).size * VIRTQ_USED_ELEM_SIZE + 2,
                ))),
            },
    {
        if self.used_ring_addr != 0 {
            return Err(VirtioError::InvalidConfig);
        }
        if addr != 0 && addr > usize::MAX - (VIRTQ_RING_HEADER_SIZE + self.size as usize
            * VIRTQ_USED_ELEM_SIZE + 2) {
            return Err(VirtioError::InvalidConfig);
        }
        self.used_ring_addr = addr;
        if addr != 0 {
            self.used_ring = Some(UsedRing::new(addr, self.size));
        }
        Ok(())
    }

    /// Whether two queues agree on everything but the available ring and its address.
    pub open spec fn same_except_avail(&self, o: Self) -> bool {
        &&& self.index == o.index
        &&& self.size == o.size
        &&& self.max_size == o.max_size
        &&& self.ready == o.ready
        &&& self.desc_table == o.desc_table
        &&& self.desc_table_addr == o.desc_table_addr
        &&& self.spec_used_ring() == o.spec_used_ring()
        &&& self.used_ring_addr == o.used_ring_addr
        &&& self.spec_next_avail() == o.spec_next_avail()
        &&& self.spec_next_used() == o.spec_next_used()
        &&& self.event_idx_enabled == o.event_idx_enabled
        &&& self.spec_signalled_used() == o.spec_signalled_used()
        &&& self.spec_signalled_used_valid() == o.spec_signalled_used_valid()
    }

    /// Whether two queues agree on everything but the used ring's index and
    /// the next used index.
    pub open spec fn same_but_used_progress(&self, o: Self) -> bool {
        &&& self.index == o.index
        &&& self.size == o.size
        &&& self.max_size == o.max_size
        &&& self.ready == o.ready
        &&& self.desc_table == o.desc_table
        &&& self.desc_table_addr == o.desc_table_addr
        &&& self.spec_avail_ring() == o.spec_avail_ring()
        &&& self.avail_ring_addr == o.avail_ring_addr
        &&& self.used_ring_addr == o.used_ring_addr
        &&& (self.spec_used_ring() is Some <==> o.spec_used_ring() is Some)
        &&& (self.spec_used_ring() is Some ==> self.spec_used_ring()->Some_0.base_addr
            == o.spec_used_ring()->Some_0.base_addr && self.spec_used_ring()->Some_0.size
            == o.spec_used_ring()->Some_0.size)
        &&& self.spec_next_avail() == o.spec_next_avail()
        &&& self.event_idx_enabled == o.event_idx_enabled
        &&& self.spec_signalled_used() == o.spec_signalled_used()
        &&& self.spec_signalled_used_valid() == o.spec_signalled_used_valid()
    }

    /// Whether two queues agree on everything but the used ring and its address.
    pub open spec fn same_except_used(&self, o: Self) -> bool {
        &&& self.index == o.index
        &&& self.size == o.size
        &&& self.max_size == o.max_size
        &&& self.ready == o.ready
        &&& self.desc_table == o.desc_table
        &&& self.desc_table_addr == o.desc_table_addr
        &&& self.spec_avail_ring() == o.spec_avail_ring()
        &&& self.avail_ring_addr == o.avail_ring_addr
        &&& self.spec_next_avail() == o.spec_next_avail()
        &&& self.spec_next_used() == o.spec_next_used()
        &&& self.event_idx_enabled == o.event_idx_enabled
        &&& self.spec_signalled_used() == o.spec_signalled_used()
        &&& self.spec_signalled_used_valid() == o.spec_signalled_used_valid()
    }

    /// Guest memory after a queue is marked ready: the used ring header is
    /// cleared (flags 0, index 0) and, with EVENT_IDX, `avail_event` is set to 0,
    /// each where guest memory backs it.
    pub open spec fn spec_ready_memory(&self, m: Map<int, u8>) -> Map<int, u8> {
        match self.spec_used_ring() {
            Some(u) => if u.spec_is_valid() {
                let m1 = store_if_mapped(
                    m,
                    u.base_addr as int,
                    le16_bytes(0) + le16_bytes(0),
                );
                if self.event_idx_enabled {
                    store_if_mapped(m1, u.spec_avail_event_addr(), le16_bytes(0))
                } else {
                    m1
                }
            } else {
                m
            },
            None => m,
        }
    }

    /// Marks the queue ready or not; becoming ready initialises the used ring
    /// in guest memory (header cleared, and `avail_event` 0 with EVENT_IDX).
    pub fn set_ready<M: GuestMemoryAccess>(&mut self, mem: &mut M, ready: bool)
        requires
            old(self).wf(),
        ensures
            final(self).wf(),
            *final(self) == (VirtioQueue { ready, ..*old(self) }),
            final(mem).mem() == (if ready {
                old(self).spec_ready_memory(old(mem).mem())
            } else {
                old(mem).mem()
            }),
    {
        self.ready = ready;
        if ready {
            if let Some(used_ring) = self.used_ring {
                let _ = used_ring.write_used_header(mem, &VirtqUsed::new());
                proof {
                    assert(le16_bytes(0).len() == 2);
                }
                if self.event_idx_enabled {
                    let _ = used_ring.write_avail_event(mem, 0);
                }
            }
        }
    }

    /// Whether the queue is ready and has all three ring addresses.
    pub fn is_valid(&self) -> (b: bool)
        ensures
            b == self.spec_is_valid(),
    {
        self.ready && self.desc_table_addr != 0 && self.avail_ring_addr != 0 && self.used_ring_addr != 0
    }

    /// Resets the queue: not ready, no ring addresses or rings, indices and
    /// notification state cleared. Index, size and maximum size stay.
    pub fn reset(&mut self)
        ensures
            final(self).wf(),
            *final(self) == VirtioQueue::spec_new(old(self).index, old(self).max_size).with_size(
                old(self).size,
            ),
    {
        self.ready = false;
        self.desc_table_addr = 0;
        self.avail_ring_addr = 0;
        self.used_ring_addr = 0;
        self.next_avail = 0;
        self.next_used = 0;
        self.desc_table = None;
        self.avail_ring = None;
        self.used_ring = None;
        self.event_idx_enabled = false;
        self.signalled_used = 0;
        self.signalled_used_valid = false;
    }

    /// This queue with another size.
    pub open spec fn with_size(self, size: u16) -> Self {
        VirtioQueue { size, ..self }
    }

    /// Reads the available index from guest memory.
    pub fn read_avail_idx<M: GuestMemoryAccess>(&self, mem: &M) -> (r: VirtioResult<u16>)
        requires
            self.wf(),
        ensures
            r == (match self.spec_avail_ring() {
                Some(a) => a.read_avail_idx_spec(mem.mem()),
                None => Err(VirtioError::QueueNotReady),
            }),
    {
        if let Some(ref avail_ring) = self.avail_ring {
            avail_ring.get_avail_idx(mem)
        } else {
            Err(VirtioError::QueueNotReady)
        }
    }

    /// This queue and guest memory after `add_used(desc_index, len)` on memory
    /// `m`, and whether it succeeded: the element goes into the used ring's
    /// next slot and the advanced used index into the ring header, each where
    /// guest memory backs it (the index advances once the element is stored).
    pub open spec fn spec_add_used(self, m: Map<int, u8>, desc_index: u16, len: u32) -> (VirtioQueue, Map<int, u8>, bool) {
        if !self.spec_is_valid() {
            (self, m, false)
        } else {
            match self.spec_used_ring() {
                None => (VirtioQueue { next_used: ((self.next_used + 1) % (self.size as int)) as u16, ..self }, m, true),
                Some(u) => if !u.spec_is_valid() || !range_mapped(m, u.spec_next_slot(), 8) {
                    (self, m, false)
                } else {
                    let u2 = UsedRing { used_idx: next_index(u.used_idx), ..u };
                    let m1 = store_bytes(
                        m,
                        u.spec_next_slot(),
                        crate::queue::used::used_elem_bytes(desc_index as u32, len),
                    );
                    if !range_mapped(m, u.base_addr + 2, 2) {
                        (VirtioQueue { used_ring: Some(u2), ..self }, m1, false)
                    } else {
                        (
                            VirtioQueue { used_ring: Some(u2), next_used: u2.used_idx, ..self },
                            store_bytes(m1, u.base_addr + 2, le16_bytes(u2.used_idx)),
                            true,
                        )
                    }
                },
            }
        }
    }

    /// Returns a finished chain to the guest through the used ring.
    pub fn add_used<M: GuestMemoryAccess>(&mut self, mem: &mut M, desc_index: u16, len: u32) -> (r:
        VirtioResult<()>)
        requires
            old(self).wf(),
        ensures
            final(self).wf(),
            !old(self).spec_is_valid() ==> r == Err::<(), VirtioError>(VirtioError::QueueNotReady)
                && *final(self) == *old(self) && final(mem).mem() == old(mem).mem(),
            old(self).spec_is_valid() ==> {
                let u = old(self).spec_used_ring()->Some_0;
                let u2 = final(self).spec_used_ring()->Some_0;
                &&& final(self).spec_used_ring() is Some
                &&& u2.base_addr == u.base_addr
                &&& u2.size == u.size
                &&& match r {
                    Ok(_) => {
                        &&& u.spec_is_valid()
                        &&& u2.used_idx == next_index(u.used_idx)
                        &&& final(self).spec_next_used() == u2.used_idx
                        &&& range_mapped(old(mem).mem(), u.spec_next_slot(), 8)
                        &&& range_mapped(old(mem).mem(), u.base_addr + 2, 2)
                        &&& final(mem).mem() == store_bytes(
                            store_bytes(
                                old(mem).mem(),
                                u.spec_next_slot(),
                                crate::queue::used::used_elem_bytes(desc_index as u32, len),
                            ),
                            u.base_addr + 2,
                            le16_bytes(u2.used_idx),
                        )
                    },
                    Err(_) => true,
                }
            },
            final(self).same_but_used_progress(*old(self)),
            (*final(self), final(mem).mem(), r is Ok) == old(self).spec_add_used(old(mem).mem(), desc_index, len),
    {
        if !self.is_valid() {
            return Err(VirtioError::QueueNotReady);
        }
        match self.used_ring {
            Some(mut used_ring) => {
                let r = used_ring.add_used(mem, desc_index as u32, len);
                self.used_ring = Some(used_ring);
                r?;
                self.next_used = used_ring.get_used_idx();
            },
            None => {
                self.next_used = ((self.next_used as u32 + 1) % self.size as u32) as u16;
            },
        }
        Ok(())
    }

    /// The next available descriptor; this device model never offers one.
    pub fn pop_avail(&mut self) -> (r: VirtioResult<Option<u16>>)
        ensures
            *final(self) == *old(self),
            r == (if old(self).spec_is_valid() {
                Ok(None::<u16>)
            } else {
                Err(VirtioError::QueueNotReady)
            }),
    {
        if !self.is_valid() {
            return Err(VirtioError::QueueNotReady);
        }
        Ok(None)
    }

    /// The used ring, if its address is set.
    pub fn get_used_ring(&self) -> (r: Option<&UsedRing>)
        ensures
            r is Some <==> self.spec_used_ring() is Some,
            r is Some ==> *r->Some_0 == self.spec_used_ring()->Some_0,
    {
        self.used_ring.as_ref()
    }

    /// The used ring, mutably, if its address is set.
    pub fn get_used_ring_mut(&mut self) -> (r: Option<&mut UsedRing>)
        ensures
            match old(self).spec_used_ring() {
                None => r is None && *final(self) == *old(self),
                Some(u) => r is Some && *r->Some_0 == u && final(self).spec_used_ring() == Some(
                    *final(r->Some_0),
                ) && final(self).same_except_used(*old(self)) && final(self).used_ring_addr
                    == old(self).used_ring_addr,
            },
    {
        self.used_ring.as_mut()
    }

    /// The available ring, if its address is set.
    pub fn get_avail_ring(&self) -> (r: Option<&AvailableRing>)
        ensures
            r is Some <==> self.spec_avail_ring() is Some,
            r is Some ==> *r->Some_0 == self.spec_avail_ring()->Some_0,
    {
        self.avail_ring.as_ref()
    }

    /// The descriptor table, if its address is set.
    pub fn get_desc_table(&self) -> (r: Option<&DescriptorTable>)
        ensures
            r is Some <==> self.desc_table is Some,
            r is Some ==> *r->Some_0 == self.desc_table->Some_0,
    {
        self.desc_table.as_ref()
    }

    /// Reads a descriptor index from the available ring.
    pub fn read_avail_entry<M: GuestMemoryAccess>(&self, mem: &M, ring_index: u16) -> (r: VirtioResult<
        u16,
    >)
        requires
            self.wf(),
        ensures
            r == (match self.spec_avail_ring() {
                Some(a) => if !a.spec_is_valid() {
                    Err(VirtioError::QueueNotReady)
                } else if !range_mapped(
                    mem.mem(),
                    a.spec_entry_addr((ring_index % a.size) as int),
                    2,
                ) {
                    Err(VirtioError::InvalidAddress)
                } else {
                    Ok(
                        crate::memory::mem_u16(
                            mem.mem(),
                            a.spec_entry_addr((ring_index % a.size) as int),
                        ),
                    )
                },
                None => Err(VirtioError::QueueNotReady),
            }),
    {
        if let Some(ref avail_ring) = self.avail_ring {
            avail_ring.read_avail_ring_entry(mem, ring_index)
        } else {
            Err(VirtioError::QueueNotReady)
        }
    }

    /// The available index as the queue reads it from guest memory.
    pub open spec fn read_avail_idx_spec_or_err(&self, m: Map<int, u8>) -> VirtioResult<u16> {
        match self.spec_avail_ring() {
            Some(a) => a.read_avail_idx_spec(m),
            None => Err(VirtioError::QueueNotReady),
        }
    }

    /// The available index of the `i`-th slot from the last available index
    /// the device has seen on.
    pub open spec fn spec_slot_avail_index(&self, i: int) -> u16 {
        ((self.spec_last_avail_idx() + i) % 0x1_0000) as u16
    }

    /// The descriptor index in the available ring slot of `avail_index`, as
    /// `read_avail_entry` reads it.
    pub open spec fn spec_avail_entry(&self, m: Map<int, u8>, avail_index: u16) -> VirtioResult<u16> {
        match self.spec_avail_ring() {
            Some(a) => if !a.spec_is_valid() {
                Err(VirtioError::QueueNotReady)
            } else if !range_mapped(m, a.spec_entry_addr((((avail_index % self.size) as u16) % a.size) as int), 2) {
                Err(VirtioError::InvalidAddress)
            } else {
                Ok(crate::memory::mem_u16(m, a.spec_entry_addr((((avail_index % self.size) as u16) % a.size) as int)))
            },
            None => Err(VirtioError::QueueNotReady),
        }
    }

    /// Records the last available index the device has seen.
    pub fn update_last_avail_idx(&mut self, idx: u16)
        requires
            old(self).wf(),
            old(self).spec_avail_ring() is Some || old(self).size > 0,
        ensures
            final(self).wf(),
            final(self).spec_last_avail_idx() == (if old(self).spec_avail_ring() is Some {
                idx
            } else {
                idx % old(self).size
            }),
            final(self).index == old(self).index,
            final(self).size == old(self).size,
            final(self).max_size == old(self).max_size,
            final(self).ready == old(self).ready,
            final(self).desc_table == old(self).desc_table,
            final(self).desc_table_addr == old(self).desc_table_addr,
            final(self).avail_ring_addr == old(self).avail_ring_addr,
            final(self).used_ring_addr == old(self).used_ring_addr,
            final(self).spec_used_ring() == old(self).spec_used_ring(),
            final(self).event_idx_enabled == old(self).event_idx_enabled,
            final(self).spec_signalled_used() == old(self).spec_signalled_used(),
            final(self).spec_signalled_used_valid() == old(self).spec_signalled_used_valid(),
            final(self).spec_next_used() == old(self).spec_next_used(),
            old(self).spec_avail_ring() is Some ==> final(self).spec_avail_ring() == Some(
                AvailableRing { last_avail_idx: idx, ..old(self).spec_avail_ring()->Some_0 },
            ),
            old(self).spec_avail_ring() is None ==> final(self).spec_avail_ring() is None,
            old(self).spec_avail_ring() is Some ==> *final(self) == (VirtioQueue {
                avail_ring: Some(AvailableRing { last_avail_idx: idx, ..old(self).spec_avail_ring()->Some_0 }),
                ..*old(self)
            }),
    {
        match self.avail_ring {
            Some(mut avail_ring) => {
                avail_ring.update_last_avail_idx(idx);
                self.avail_ring = Some(avail_ring);
            },
            None => {
                self.next_avail = idx % self.size;
            },
        }
    }

    /// The last available index the device has seen.
    pub fn get_last_avail_idx(&self) -> (i: u16)
        ensures
            i == self.spec_last_avail_idx(),
    {
        if let Some(avail_ring) = &self.avail_ring {
            avail_ring.last_avail_idx
        } else {
            self.next_avail
        }
    }

    /// Whether the chain at `head_index` has at least `min_length` descriptors.
    pub fn validate_virtio_block_chain<M: GuestMemoryAccess>(
        &self,
        mem: &M,
        head_index: u16,
        min_length: usize,
    ) -> (r: VirtioResult<bool>)
        requires
            self.wf(),
        ensures
            r == (match self.spec_chain(mem.mem(), head_index) {
                Ok(s) => Ok(s.len() >= min_length),
                Err(e) => Err(e),
            }),
    {
        if let Some(ref desc_table) = self.desc_table {
            let descriptors = desc_table.follow_chain(mem, head_index)?;
            Ok(descriptors.len() >= min_length)
        } else {
            Err(VirtioError::QueueNotReady)
        }
    }

    /// The data buffers of the chain at `head_index` (see `DescriptorTable::get_data_buffers`).
    pub fn get_data_buffers<M: GuestMemoryAccess>(
        &self,
        mem: &M,
        head_index: u16,
        device_type: VirtioDeviceType,
    ) -> (r: VirtioResult<Vec<(usize, usize, bool)>>)
        requires
            self.wf(),
        ensures
            match r {
                Ok(v) => self.spec_chain(mem.mem(), head_index) is Ok && v@ == data_buffers(
                    self.spec_chain(mem.mem(), head_index)->Ok_0,
                    device_type,
                ),
                Err(e) => self.spec_chain(mem.mem(), head_index) == Err::<Seq<VirtqDesc>, VirtioError>(
                    e,
                ),
            },
    {
        if let Some(ref desc_table) = self.desc_table {
            desc_table.get_data_buffers(mem, head_index, device_type)
        } else {
            Err(VirtioError::QueueNotReady)
        }
    }

    /// The address of the status byte of the chain at `head_index`: the
    /// buffer of its last descriptor, which must be device writable.
    pub fn get_status_addr<M: GuestMemoryAccess>(&self, mem: &M, head_index: u16) -> (r: VirtioResult<
        usize,
    >)
        requires
            self.wf(),
        ensures
            r == self.spec_status_addr(mem.mem(), head_index),
    {
        if let Some(ref desc_table) = self.desc_table {
            desc_table.get_status_addr(mem, head_index)
        } else {
            Err(VirtioError::QueueNotReady)
        }
    }

    /// The status byte address of the chain at `head`, or the error met.
    pub open spec fn spec_status_addr(&self, m: Map<int, u8>, head: u16) -> VirtioResult<usize> {
        match self.spec_chain(m, head) {
            Ok(s) => if s.last().spec_is_write() {
                Ok(s.last().addr as usize)
            } else {
                Err(VirtioError::InvalidQueue)
            },
            Err(e) => Err(e),
        }
    }

    /// This queue after `should_notify` on memory `m`, and its answer.
    pub open spec fn spec_notify(self, m: Map<int, u8>) -> (VirtioQueue, VirtioResult<bool>) {
        match self.spec_used_ring() {
            None => (self, Err(VirtioError::QueueNotReady)),
            Some(u) => match self.spec_avail_ring() {
                None => (self, Err(VirtioError::QueueNotReady)),
                Some(a) => if self.event_idx_enabled {
                    match a.spec_read_used_event(m) {
                        Ok(used_event) => (
                            self.with_signalled(u.used_idx),
                            Ok(
                                !self.spec_signalled_used_valid() || vring_need_event(
                                    used_event,
                                    u.used_idx,
                                    self.spec_signalled_used(),
                                ),
                            ),
                        ),
                        Err(e) => (self, Err(e)),
                    }
                } else {
                    (
                        self,
                        if !a.spec_is_valid() {
                            Err(VirtioError::QueueNotReady)
                        } else if !range_mapped(m, a.base_addr as int, 4) {
                            Err(VirtioError::InvalidAddress)
                        } else {
                            Ok(!avail_header_at(m, a.base_addr as int).spec_no_interrupt())
                        },
                    )
                },
            },
        }
    }

    /// Whether the device should interrupt the guest for the used buffers it
    /// has published. Without EVENT_IDX: iff the driver left NO_INTERRUPT
    /// clear. With EVENT_IDX: on the first call, and afterwards iff the used
    /// index crossed the driver's `used_event` since the last notification;
    /// the current used index is then remembered for the next call.
    pub fn should_notify<M: GuestMemoryAccess>(&mut self, mem: &M) -> (r: VirtioResult<bool>)
        requires
            old(self).wf(),
        ensures
            final(self).wf(),
            match old(self).spec_used_ring() {
                None => r == Err::<bool, VirtioError>(VirtioError::QueueNotReady) && *final(self)
                    == *old(self),
                Some(u) => match old(self).spec_avail_ring() {
                    None => r == Err::<bool, VirtioError>(VirtioError::QueueNotReady) && *final(self) == *old(self),
                    Some(a) => if old(self).event_idx_enabled {
                        match a.spec_read_used_event(mem.mem()) {
                            Ok(used_event) => {
                                &&& r == Ok::<bool, VirtioError>(
                                    !old(self).spec_signalled_used_valid() || vring_need_event(
                                        used_event,
                                        u.used_idx,
                                        old(self).spec_signalled_used(),
                                    ),
                                )
                                &&& *final(self) == old(self).with_signalled(u.used_idx)
                            },
                            Err(e) => r == Err::<bool, VirtioError>(e) && *final(self) == *old(self),
                        }
                    } else {
                        &&& *final(self) == *old(self)
                        &&& r == (if !a.spec_is_valid() {
                            Err(VirtioError::QueueNotReady)
                        } else if !range_mapped(mem.mem(), a.base_addr as int, 4) {
                            Err(VirtioError::InvalidAddress)
                        } else {
                            Ok(!avail_header_at(mem.mem(), a.base_addr as int).spec_no_interrupt())
                        })
                    },
                },
            },
            (*final(self), r) == old(self).spec_notify(mem.mem()),
    {
        let new_idx = if let Some(ref used_ring) = self.used_ring {
            used_ring.get_used_idx()
        } else {
            return Err(VirtioError::QueueNotReady);
        };
        if self.event_idx_enabled {
            if let Some(ref avail_ring) = self.avail_ring {
                let used_event = avail_ring.read_used_event(mem)?;
                let old_idx = self.signalled_used;
                let was_valid = self.signalled_used_valid;
                self.signalled_used = new_idx;
                self.signalled_used_valid = true;
                if !was_valid {
                    return Ok(true);
                }
                let should = new_idx.wrapping_sub(used_event).wrapping_sub(1) < new_idx.wrapping_sub(
                    old_idx,
                );
                Ok(should)
            } else {
                Err(VirtioError::QueueNotReady)
            }
        } else {
            if let Some(ref avail_ring) = self.avail_ring {
                let suppressed = avail_ring.interrupts_suppressed(mem)?;
                Ok(!suppressed)
            } else {
                Err(VirtioError::QueueNotReady)
            }
        }
    }

    /// This queue after a notification at used index `idx`.
    pub open spec fn with_signalled(self, idx: u16) -> Self {
        VirtioQueue { signalled_used: idx, signalled_used_valid: true, ..self }
    }

    /// Enables or disables EVENT_IDX; enabling forgets the last notification.
    pub fn set_event_idx_enabled(&mut self, enabled: bool)
        ensures
            *final(self) == (if enabled {
                VirtioQueue { event_idx_enabled: true, signalled_used_valid: false, ..*old(self) }
            } else {
                VirtioQueue { event_idx_enabled: false, ..*old(self) }
            }),
    {
        self.event_idx_enabled = enabled;
        if enabled {
            self.signalled_used_valid = false;
        }
    }

    /// Writes `status` into the status byte of the chain at `head_index`.
    pub fn write_status_byte<M: GuestMemoryAccess>(&self, mem: &mut M, head_index: u16, status: u8) -> (r:
        VirtioResult<()>)
        requires
            self.wf(),
        ensures
            match self.spec_status_addr(old(mem).mem(), head_index) {
                Ok(a) => if old(mem).mem().dom().contains(a as int) {
                    r is Ok && final(mem).mem() == old(mem).mem().insert(a as int, status)
                } else {
                    r == Err::<(), VirtioError>(VirtioError::InvalidAddress) && final(mem).mem()
                        == old(mem).mem()
                },
                Err(e) => r == Err::<(), VirtioError>(e) && final(mem).mem() == old(mem).mem(),
            },
    {
        let status_addr = self.get_status_addr(mem, head_index)?;
        if mem.write_u8(status_addr, status).is_err() {
            return Err(VirtioError::InvalidAddress);
        }
        if mem.read_u8(status_addr).is_err() {
            return Err(VirtioError::InvalidAddress);
        }
        Ok(())
    }

    /// Guest memory after `write_avail_event(event)`: with EVENT_IDX, the
    /// used ring's `avail_event` field holds `event` where the ring is valid
    /// and memory backs the field; otherwise memory is unchanged.
    pub open spec fn spec_avail_event_written(&self, m: Map<int, u8>, event: u16) -> Map<int, u8> {
        if !self.event_idx_enabled {
            m
        } else {
            match self.spec_used_ring() {
                None => m,
                Some(u) => if u.spec_is_valid() && range_mapped(m, u.spec_avail_event_addr(), 2) {
                    store_bytes(m, u.spec_avail_event_addr(), le16_bytes(event))
                } else {
                    m
                },
            }
        }
    }

    /// Writes `avail_event` (which tells the guest when to notify next) when
    /// EVENT_IDX is enabled; does nothing otherwise.
    pub fn write_avail_event<M: GuestMemoryAccess>(&self, mem: &mut M, event: u16) -> (r: VirtioResult<()>)
        requires
            self.wf(),
        ensures
            final(mem).mem() == self.spec_avail_event_written(old(mem).mem(), event),
            !self.event_idx_enabled ==> r is Ok && final(mem).mem() == old(mem).mem(),
            self.event_idx_enabled ==> match self.spec_used_ring() {
                None => r == Err::<(), VirtioError>(VirtioError::QueueNotReady) && final(mem).mem()
                    == old(mem).mem(),
                Some(u) => match r {
                    Ok(_) => u.spec_is_valid() && range_mapped(
                        old(mem).mem(),
                        u.spec_avail_event_addr(),
                        2,
                    ) && final(mem).mem() == store_bytes(
                        old(mem).mem(),
                        u.spec_avail_event_addr(),
                        le16_bytes(event),
                    ),
                    Err(_) => final(mem).mem() == old(mem).mem() && !(u.spec_is_valid()
                        && range_mapped(old(mem).mem(), u.spec_avail_event_addr(), 2)),
                },
            },
    {
        if !self.event_idx_enabled {
            return Ok(());
        }
        if let Some(ref used_ring) = self.used_ring {
            used_ring.write_avail_event(mem, event)
        } else {
            Err(VirtioError::QueueNotReady)
        }
    }

    /// Reads `avail_event` from the used ring.
    pub fn read_avail_event<M: GuestMemoryAccess>(&self, mem: &M) -> (r: VirtioResult<u16>)
        requires
            self.wf(),
        ensures
            r == (match self.spec_used_ring() {
                Some(u) => if !u.spec_is_valid() {
                    Err(VirtioError::QueueNotReady)
                } else if !range_mapped(mem.mem(), u.spec_avail_event_addr(), 2) {
                    Err(VirtioError::InvalidAddress)
                } else {
                    Ok(crate::memory::mem_u16(mem.mem(), u.spec_avail_event_addr()))
                },
                None => Err(VirtioError::QueueNotReady),
            }),
    {
        if let Some(ref used_ring) = self.used_ring {
            used_ring.read_avail_event(mem)
        } else {
            Err(VirtioError::QueueNotReady)
        }
    }
}

impl AvailableRing {
    /// The `used_event` field as `read_used_event` reads it.
    pub open spec fn spec_read_used_event(&self, m: Map<int, u8>) -> VirtioResult<u16> {
        if !self.spec_is_valid() {
            Err(VirtioError::QueueNotReady)
        } else if !range_mapped(m, self.spec_used_event_addr(), 2) {
            Err(VirtioError::InvalidAddress)
        } else {
            Ok(crate::memory::mem_u16(m, self.spec_used_event_addr()))
        }
    }
}

/// With EVENT_IDX, once the device has notified, it does not notify again
/// until it has published a new used buffer: if the used index has not moved
/// since the last notification, no notification is due, whatever `used_event` says.
pub proof fn lemma_no_notification_without_new_buffers(event: u16, idx: u16)
    ensures
        !vring_need_event(event, idx, idx),
{
}

/// With EVENT_IDX, a driver that sets `used_event` to the index of the buffer
/// just published (one before the new used index) is notified, provided the
/// used index moved since the last notification.
pub proof fn lemma_notification_at_requested_index(new: u16, old: u16)
    requires
        new != old,
    ensures
        vring_need_event(((new + 0xffff) % 0x1_0000) as u16, new, old),
{
}

} // verus!
