//! The register file that every VirtIO MMIO device of the library keeps
//! (status, feature words and selectors, the queue selector and the queues,
//! interrupt status, configuration generation) and the accesses that all of
//! them answer alike. What a device does on a queue notification, a status
//! write or an access to its configuration space is its own.

use crate::config::VirtioConfig;
use crate::constants::{
    MMIO_MAGIC_VALUE, MMIO_VERSION, VIRTIO_MMIO_CONFIG_GENERATION, VIRTIO_MMIO_DEVICE_FEATURES,
    VIRTIO_MMIO_DEVICE_FEATURES_SEL, VIRTIO_MMIO_DEVICE_ID, VIRTIO_MMIO_DRIVER_FEATURES,
    VIRTIO_MMIO_DRIVER_FEATURES_SEL, VIRTIO_MMIO_INTERRUPT_ACK, VIRTIO_MMIO_INTERRUPT_STATUS,
    VIRTIO_MMIO_MAGIC_VALUE, VIRTIO_MMIO_QUEUE_AVAIL_HIGH, VIRTIO_MMIO_QUEUE_AVAIL_LOW,
    VIRTIO_MMIO_QUEUE_DESC_HIGH, VIRTIO_MMIO_QUEUE_DESC_LOW, VIRTIO_MMIO_QUEUE_NUM,
    VIRTIO_MMIO_QUEUE_NUM_MAX, VIRTIO_MMIO_QUEUE_READY, VIRTIO_MMIO_QUEUE_SEL,
    VIRTIO_MMIO_QUEUE_USED_HIGH, VIRTIO_MMIO_QUEUE_USED_LOW, VIRTIO_MMIO_STATUS,
    VIRTIO_MMIO_VENDOR_ID, VIRTIO_MMIO_VERSION, VIRTIO_MMIO_INT_VRING,
};
use crate::flags::{lemma_flag32, lemma_words64};
use crate::memory::GuestMemoryAccess;
use crate::queue::VirtioQueue;
use vstd::prelude::*;

verus! {

/// The 32-bit half of a 64-bit feature word that selector `sel` names: the
/// low half for 0, the high half for 1, nothing (0) otherwise.
pub open spec fn feature_word(features: u64, sel: u32) -> u32 {
    if sel == 0 {
        (features % 0x1_0000_0000) as u32
    } else if sel == 1 {
        (features / 0x1_0000_0000) as u32
    } else {
        0
    }
}

/// A 64-bit feature word with the half that `sel` names replaced by `val`;
/// unchanged for any other selector.
pub open spec fn set_feature_word(features: u64, sel: u32, val: u32) -> u64 {
    if sel == 0 {
        ((features / 0x1_0000_0000) * 0x1_0000_0000 + val) as u64
    } else if sel == 1 {
        (val * 0x1_0000_0000 + features % 0x1_0000_0000) as u64
    } else {
        features
    }
}

/// A guest address with its low 32 bits replaced by `val`.
pub open spec fn low_word_replaced(cur: usize, val: u32) -> usize {
    (((cur as u64) / 0x1_0000_0000) * 0x1_0000_0000 + val) as usize
}

/// A guest address with its high 32 bits replaced by `val` (on a 32-bit
/// machine the high half does not exist and the address keeps its low half).
pub open spec fn high_word_replaced(cur: usize, val: u32) -> usize {
    (val * 0x1_0000_0000 + (cur as u64) % 0x1_0000_0000) as usize
}

/// A queue as a device reset leaves it.
pub open spec fn queue_after_reset(q: VirtioQueue) -> VirtioQueue {
    VirtioQueue::spec_new(q.index, q.max_size).with_size(q.size)
}

/// Whether the common register file answers a write at `offset` (the queue
/// address registers only where the device has them).
pub open spec fn handles_write(offset: usize, queue_addrs: bool) -> bool {
    ||| offset == VIRTIO_MMIO_DEVICE_FEATURES_SEL
    ||| offset == VIRTIO_MMIO_DRIVER_FEATURES
    ||| offset == VIRTIO_MMIO_DRIVER_FEATURES_SEL
    ||| offset == VIRTIO_MMIO_QUEUE_SEL
    ||| offset == VIRTIO_MMIO_QUEUE_NUM
    ||| offset == VIRTIO_MMIO_QUEUE_READY
    ||| offset == VIRTIO_MMIO_INTERRUPT_ACK
    ||| queue_addrs && is_queue_addr_register(offset)
}

/// The six registers that carry the halves of the three ring addresses.
pub open spec fn is_queue_addr_register(offset: usize) -> bool {
    ||| offset == VIRTIO_MMIO_QUEUE_DESC_LOW
    ||| offset == VIRTIO_MMIO_QUEUE_DESC_HIGH
    ||| offset == VIRTIO_MMIO_QUEUE_AVAIL_LOW
    ||| offset == VIRTIO_MMIO_QUEUE_AVAIL_HIGH
    ||| offset == VIRTIO_MMIO_QUEUE_USED_LOW
    ||| offset == VIRTIO_MMIO_QUEUE_USED_HIGH
}

/// Whether queue `q` is queue `o` after the device processed requests on
/// it: its configuration and rings stay where they are; only the indices
/// the device advances (last available, used, last notified) may move.
pub open spec fn queue_progressed(q: VirtioQueue, o: VirtioQueue) -> bool {
    &&& q.index == o.index
    &&& q.size == o.size
    &&& q.max_size == o.max_size
    &&& q.ready == o.ready
    &&& q.desc_table == o.desc_table
    &&& q.desc_table_addr == o.desc_table_addr
    &&& q.avail_ring_addr == o.avail_ring_addr
    &&& q.used_ring_addr == o.used_ring_addr
    &&& q.event_idx_enabled == o.event_idx_enabled
    &&& (q.spec_avail_ring() is Some <==> o.spec_avail_ring() is Some)
    &&& (q.spec_avail_ring() is Some ==> q.spec_avail_ring()->Some_0.base_addr
        == o.spec_avail_ring()->Some_0.base_addr && q.spec_avail_ring()->Some_0.size
        == o.spec_avail_ring()->Some_0.size)
    &&& (q.spec_used_ring() is Some <==> o.spec_used_ring() is Some)
    &&& (q.spec_used_ring() is Some ==> q.spec_used_ring()->Some_0.base_addr
        == o.spec_used_ring()->Some_0.base_addr && q.spec_used_ring()->Some_0.size
        == o.spec_used_ring()->Some_0.size)
}

/// The register file as values.
pub struct RegistersView {
    pub status: u32,
    pub driver_features: u64,
    pub device_features_sel: u32,
    pub driver_features_sel: u32,
    pub queue_sel: u16,
    pub queues: Seq<VirtioQueue>,
    pub interrupt_status: u32,
    pub config_generation: u32,
}

impl RegistersView {
    /// Every queue is well formed, has a nonzero size and sits at its own index.
    pub open spec fn wf(self) -> bool {
        &&& self.queues.len() <= u16::MAX
        &&& forall|i: int|
            0 <= i < self.queues.len() ==> #[trigger] self.queues[i].wf() && self.queues[i].size > 0
                && self.queues[i].index == i
    }

    /// Whether this register file is `o` after the device processed
    /// requests on queue `idx`: only that queue's indices moved, and the
    /// interrupt status at most gained the used-buffer bit.
    pub open spec fn progressed_on(self, o: Self, idx: int) -> bool {
        &&& self.status == o.status
        &&& self.driver_features == o.driver_features
        &&& self.device_features_sel == o.device_features_sel
        &&& self.driver_features_sel == o.driver_features_sel
        &&& self.queue_sel == o.queue_sel
        &&& self.config_generation == o.config_generation
        &&& self.queues.len() == o.queues.len()
        &&& forall|i: int| 0 <= i < self.queues.len() && i != idx ==> self.queues[i] == o.queues[i]
        &&& (0 <= idx < self.queues.len() ==> queue_progressed(self.queues[idx], o.queues[idx]))
        &&& (self.interrupt_status == o.interrupt_status || self.interrupt_status == o.interrupt_status
            | VIRTIO_MMIO_INT_VRING)
    }

    /// The queue that the queue selector names, if there is one.
    pub open spec fn selected(self) -> Option<VirtioQueue> {
        if (self.queue_sel as int) < self.queues.len() {
            Some(self.queues[self.queue_sel as int])
        } else {
            None
        }
    }

    /// This register file with the selected queue replaced by `f` of it.
    pub open spec fn with_selected(self, q: VirtioQueue) -> Self {
        RegistersView { queues: self.queues.update(self.queue_sel as int, q), ..self }
    }

    /// The value of a common register at `offset`, or `None` for an offset
    /// that is no common register (the device answers those itself).
    pub open spec fn read_common(self, offset: usize, c: VirtioConfig) -> Option<u32> {
        if offset == VIRTIO_MMIO_MAGIC_VALUE {
            Some(MMIO_MAGIC_VALUE)
        } else if offset == VIRTIO_MMIO_VERSION {
            Some(MMIO_VERSION)
        } else if offset == VIRTIO_MMIO_DEVICE_ID {
            Some(c.device_id)
        } else if offset == VIRTIO_MMIO_VENDOR_ID {
            Some(c.vendor_id)
        } else if offset == VIRTIO_MMIO_DEVICE_FEATURES {
            Some(feature_word(c.device_features, self.device_features_sel))
        } else if offset == VIRTIO_MMIO_DEVICE_FEATURES_SEL {
            Some(self.device_features_sel)
        } else if offset == VIRTIO_MMIO_DRIVER_FEATURES {
            Some(feature_word(self.driver_features, self.driver_features_sel))
        } else if offset == VIRTIO_MMIO_DRIVER_FEATURES_SEL {
            Some(self.driver_features_sel)
        } else if offset == VIRTIO_MMIO_QUEUE_SEL {
            Some(self.queue_sel as u32)
        } else if offset == VIRTIO_MMIO_QUEUE_NUM_MAX {
            Some(c.max_queue_size as u32)
        } else if offset == VIRTIO_MMIO_QUEUE_NUM {
            Some(
                match self.selected() {
                    Some(q) => q.size as u32,
                    None => 0,
                },
            )
        } else if offset == VIRTIO_MMIO_QUEUE_READY {
            Some(
                match self.selected() {
                    Some(q) => if q.ready {
                        1
                    } else {
                        0
                    },
                    None => 0,
                },
            )
        } else if offset == VIRTIO_MMIO_INTERRUPT_STATUS {
            Some(self.interrupt_status)
        } else if offset == VIRTIO_MMIO_STATUS {
            Some(self.status)
        } else if offset == VIRTIO_MMIO_CONFIG_GENERATION {
            Some(self.config_generation)
        } else {
            None
        }
    }

    /// Whether a write of the whole machine word `val` at `offset` reaches
    /// past the low 32 bits: a driver-feature write to the low word
    /// (selector 0) of a value of 2^32 or more.
    pub open spec fn wide_feature_write(self, offset: usize, val: usize) -> bool {
        offset == VIRTIO_MMIO_DRIVER_FEATURES && self.driver_features_sel == 0 && val >= 0x1_0000_0000
    }

    /// The register file after a write of the whole machine word `val` at
    /// `offset`: as `write_common` of its low 32 bits, except that a wide
    /// driver-feature write (`wide_feature_write`) ORs the whole word over
    /// the kept high half of the driver features.
    pub open spec fn write_common_word(self, offset: usize, val: usize, queue_addrs: bool) -> Self {
        if self.wide_feature_write(offset, val) {
            RegistersView {
                driver_features: (self.driver_features & 0xFFFF_FFFF_0000_0000u64) | (val as u64),
                ..self
            }
        } else {
            self.write_common(offset, (val as int % 0x1_0000_0000) as u32, queue_addrs)
        }
    }

    /// The register file after a write of `val` at `offset`, for an offset
    /// that `handles_write` accepts; unchanged otherwise.
    pub open spec fn write_common(self, offset: usize, val: u32, queue_addrs: bool) -> Self {
        if !handles_write(offset, queue_addrs) {
            self
        } else if offset == VIRTIO_MMIO_DEVICE_FEATURES_SEL {
            RegistersView { device_features_sel: val, ..self }
        } else if offset == VIRTIO_MMIO_DRIVER_FEATURES {
            RegistersView {
                driver_features: set_feature_word(self.driver_features, self.driver_features_sel, val),
                ..self
            }
        } else if offset == VIRTIO_MMIO_DRIVER_FEATURES_SEL {
            RegistersView { driver_features_sel: val, ..self }
        } else if offset == VIRTIO_MMIO_QUEUE_SEL {
            if ((val % 0x1_0000) as int) < self.queues.len() {
                RegistersView { queue_sel: (val % 0x1_0000) as u16, ..self }
            } else {
                self
            }
        } else if offset == VIRTIO_MMIO_INTERRUPT_ACK {
            RegistersView { interrupt_status: self.interrupt_status & !val, ..self }
        } else {
            match self.selected() {
                None => self,
                Some(q) => self.with_selected(
                    if offset == VIRTIO_MMIO_QUEUE_NUM {
                        q.spec_after_set_size((val % 0x1_0000) as u16)
                    } else if offset == VIRTIO_MMIO_QUEUE_READY {
                        VirtioQueue { ready: val != 0, ..q }
                    } else if offset == VIRTIO_MMIO_QUEUE_DESC_LOW {
                        q.spec_after_set_desc(low_word_replaced(q.desc_table_addr, val))
                    } else if offset == VIRTIO_MMIO_QUEUE_DESC_HIGH {
                        q.spec_after_set_desc(high_word_replaced(q.desc_table_addr, val))
                    } else if offset == VIRTIO_MMIO_QUEUE_AVAIL_LOW {
                        q.spec_after_set_avail(low_word_replaced(q.avail_ring_addr, val))
                    } else if offset == VIRTIO_MMIO_QUEUE_AVAIL_HIGH {
                        q.spec_after_set_avail(high_word_replaced(q.avail_ring_addr, val))
                    } else if offset == VIRTIO_MMIO_QUEUE_USED_LOW {
                        q.spec_after_set_used(low_word_replaced(q.used_ring_addr, val))
                    } else {
                        q.spec_after_set_used(high_word_replaced(q.used_ring_addr, val))
                    },
                ),
            }
        }
    }

    /// Guest memory after a write of `val` at `offset`: only marking the
    /// selected queue ready touches it (see `VirtioQueue::set_ready`).
    pub open spec fn write_common_memory(self, offset: usize, val: u32, m: Map<int, u8>) -> Map<
        int,
        u8,
    > {
        if offset == VIRTIO_MMIO_QUEUE_READY && val != 0 {
            match self.selected() {
                Some(q) => q.spec_ready_memory(m),
                None => m,
            }
        } else {
            m
        }
    }

    /// The register file after a device reset: feature words, selectors,
    /// interrupt status and configuration generation cleared, every queue
    /// reset; the status register is the device's own business.
    pub open spec fn reset(self) -> Self {
        RegistersView {
            status: self.status,
            driver_features: 0,
            device_features_sel: 0,
            driver_features_sel: 0,
            queue_sel: 0,
            queues: Seq::new(self.queues.len(), |i: int| queue_after_reset(self.queues[i])),
            interrupt_status: 0,
            config_generation: 0,
        }
    }
}

/// The register file of a VirtIO MMIO device.
pub struct MmioRegisters {
    /// Device status
    pub status: u32,
    /// Features the driver accepted
    pub driver_features: u64,
    /// Device features selector
    pub device_features_sel: u32,
    /// Driver features selector
    pub driver_features_sel: u32,
    /// Current queue selector
    pub queue_sel: u16,
    /// The device's queues
    pub queues: Vec<VirtioQueue>,
    /// Interrupt status
    pub interrupt_status: u32,
    /// Configuration generation
    pub config_generation: u32,
}

impl View for MmioRegisters {
    type V = RegistersView;

    open spec fn view(&self) -> RegistersView {
        RegistersView {
            status: self.status,
            driver_features: self.driver_features,
            device_features_sel: self.device_features_sel,
            driver_features_sel: self.driver_features_sel,
            queue_sel: self.queue_sel,
            queues: self.queues@,
            interrupt_status: self.interrupt_status,
            config_generation: self.config_generation,
        }
    }
}

impl MmioRegisters {
    /// A register file over `queues`, everything else zero but the driver
    /// feature word.
    pub fn new(queues: Vec<VirtioQueue>, driver_features: u64) -> (r: Self)
        ensures
            r@ == (RegistersView {
                status: 0,
                driver_features,
                device_features_sel: 0,
                driver_features_sel: 0,
                queue_sel: 0,
                queues: queues@,
                interrupt_status: 0,
                config_generation: 0,
            }),
    {
        MmioRegisters {
            status: 0,
            driver_features,
            device_features_sel: 0,
            driver_features_sel: 0,
            queue_sel: 0,
            queues,
            interrupt_status: 0,
            config_generation: 0,
        }
    }

    /// The value of a common register, or `None` where the device answers.
    pub fn read_common(&self, offset: usize, c: &VirtioConfig) -> (r: Option<u32>)
        ensures
            r == self@.read_common(offset, *c),
    {
        proof {
            lemma_words64(c.device_features, 0);
            lemma_words64(self.driver_features, 0);
        }
        if offset == VIRTIO_MMIO_MAGIC_VALUE {
            Some(MMIO_MAGIC_VALUE)
        } else if offset == VIRTIO_MMIO_VERSION {
            Some(MMIO_VERSION)
        } else if offset == VIRTIO_MMIO_DEVICE_ID {
            Some(c.device_id)
        } else if offset == VIRTIO_MMIO_VENDOR_ID {
            Some(c.vendor_id)
        } else if offset == VIRTIO_MMIO_DEVICE_FEATURES {
            Some(Self::select_word(c.device_features, self.device_features_sel))
        } else if offset == VIRTIO_MMIO_DEVICE_FEATURES_SEL {
            Some(self.device_features_sel)
        } else if offset == VIRTIO_MMIO_DRIVER_FEATURES {
            Some(Self::select_word(self.driver_features, self.driver_features_sel))
        } else if offset == VIRTIO_MMIO_DRIVER_FEATURES_SEL {
            Some(self.driver_features_sel)
        } else if offset == VIRTIO_MMIO_QUEUE_SEL {
            Some(self.queue_sel as u32)
        } else if offset == VIRTIO_MMIO_QUEUE_NUM_MAX {
            Some(c.max_queue_size as u32)
        } else if offset == VIRTIO_MMIO_QUEUE_NUM {
            if (self.queue_sel as usize) < self.queues.len() {
                Some(self.queues[self.queue_sel as usize].size as u32)
            } else {
                Some(0)
            }
        } else if offset == VIRTIO_MMIO_QUEUE_READY {
            if (self.queue_sel as usize) < self.queues.len() {
                if self.queues[self.queue_sel as usize].ready {
                    Some(1)
                } else {
                    Some(0)
                }
            } else {
                Some(0)
            }
        } else if offset == VIRTIO_MMIO_INTERRUPT_STATUS {
            Some(self.interrupt_status)
        } else if offset == VIRTIO_MMIO_STATUS {
            Some(self.status)
        } else if offset == VIRTIO_MMIO_CONFIG_GENERATION {
            Some(self.config_generation)
        } else {
            None
        }
    }

    /// The half of a feature word that a selector names.
    fn select_word(features: u64, sel: u32) -> (w: u32)
        ensures
            w == feature_word(features, sel),
    {
        proof {
            lemma_words64(features, 0);
        }
        match sel {
            0 => features as u32,
            1 => (features >> 32) as u32,
            _ => 0,
        }
    }

    /// A feature word with the half that a selector names replaced.
    fn replace_word(features: u64, sel: u32, val: u32) -> (f: u64)
        ensures
            f == set_feature_word(features, sel, val),
    {
        proof {
            lemma_words64(features, val);
        }
        match sel {
            0 => (features & 0xFFFF_FFFF_0000_0000) | (val as u64),
            1 => (features & 0x0000_0000_FFFF_FFFF) | ((val as u64) << 32),
            _ => features,
        }
    }

    /// An address with its low half replaced.
    fn replace_low(cur: usize, val: u32) -> (a: usize)
        ensures
            a == low_word_replaced(cur, val),
    {
        let x = cur as u64;
        proof {
            lemma_words64(x, val);
        }
        let high = (x >> 32) as u32;
        let addr = ((high as u64) << 32) | (val as u64);
        proof {
            lemma_words64(x, val);
            assert(((high as u64) << 32u64) | (val as u64) == (x & 0xFFFF_FFFF_0000_0000u64) | (
            val as u64)) by (bit_vector)
                requires
                    high == (x >> 32u64) as u32,
            ;
        }
        addr as usize
    }

    /// An address with its high half replaced.
    fn replace_high(cur: usize, val: u32) -> (a: usize)
        ensures
            a == high_word_replaced(cur, val),
    {
        let x = cur as u64;
        let low = x as u32;
        let addr = ((val as u64) << 32) | (low as u64);
        proof {
            lemma_words64(x, val);
            assert(((val as u64) << 32u64) | (low as u64) == (x & 0x0000_0000_FFFF_FFFFu64) | (
            (val as u64) << 32u64)) by (bit_vector)
                requires
                    low == x as u32,
            ;
        }
        addr as usize
    }

    /// Whether the common register file answers a write at `offset`.
    pub fn handles(offset: usize, queue_addrs: bool) -> (b: bool)
        ensures
            b == handles_write(offset, queue_addrs),
    {
        offset == VIRTIO_MMIO_DEVICE_FEATURES_SEL || offset == VIRTIO_MMIO_DRIVER_FEATURES || offset
            == VIRTIO_MMIO_DRIVER_FEATURES_SEL || offset == VIRTIO_MMIO_QUEUE_SEL || offset
            == VIRTIO_MMIO_QUEUE_NUM || offset == VIRTIO_MMIO_QUEUE_READY || offset
            == VIRTIO_MMIO_INTERRUPT_ACK || (queue_addrs && (offset == VIRTIO_MMIO_QUEUE_DESC_LOW
            || offset == VIRTIO_MMIO_QUEUE_DESC_HIGH || offset == VIRTIO_MMIO_QUEUE_AVAIL_LOW
            || offset == VIRTIO_MMIO_QUEUE_AVAIL_HIGH || offset == VIRTIO_MMIO_QUEUE_USED_LOW
            || offset == VIRTIO_MMIO_QUEUE_USED_HIGH))
    }

    /// Handles a write at `offset` if it is one of the common registers
    /// (`handles_write`); returns whether it was.
    #[verifier::spinoff_prover]
    pub fn write_common<M: GuestMemoryAccess>(
        &mut self,
        mem: &mut M,
        offset: usize,
        val: u32,
        queue_addrs: bool,
    ) -> (handled: bool)
        requires
            old(self)@.wf(),
        ensures
            handled == handles_write(offset, queue_addrs),
            final(self)@ == old(self)@.write_common(offset, val, queue_addrs),
            final(mem).mem() == old(self)@.write_common_memory(offset, val, old(mem).mem()),
            final(self)@.wf(),
    {
        if offset == VIRTIO_MMIO_DEVICE_FEATURES_SEL {
            self.device_features_sel = val;
        } else if offset == VIRTIO_MMIO_DRIVER_FEATURES {
            self.driver_features = Self::replace_word(
                self.driver_features,
                self.driver_features_sel,
                val,
            );
        } else if offset == VIRTIO_MMIO_DRIVER_FEATURES_SEL {
            self.driver_features_sel = val;
        } else if offset == VIRTIO_MMIO_QUEUE_SEL {
            let queue_sel = (val % 0x1_0000) as u16;
            if (queue_sel as usize) < self.queues.len() {
                self.queue_sel = queue_sel;
            }
        } else if offset == VIRTIO_MMIO_INTERRUPT_ACK {
            self.interrupt_status = self.interrupt_status & !val;
        } else if offset == VIRTIO_MMIO_QUEUE_NUM || offset == VIRTIO_MMIO_QUEUE_READY || (
        queue_addrs && (offset == VIRTIO_MMIO_QUEUE_DESC_LOW || offset == VIRTIO_MMIO_QUEUE_DESC_HIGH
            || offset == VIRTIO_MMIO_QUEUE_AVAIL_LOW || offset == VIRTIO_MMIO_QUEUE_AVAIL_HIGH
            || offset == VIRTIO_MMIO_QUEUE_USED_LOW || offset == VIRTIO_MMIO_QUEUE_USED_HIGH)) {
            self.write_queue_register(mem, offset, val);
        } else {
            return false;
        }
        proof {
            if self.queues@ == old(self).queues@ {
                assert forall|i: int| 0 <= i < self@.queues.len() implies #[trigger] self@.queues[i].wf()
                    && self@.queues[i].size > 0 && self@.queues[i].index == i by {
                    assert(old(self)@.queues[i].wf());
                }
                assert(self@.queues.len() <= u16::MAX);
            }
            assert(self@.wf());
        }
        true
    }

    /// Handles a write to one of the registers of the selected queue.
    fn write_queue_register<M: GuestMemoryAccess>(&mut self, mem: &mut M, offset: usize, val: u32)
        requires
            old(self)@.wf(),
            offset == VIRTIO_MMIO_QUEUE_NUM || offset == VIRTIO_MMIO_QUEUE_READY
                || is_queue_addr_register(offset),
        ensures
            final(self)@ == old(self)@.write_common(offset, val, true),
            final(mem).mem() == old(self)@.write_common_memory(offset, val, old(mem).mem()),
            final(self)@.wf(),
    {
        let sel = self.queue_sel as usize;
        if sel < self.queues.len() {
            let mut q = self.queues[sel];
            proof {
                assert(old(self)@.queues[sel as int].wf());
                assert(q.wf() && q.size > 0 && q.index == sel);
            }
            if offset == VIRTIO_MMIO_QUEUE_NUM {
                let _ = q.set_size((val % 0x1_0000) as u16);
            } else if offset == VIRTIO_MMIO_QUEUE_READY {
                q.set_ready(mem, val != 0);
            } else if offset == VIRTIO_MMIO_QUEUE_DESC_LOW {
                let _ = q.set_desc_table_addr(Self::replace_low(q.desc_table_addr, val));
            } else if offset == VIRTIO_MMIO_QUEUE_DESC_HIGH {
                let _ = q.set_desc_table_addr(Self::replace_high(q.desc_table_addr, val));
            } else if offset == VIRTIO_MMIO_QUEUE_AVAIL_LOW {
                let _ = q.set_avail_ring_addr(Self::replace_low(q.avail_ring_addr, val));
            } else if offset == VIRTIO_MMIO_QUEUE_AVAIL_HIGH {
                let _ = q.set_avail_ring_addr(Self::replace_high(q.avail_ring_addr, val));
            } else if offset == VIRTIO_MMIO_QUEUE_USED_LOW {
                let _ = q.set_used_ring_addr(Self::replace_low(q.used_ring_addr, val));
            } else {
                let _ = q.set_used_ring_addr(Self::replace_high(q.used_ring_addr, val));
            }
            self.queues.set(sel, q);
            proof {
                assert(q.wf() && q.size > 0 && q.index == sel);
                assert forall|i: int| 0 <= i < self.queues@.len() implies #[trigger] self.queues@[i].wf()
                    && self.queues@[i].size > 0 && self.queues@[i].index == i by {
                    if i != sel {
                        assert(old(self)@.queues[i].wf());
                    }
                }
                assert(self@.queues.len() <= u16::MAX);
                assert(self@.wf());
            }
        } else {
            proof {
                assert(self@ == old(self)@);
                assert(self@.wf());
            }
        }
    }

    /// Resets the register file (see `RegistersView::reset`).
    pub fn reset(&mut self)
        requires
            old(self)@.wf(),
        ensures
            final(self)@ == old(self)@.reset(),
            final(self)@.wf(),
    {
        self.driver_features = 0;
        self.device_features_sel = 0;
        self.driver_features_sel = 0;
        self.queue_sel = 0;
        self.interrupt_status = 0;
        self.config_generation = 0;
        let n = self.queues.len();
        let ghost old_queues = self.queues@;
        proof {
            assert forall|k: int| 0 <= k < n implies (#[trigger] old_queues[k]).size > 0 && old_queues[k].index == k by {
                assert(old(self)@.queues[k].wf());
            }
        }
        let mut i: usize = 0;
        while i < n
            invariant
                i <= n,
                n == old_queues.len(),
                self.queues@.len() == n,
                forall|k: int| 0 <= k < i ==> #[trigger] self.queues@[k] == queue_after_reset(old_queues[k]),
                forall|k: int| i <= k < n ==> #[trigger] self.queues@[k] == old_queues[k],
                forall|k: int| 0 <= k < n ==> (#[trigger] old_queues[k]).size > 0 && old_queues[k].index == k,
                self.status == old(self).status,
                self.driver_features == 0,
                self.device_features_sel == 0,
                self.driver_features_sel == 0,
                self.queue_sel == 0,
                self.interrupt_status == 0,
                self.config_generation == 0,
            decreases n - i,
        {
            let mut q = self.queues[i];
            q.reset();
            self.queues.set(i, q);
            i = i + 1;
        }
        proof {
            assert(self.queues@ =~= Seq::new(old_queues.len(), |k: int| queue_after_reset(old_queues[k])));
        }
    }

    /// Sets the driver features.
    pub fn set_driver_features(&mut self, features: u64)
        requires
            old(self)@.wf(),
        ensures
            final(self)@ == (RegistersView { driver_features: features, ..old(self)@ }),
            final(self)@.wf(),
    {
        self.driver_features = features;
        proof {
            assert(self@.queues == old(self)@.queues);
            assert forall|i: int| 0 <= i < self@.queues.len() implies #[trigger] self@.queues[i].wf()
                && self@.queues[i].size > 0 && self@.queues[i].index == i by {
                assert(old(self)@.queues[i].wf());
            }
        }
    }

    /// Sets the status register.
    pub fn set_status(&mut self, status: u32)
        requires
            old(self)@.wf(),
        ensures
            final(self)@ == (RegistersView { status, ..old(self)@ }),
            final(self)@.wf(),
    {
        self.status = status;
        proof {
            assert(self@.queues == old(self)@.queues);
            assert forall|i: int| 0 <= i < self@.queues.len() implies #[trigger] self@.queues[i].wf()
                && self@.queues[i].size > 0 && self@.queues[i].index == i by {
                assert(old(self)@.queues[i].wf());
            }
        }
    }

    /// Raises interrupt bits.
    pub fn raise_interrupt(&mut self, bits: u32)
        ensures
            final(self)@ == (RegistersView { interrupt_status: old(self).interrupt_status | bits, ..old(self)@ }),
    {
        self.interrupt_status = self.interrupt_status | bits;
    }
}

/// Replacing queue `qi` by a queue progressed from it keeps the register
/// file well formed and progressed on `qi`.
pub proof fn lemma_queue_replaced(o: RegistersView, n: RegistersView, qi: int, q: VirtioQueue)
    requires
        o.wf(),
        0 <= qi < o.queues.len(),
        q.wf(),
        queue_progressed(q, o.queues[qi]),
        n == (RegistersView { queues: o.queues.update(qi, q), ..o }),
    ensures
        n.wf(),
        n.progressed_on(o, qi),
        n.queues[qi] == q,
{
    assert(o.queues[qi].wf());
    assert forall|i: int| 0 <= i < n.queues.len() implies #[trigger] n.queues[i].wf() && n.queues[i].size > 0
        && n.queues[i].index == i by {
        assert(o.queues[i].wf());
    }
}

/// Doing nothing is progress on any queue.
pub proof fn lemma_progressed_on_refl(r: RegistersView, idx: int)
    ensures
        r.progressed_on(r, idx),
{
}

/// Acknowledging interrupt bits clears exactly those bits and keeps the others.
pub proof fn lemma_ack_clears_only_acknowledged(r: RegistersView, val: u32)
    ensures
        r.write_common(VIRTIO_MMIO_INTERRUPT_ACK, val, true).interrupt_status & val == 0,
        r.write_common(VIRTIO_MMIO_INTERRUPT_ACK, val, true).interrupt_status & !val
            == r.interrupt_status & !val,
{
    lemma_flag32(r.interrupt_status, val);
}

/// A driver feature word written through the selector reads back through it,
/// and leaves the other half of the features as it was.
pub proof fn lemma_driver_feature_write_read(r: RegistersView, val: u32, c: VirtioConfig)
    requires
        r.driver_features_sel == 0 || r.driver_features_sel == 1,
    ensures
        r.write_common(VIRTIO_MMIO_DRIVER_FEATURES, val, true).read_common(
            VIRTIO_MMIO_DRIVER_FEATURES,
            c,
        ) == Some(val),
        feature_word(
            r.write_common(VIRTIO_MMIO_DRIVER_FEATURES, val, true).driver_features,
            (1 - r.driver_features_sel) as u32,
        ) == feature_word(r.driver_features, (1 - r.driver_features_sel) as u32),
{
    let f = r.driver_features;
    assert(0 <= f % 0x1_0000_0000 < 0x1_0000_0000);
    assert(f / 0x1_0000_0000 < 0x1_0000_0000);
    assert((f / 0x1_0000_0000) * 0x1_0000_0000 + f % 0x1_0000_0000 == f);
    let lo = (f / 0x1_0000_0000) * 0x1_0000_0000 + val;
    let hi = val * 0x1_0000_0000 + f % 0x1_0000_0000;
    assert(lo % 0x1_0000_0000 == val && lo / 0x1_0000_0000 == f / 0x1_0000_0000) by (nonlinear_arith)
        requires
            lo == (f / 0x1_0000_0000) * 0x1_0000_0000 + val,
            0 <= val < 0x1_0000_0000,
    ;
    assert(hi % 0x1_0000_0000 == f % 0x1_0000_0000 && hi / 0x1_0000_0000 == val) by (nonlinear_arith)
        requires
            hi == val * 0x1_0000_0000 + f % 0x1_0000_0000,
            0 <= f % 0x1_0000_0000 < 0x1_0000_0000,
    ;
}

/// After a reset no queue is ready and no ring address is set, whatever the
/// driver configured before; queue sizes stay.
pub proof fn lemma_reset_clears_queues(r: RegistersView, i: int)
    requires
        0 <= i < r.queues.len(),
    ensures
        !r.reset().queues[i].ready,
        r.reset().queues[i].desc_table_addr == 0,
        r.reset().queues[i].avail_ring_addr == 0,
        r.reset().queues[i].used_ring_addr == 0,
        r.reset().queues[i].size == r.queues[i].size,
        r.reset().interrupt_status == 0,
        r.reset().driver_features == 0,
{
}

} // verus!
