//! The VirtIO block device behind its MMIO window: register accesses, and
//! the processing of the requests the guest places on its queue.

use crate::block::backend::{BlockBackend, MemoryBackend, create_default_backend};
use crate::block::config::VirtioBlockConfig;
use crate::block::processing::{
    BlockProgress, spec_chain_done, spec_chain_fails, spec_failed_returned, spec_parse_request, spec_queue_finished,
    spec_return_chain, spec_slot_processed, spec_slots_processed, lemma_slot_of_chain, lemma_slots_extend, lemma_slots_none,
};
use crate::queue::available::{lemma_ring_step, ring_distance};
use crate::block::constants::{
    MIN_DESCRIPTOR_CHAIN_LENGTH, VIRTIO_BLK_FEATURES, VIRTIO_BLK_REQ_SECTOR_OFFSET,
};
use crate::block::request::{BlockRequest, BlockRequestType, block_completed, buffers_len, request_type_of};
use crate::config::VirtioConfig;
use crate::constants::{
    VIRTIO_DEVICE_ID_BLOCK, VIRTIO_MAX_DEVICES, VIRTIO_MMIO_BASE, VIRTIO_MMIO_CONFIG,
    VIRTIO_MMIO_DEVICE_SIZE, VIRTIO_MMIO_INT_VRING, VIRTIO_MMIO_QUEUE_NOTIFY, VIRTIO_MMIO_STATUS,
    VIRTIO_MMIO_TOTAL_SIZE, VIRTIO_STATUS_DRIVER_OK,
};
use crate::device_type::VirtioDeviceType;
use crate::error::{VirtioError, VirtioResult};
use crate::flags::lemma_or_twice32;
use crate::memory::{GuestMemoryAccess, mem_u32, mem_u64, range_mapped, read_u32, read_u64};
use crate::queue::descriptor::data_buffers;
use crate::queue::{VirtioQueue, VirtqDesc};
use crate::regs::{MmioRegisters, RegistersView, handles_write, lemma_queue_replaced};
use crate::transport::{AccessWidth, MmioTransport};
use vstd::prelude::*;

verus! {

/// VirtIO MMIO block device state.
pub struct VirtioMmioDevice<B: BlockBackend> {
    /// Base IPA address
    pub base_ipa: usize,
    /// MMIO region length
    pub length: usize,
    /// Device configuration
    pub config: VirtioConfig,
    /// Block device configuration
    pub block_config: VirtioBlockConfig,
    /// The register file
    pub regs: MmioRegisters,
    /// Block backend
    pub backend: B,
}

impl<B: BlockBackend> VirtioMmioDevice<B> {
    /// The device's invariant: a block device configuration for its window,
    /// and a well-formed register file.
    pub open spec fn wf(&self) -> bool {
        &&& self.config == VirtioConfig::spec_new(
            self.config.device_index,
            VIRTIO_DEVICE_ID_BLOCK,
            VIRTIO_BLK_FEATURES,
            1,
        )
        &&& self.regs@.wf()
    }

    /// Whether the device index names one of the MMIO windows.
    pub open spec fn spec_enabled(&self) -> bool {
        self.config.device_index < VIRTIO_MAX_DEVICES
    }

    /// The start of this device's window.
    pub open spec fn spec_window_start(&self) -> int {
        VIRTIO_MMIO_BASE + self.config.device_index * VIRTIO_MMIO_DEVICE_SIZE
    }

    /// The register offset that an access at `addr` reaches, or `None` when
    /// the device is disabled or `addr` lies outside its window.
    pub open spec fn spec_window_offset(&self, addr: usize) -> Option<usize> {
        if !self.spec_enabled() {
            None
        } else if addr < self.spec_window_start() || addr >= self.spec_window_start()
            + VIRTIO_MMIO_DEVICE_SIZE {
            None
        } else {
            Some((addr - self.spec_window_start()) as usize)
        }
    }

    /// What a read at `addr` of width `width` returns.
    pub open spec fn spec_read(&self, addr: usize, width: AccessWidth) -> VirtioResult<usize> {
        match self.spec_window_offset(addr) {
            None => Ok(0),
            Some(off) => if width != AccessWidth::Dword {
                Err(VirtioError::InvalidAccessWidth)
            } else {
                match self.regs@.read_common(off, self.config) {
                    Some(v) => Ok(v as usize),
                    None => if off >= VIRTIO_MMIO_CONFIG {
                        Ok(self.block_config.spec_read((off - VIRTIO_MMIO_CONFIG) as u64) as usize)
                    } else {
                        Err(VirtioError::InvalidRegister)
                    },
                }
            },
        }
    }

    /// The register file after the driver wrote `status`: 0 resets the
    /// device, anything else is stored.
    pub open spec fn spec_status_written(r: RegistersView, status: u32) -> RegistersView {
        if status == 0 {
            RegistersView { status: 0, ..r.reset() }
        } else {
            RegistersView { status, ..r }
        }
    }

    /// Whether a notification of queue `idx` leads to processing: the driver
    /// is done, and the queue exists, is ready and has all three rings.
    pub open spec fn spec_will_process(&self, idx: u16) -> bool {
        &&& self.regs@.status & VIRTIO_STATUS_DRIVER_OK != 0
        &&& (idx as int) < self.regs@.queues.len()
        &&& self.regs@.queues[idx as int].spec_is_valid()
    }

    /// `n` is this device with only its backend, and the indices and
    /// interrupt status that processing queue `idx` moves, changed.
    pub open spec fn spec_processed(&self, n: Self, idx: int) -> bool {
        &&& n.base_ipa == self.base_ipa
        &&& n.length == self.length
        &&& n.config == self.config
        &&& n.block_config == self.block_config
        &&& n.regs@.progressed_on(self.regs@, idx)
        &&& n.regs@.wf()
    }
}

impl<B: BlockBackend> VirtioMmioDevice<B> {
    /// Creates the block device in window `device_index` over `backend`.
    pub fn with_backend(device_index: usize, backend: B) -> (d: Self)
        requires
            VirtioConfig::spec_new(device_index, VIRTIO_DEVICE_ID_BLOCK, VIRTIO_BLK_FEATURES, 1).addressable(),
        ensures
            d.wf(),
            d.config == VirtioConfig::spec_new(device_index, VIRTIO_DEVICE_ID_BLOCK, VIRTIO_BLK_FEATURES, 1),
            d.base_ipa == d.config.spec_device_mmio_addr(),
            d.length == d.config.total_mmio_size,
            d.block_config == VirtioBlockConfig::spec_default(),
            d.backend == backend,
            d.regs@ == (RegistersView {
                status: 0,
                driver_features: VIRTIO_BLK_FEATURES,
                device_features_sel: 0,
                driver_features_sel: 0,
                queue_sel: 0,
                queues: seq![VirtioQueue::spec_new(0, d.config.max_queue_size)],
                interrupt_status: 0,
                config_generation: 0,
            }),
    {
        let config = VirtioConfig::new_block_device(device_index);
        let mut queues: Vec<VirtioQueue> = Vec::new();
        queues.push(VirtioQueue::new(0, config.max_queue_size));
        let base_ipa = config.get_device_mmio_addr();
        let length = config.total_mmio_size;
        let regs = MmioRegisters::new(queues, VIRTIO_BLK_FEATURES);
        proof {
            assert(regs@.queues =~= seq![VirtioQueue::spec_new(0, config.max_queue_size)]);
        }
        Self { base_ipa, length, config, block_config: VirtioBlockConfig::default(), regs, backend }
    }

    /// Whether the device index names one of the MMIO windows.
    pub fn is_enabled(&self) -> (b: bool)
        ensures
            b == self.spec_enabled(),
    {
        self.config.is_valid_device_index()
    }

    /// Whether `addr` lies within this device's MMIO window (never for a
    /// disabled device).
    pub fn is_address_in_range(&self, addr: usize) -> (b: bool)
        requires
            self.wf(),
        ensures
            b == self.spec_window_offset(addr) is Some,
    {
        if !self.is_enabled() {
            return false;
        }
        let (start, end) = self.config.get_mmio_range();
        addr >= start && addr < end
    }

    /// The device status.
    pub fn get_status(&self) -> (s: u32)
        ensures
            s == self.regs@.status,
    {
        self.regs.status
    }

    /// Sets the device status, with no further effect.
    pub fn set_status(&mut self, status: u32)
        ensures
            final(self).regs@ == (RegistersView { status, ..old(self).regs@ }),
            final(self).config == old(self).config,
            final(self).block_config == old(self).block_config,
            final(self).base_ipa == old(self).base_ipa,
            final(self).length == old(self).length,
            final(self).backend == old(self).backend,
    {
        self.regs.status = status;
    }

    /// Whether the driver has set DRIVER_OK.
    pub fn is_device_ready(&self) -> (b: bool)
        ensures
            b == (self.regs@.status & VIRTIO_STATUS_DRIVER_OK != 0),
    {
        (self.regs.status & VIRTIO_STATUS_DRIVER_OK) != 0
    }

    /// Handles an MMIO read (see `spec_read`).
    pub fn mmio_read(&self, addr: usize, width: AccessWidth) -> (r: VirtioResult<usize>)
        requires
            self.wf(),
        ensures
            r == self.spec_read(addr, width),
    {
        if !self.is_enabled() {
            return Ok(0);
        }
        let max_mmio = self.config.base_addr + self.config.total_mmio_size;
        if addr < self.config.base_addr || addr >= max_mmio {
            return Ok(0);
        }
        let device_start = self.config.base_addr + self.config.device_index * self.config.mmio_size;
        let device_end = device_start + self.config.mmio_size;
        if addr < device_start || addr >= device_end {
            return Ok(0);
        }
        MmioTransport::validate_access_width(width)?;
        let offset = MmioTransport::calculate_offset(addr, device_start);
        match self.regs.read_common(offset, &self.config) {
            Some(v) => Ok(v as usize),
            None => {
                if offset >= VIRTIO_MMIO_CONFIG {
                    let v = self.read_config_space((offset - VIRTIO_MMIO_CONFIG) as u64, width)?;
                    Ok(v)
                } else {
                    Err(VirtioError::InvalidRegister)
                }
            },
        }
    }

    /// Reads the block configuration space.
    fn read_config_space(&self, offset: u64, width: AccessWidth) -> (r: VirtioResult<usize>)
        ensures
            r == (if width != AccessWidth::Dword {
                Err(VirtioError::InvalidAccessWidth)
            } else {
                Ok(self.block_config.spec_read(offset) as usize)
            }),
    {
        MmioTransport::validate_access_width(width)?;
        Ok(self.block_config.read(offset) as usize)
    }

    /// Handles an MMIO write. Outside the window (or on a disabled device)
    /// it is ignored; only 32-bit accesses are taken; the common registers
    /// behave as `RegistersView::write_common` says, a status write as
    /// `spec_status_written`, a queue notification processes the queue's
    /// requests; any other register is refused.
    pub fn mmio_write<M: GuestMemoryAccess>(&mut self, mem: &mut M, addr: usize, width: AccessWidth, val: usize) -> (r:
        VirtioResult<()>)
        requires
            old(self).wf(),
        ensures
            final(self).wf(),
            final(self).base_ipa == old(self).base_ipa,
            final(self).length == old(self).length,
            final(self).config == old(self).config,
            match old(self).spec_window_offset(addr) {
                None => r is Ok && *final(self) == *old(self) && final(mem).mem() == old(mem).mem(),
                Some(off) => {
                    let v = (val as int % 0x1_0000_0000) as u32;
                    if width != AccessWidth::Dword {
                        r == Err::<(), VirtioError>(VirtioError::InvalidAccessWidth) && *final(self)
                            == *old(self) && final(mem).mem() == old(mem).mem()
                    } else if handles_write(off, true) {
                        &&& r is Ok
                        &&& final(self).regs@ == old(self).regs@.write_common(off, v, true)
                        &&& final(mem).mem() == old(self).regs@.write_common_memory(off, v, old(mem).mem())
                        &&& final(self).config == old(self).config
                        &&& final(self).block_config == old(self).block_config
                        &&& final(self).backend == old(self).backend
                    } else if off == VIRTIO_MMIO_STATUS {
                        &&& r is Ok
                        &&& final(self).regs@ == Self::spec_status_written(old(self).regs@, v)
                        &&& final(mem).mem() == old(mem).mem()
                        &&& final(self).config == old(self).config
                        &&& final(self).block_config == old(self).block_config
                        &&& final(self).backend == old(self).backend
                    } else if off == VIRTIO_MMIO_QUEUE_NOTIFY {
                        &&& r is Ok
                        &&& old(self).spec_notified(*final(self), old(mem).mem(), final(mem).mem(), (v % 0x1_0000) as u16)
                    } else {
                        r == Err::<(), VirtioError>(VirtioError::InvalidRegister) && *final(self)
                            == *old(self) && final(mem).mem() == old(mem).mem()
                    }
                },
            },
    {
        if !self.is_enabled() {
            return Ok(());
        }
        let base_mmio = VIRTIO_MMIO_BASE;
        let max_mmio = VIRTIO_MMIO_BASE + VIRTIO_MMIO_TOTAL_SIZE;
        if addr < base_mmio || addr >= max_mmio {
            return Ok(());
        }
        let device_start = base_mmio + self.config.device_index * VIRTIO_MMIO_DEVICE_SIZE;
        let device_end = device_start + VIRTIO_MMIO_DEVICE_SIZE;
        if addr < device_start || addr >= device_end {
            return Ok(());
        }
        MmioTransport::validate_access_width(width)?;
        let offset = MmioTransport::calculate_offset(addr, device_start);
        let val = (val as u64 % 0x1_0000_0000) as u32;
        if MmioRegisters::handles(offset, true) {
            self.regs.write_common(mem, offset, val, true);
            Ok(())
        } else if offset == VIRTIO_MMIO_QUEUE_NOTIFY {
            self.handle_queue_notify(mem, (val % 0x1_0000) as u16);
            Ok(())
        } else if offset == VIRTIO_MMIO_STATUS {
            self.handle_status_write(val);
            Ok(())
        } else {
            Err(VirtioError::InvalidRegister)
        }
    }

    /// What a notification of queue `idx` does: nothing unless
    /// `spec_will_process`; otherwise, when it can read the available index,
    /// the device carries out every request up to it, one after the other,
    /// and returns each chain to the guest (`spec_queue_processed`), and
    /// when it cannot, nothing.
    pub open spec fn spec_notified(&self, n: Self, m0: Map<int, u8>, m1: Map<int, u8>, idx: u16) -> bool {
        if !self.spec_will_process(idx) {
            n == *self && m1 == m0
        } else {
            &&& self.spec_processed(n, idx as int)
            &&& n.wf()
            &&& match self.regs@.queues[idx as int].spec_avail_ring()->Some_0.read_avail_idx_spec(m0) {
                Ok(a) => {
                    &&& n.regs@.queues[idx as int].spec_last_avail_idx() == a
                    &&& self.spec_queue_processed(self.regs@.queues[idx as int], m0, a, n, m1)
                },
                Err(_) => n == *self && m1 == m0,
            }
        }
    }

    /// Handles a queue notification.
    fn handle_queue_notify<M: GuestMemoryAccess>(&mut self, mem: &mut M, queue_index: u16)
        requires
            old(self).wf(),
        ensures
            final(self).wf(),
            old(self).spec_notified(*final(self), old(mem).mem(), final(mem).mem(), queue_index),
    {
        if !self.is_device_ready() {
            return;
        }
        if queue_index as usize >= self.regs.queues.len() {
            return;
        }
        let queue_copy = self.regs.queues[queue_index as usize];
        if !queue_copy.ready {
            return;
        }
        if queue_copy.desc_table_addr == 0 || queue_copy.avail_ring_addr == 0 || queue_copy.used_ring_addr == 0 {
            return;
        }
        proof {
            assert(old(self).regs@.queues[queue_index as int].wf());
        }
        self.process_queue_requests(mem, &queue_copy);
    }

    /// Processes the requests on a queue, from the last available index the
    /// device has seen up to the one the guest has published.
    fn process_queue_requests<M: GuestMemoryAccess>(&mut self, mem: &mut M, queue: &VirtioQueue)
        requires
            old(self).wf(),
            (queue.index as int) < old(self).regs@.queues.len(),
            *queue == old(self).regs@.queues[queue.index as int],
            queue.wf(),
            queue.spec_is_valid(),
        ensures
            final(self).wf(),
            old(self).spec_processed(*final(self), queue.index as int),
            match queue.spec_avail_ring()->Some_0.read_avail_idx_spec(old(mem).mem()) {
                Ok(a) => {
                    &&& final(self).regs@.queues[queue.index as int].spec_last_avail_idx() == a
                    &&& old(self).spec_queue_processed(*queue, old(mem).mem(), a, *final(self), final(mem).mem())
                },
                Err(_) => *final(self) == *old(self) && final(mem).mem() == old(mem).mem(),
            },
    {
        let avail_idx = match queue.read_avail_idx(mem) {
            Ok(idx) => idx,
            Err(_) => return,
        };
        let ghost idx = queue.index as int;
        let ghost s0 = BlockProgress {
            regs: self.regs@,
            backend: self.backend,
            mem: mem.mem(),
            failed: Seq::<u16>::empty(),
        };
        let start = queue.get_last_avail_idx();
        let mut current_avail = start;
        let mut failed: Vec<u16> = Vec::new();
        let ghost mut n: nat = 0;
        proof {
            assert(old(self).regs@.queues[idx].size > 0);
            lemma_or_twice32(old(self).regs.interrupt_status, VIRTIO_MMIO_INT_VRING);
            assert(failed@ =~= Seq::<u16>::empty());
            lemma_slots_none(*queue, s0);
        }
        while current_avail != avail_idx
            invariant
                self.wf(),
                (old(self).regs.interrupt_status | VIRTIO_MMIO_INT_VRING) | VIRTIO_MMIO_INT_VRING
                    == old(self).regs.interrupt_status | VIRTIO_MMIO_INT_VRING,
                old(self).spec_processed(*self, idx),
                (queue.index as int) < old(self).regs@.queues.len(),
                idx == queue.index,
                queue.wf(),
                queue.spec_is_valid(),
                queue.size > 0,
                queue_progressed_avail(self.regs@.queues[idx], *queue),
                old(self).regs@.queues[idx] == *queue,
                start == queue.spec_last_avail_idx(),
                current_avail == ((start + n) % 0x1_0000) as u16,
                n + ring_distance(avail_idx, current_avail) == ring_distance(avail_idx, start),
                spec_slots_processed(
                    *queue,
                    s0,
                    n,
                    BlockProgress { regs: self.regs@, backend: self.backend, mem: mem.mem(), failed: failed@ },
                ),
            decreases ring_distance(avail_idx, current_avail),
        {
            let ghost cur = BlockProgress {
                regs: self.regs@,
                backend: self.backend,
                mem: mem.mem(),
                failed: failed@,
            };
            let ring_index = current_avail % queue.size;
            match queue.read_avail_entry(mem, ring_index) {
                Ok(desc_index) => {
                    let r = self.process_descriptor_chain(mem, queue, desc_index);
                    if r.is_err() {
                        failed.push(desc_index);
                    }
                    proof {
                        let next = BlockProgress {
                            regs: self.regs@,
                            backend: self.backend,
                            mem: mem.mem(),
                            failed: failed@,
                        };
                        lemma_slot_of_chain(*queue, current_avail, desc_index, cur, next);
                        lemma_slots_extend(*queue, s0, n, cur, next);
                    }
                },
                Err(e) => {
                    proof {
                        assert(queue.spec_avail_entry(cur.mem, current_avail) == Err::<u16, VirtioError>(e));
                        reveal(spec_slot_processed);
                        assert(spec_slot_processed(*queue, current_avail, cur, cur));
                        lemma_slots_extend(*queue, s0, n, cur, cur);
                    }
                },
            }
            proof {
                lemma_ring_step(avail_idx, start, current_avail, n);
                n = n + 1;
            }
            current_avail = current_avail.wrapping_add(1);
        }
        let ghost s_end = BlockProgress {
            regs: self.regs@,
            backend: self.backend,
            mem: mem.mem(),
            failed: failed@,
        };
        if current_avail != start || failed.len() > 0 {
            let qi = queue.index as usize;
            let mut q = self.regs.queues[qi];
            proof {
                assert(self.regs@.queues[idx].wf());
                assert(queue_progressed_avail(q, *queue));
            }
            q.update_last_avail_idx(current_avail);
            let ghost q1 = q;
            let ghost m1 = mem.mem();
            let mut k: usize = 0;
            proof {
                assert(failed@.take(0) =~= Seq::<u16>::empty());
            }
            while k < failed.len()
                invariant
                    q.wf(),
                    crate::regs::queue_progressed(q, *queue),
                    q.spec_last_avail_idx() == current_avail,
                    q.spec_avail_ring() is Some,
                    k <= failed@.len(),
                    (q, mem.mem()) == spec_failed_returned(q1, m1, failed@.take(k as int)),
                decreases failed.len() - k,
            {
                proof {
                    assert(failed@.take(k + 1).drop_last() =~= failed@.take(k as int));
                }
                let _ = q.add_used(mem, failed[k], 0);
                k = k + 1;
            }
            proof {
                assert(failed@.take(k as int) =~= failed@);
            }
            let ghost before = self.regs@;
            self.regs.queues.set(qi, q);
            proof {
                assert(before.queues[idx].wf());
                lemma_queue_replaced(before, self.regs@, idx, q);
            }
        }
        proof {
            assert(n == ring_distance(avail_idx, start));
            assert(spec_slots_processed(*queue, s0, ring_distance(avail_idx, start) as nat, s_end));
        }
    }

    /// Whether `n` and guest memory `m1` may be this device and memory `m0`
    /// after it processed `queue` (its live queue's copy) up to the
    /// available index `avail`: the slots from the queue's last available
    /// index up to `avail` are processed one after the other
    /// (`spec_slots_processed`), then the live queue records `avail` and
    /// returns the chains set aside (`spec_queue_finished`).
    pub open spec fn spec_queue_processed(
        &self,
        queue: VirtioQueue,
        m0: Map<int, u8>,
        avail: u16,
        n: Self,
        m1: Map<int, u8>,
    ) -> bool {
        let s0 = BlockProgress { regs: self.regs@, backend: self.backend, mem: m0, failed: Seq::empty() };
        exists|s: BlockProgress<B>|
            #[trigger] spec_slots_processed(queue, s0, ring_distance(avail, queue.spec_last_avail_idx()) as nat, s)
                && n.backend == s.backend && (n.regs@, m1) == spec_queue_finished(queue, s, avail)
    }

    /// Parses, carries out and completes the request of one chain.
    fn process_descriptor_chain<M: GuestMemoryAccess>(&mut self, mem: &mut M, queue: &VirtioQueue, head_index: u16) -> (r:
        VirtioResult<()>)
        requires
            old(self).wf(),
            (queue.index as int) < old(self).regs@.queues.len(),
            queue.wf(),
            queue_progressed_avail(old(self).regs@.queues[queue.index as int], *queue),
        ensures
            final(self).wf(),
            old(self).spec_processed(*final(self), queue.index as int),
            queue_progressed_avail(
                final(self).regs@.queues[queue.index as int],
                old(self).regs@.queues[queue.index as int],
            ),
            r is Err ==> r == Err::<(), VirtioError>(VirtioError::InvalidQueue),
            r is Err <==> spec_chain_fails(*queue, old(mem).mem(), head_index),
            r is Err ==> *final(self) == *old(self) && final(mem).mem() == old(mem).mem(),
            r is Ok ==> spec_chain_done(
                *queue,
                head_index,
                old(self).regs@,
                old(self).backend,
                old(mem).mem(),
                final(self).regs@,
                final(self).backend,
                final(mem).mem(),
            ),
    {
        let ghost m0 = mem.mem();
        let request = self.parse_virtio_request(mem, queue, head_index)?;
        let total = match Self::total_len(&request) {
            Some(t) => t,
            None => return Err(VirtioError::InvalidQueue),
        };
        let status = self.execute_block_request(mem, &request);
        let ghost b1 = self.backend;
        let ghost m1 = mem.mem();
        self.add_used_buffer(mem, queue, head_index, total as u32, status);
        proof {
            let (t, sector, bufs, status_addr) = spec_parse_request(*queue, m0, head_index)->Ok_0;
            assert(block_completed(request_type_of(t), sector, bufs, status_addr, old(self).backend, b1, m0, m1, status));
        }
        Ok(())
    }

    /// The total length of a request's buffers, if it fits a `usize`.
    fn total_len(request: &BlockRequest) -> (r: Option<usize>)
        ensures
            match r {
                Some(n) => n == buffers_len(request.buffers()) && buffers_len(request.buffers()) <= usize::MAX,
                None => buffers_len(request.buffers()) > usize::MAX,
            },
    {
        let buffers = match &request.data_source {
            crate::block::request::DataSource::GuestMemory { buffers, .. } => buffers,
        };
        let mut total: u64 = 0;
        let mut i: usize = 0;
        while i < buffers.len()
            invariant
                i <= buffers@.len(),
                buffers@ == request.buffers(),
                total == buffers_len(buffers@.take(i as int)),
                total <= usize::MAX,
            decreases buffers@.len() - i,
        {
            proof {
                assert(buffers@.take(i + 1).drop_last() =~= buffers@.take(i as int));
            }
            let len = buffers[i].1;
            if len as u64 > (usize::MAX as u64) - total {
                proof {
                    lemma_buffers_len_grows(buffers@, i + 1);
                }
                return None;
            }
            total = total + len as u64;
            i = i + 1;
        }
        proof {
            assert(buffers@.take(i as int) =~= buffers@);
        }
        Some(total as usize)
    }

    /// Parses the request that the chain at `head_index` describes.
    fn parse_virtio_request<M: GuestMemoryAccess>(&self, mem: &M, queue: &VirtioQueue, head_index: u16) -> (r:
        VirtioResult<BlockRequest>)
        requires
            queue.wf(),
        ensures
            match spec_parse_request(*queue, mem.mem(), head_index) {
                Ok((t, sector, bufs, status_addr)) => r is Ok && r->Ok_0.request_type == request_type_of(t)
                    && r->Ok_0.sector == sector && r->Ok_0.buffers() == bufs && r->Ok_0.status_addr()
                    == status_addr,
                Err(e) => r == Err::<BlockRequest, VirtioError>(e),
            },
    {
        match queue.validate_virtio_block_chain(mem, head_index, MIN_DESCRIPTOR_CHAIN_LENGTH) {
            Ok(true) => {},
            _ => return Err(VirtioError::InvalidQueue),
        }
        let desc_table = match queue.get_desc_table() {
            Some(t) => t,
            None => return Err(VirtioError::InvalidQueue),
        };
        let chain = match desc_table.follow_chain(mem, head_index) {
            Ok(c) => c,
            Err(_) => return Err(VirtioError::InvalidQueue),
        };
        let header_addr = chain[0].addr as usize;
        let request_type = match read_u32(mem, header_addr) {
            Ok(t) => t,
            Err(_) => return Err(VirtioError::InvalidQueue),
        };
        if header_addr > usize::MAX - VIRTIO_BLK_REQ_SECTOR_OFFSET {
            return Err(VirtioError::InvalidQueue);
        }
        let sector = match read_u64(mem, header_addr + VIRTIO_BLK_REQ_SECTOR_OFFSET) {
            Ok(s) => s,
            Err(_) => return Err(VirtioError::InvalidQueue),
        };
        let buffers = match queue.get_data_buffers(mem, head_index, VirtioDeviceType::Block) {
            Ok(b) => b,
            Err(_) => return Err(VirtioError::InvalidQueue),
        };
        let status_addr = match queue.get_status_addr(mem, head_index) {
            Ok(a) => a,
            Err(_) => return Err(VirtioError::InvalidQueue),
        };
        Ok(BlockRequest::new_virtio(BlockRequestType::from(request_type), sector, buffers, status_addr))
    }

    /// Carries a request out against the backend and guest memory.
    fn execute_block_request<M: GuestMemoryAccess>(&mut self, mem: &mut M, request: &BlockRequest) -> (status: u8)
        requires
            buffers_len(request.buffers()) <= usize::MAX,
        ensures
            final(self).regs == old(self).regs,
            final(self).config == old(self).config,
            final(self).block_config == old(self).block_config,
            final(self).base_ipa == old(self).base_ipa,
            final(self).length == old(self).length,
            block_completed(
                request.request_type,
                request.sector,
                request.buffers(),
                request.status_addr(),
                old(self).backend,
                final(self).backend,
                old(mem).mem(),
                final(mem).mem(),
                status,
            ),
    {
        let result = request.execute(&mut self.backend, mem);
        result.status
    }

    /// Completes a request: stores its status byte, places the chain on the
    /// used ring, and raises the used-buffer interrupt when the driver asked for one.
    fn add_used_buffer<M: GuestMemoryAccess>(&mut self, mem: &mut M, queue: &VirtioQueue, desc_index: u16, len: u32, status: u8)
        requires
            old(self).wf(),
            (queue.index as int) < old(self).regs@.queues.len(),
            queue.wf(),
            queue_progressed_avail(old(self).regs@.queues[queue.index as int], *queue),
        ensures
            final(self).wf(),
            old(self).spec_processed(*final(self), queue.index as int),
            final(self).backend == old(self).backend,
            queue_progressed_avail(
                final(self).regs@.queues[queue.index as int],
                old(self).regs@.queues[queue.index as int],
            ),
            (final(self).regs@, final(mem).mem()) == spec_return_chain(
                old(self).regs@,
                *queue,
                desc_index,
                len,
                status,
                old(mem).mem(),
            ),
    {
        if queue.write_status_byte(mem, desc_index, status).is_err() {
            proof {
                lemma_or_twice32(old(self).regs.interrupt_status, VIRTIO_MMIO_INT_VRING);
            }
            return;
        }
        let qi = queue.index as usize;
        let mut q = self.regs.queues[qi];
        proof {
            assert(old(self).regs@.queues[qi as int].wf());
        }
        if q.add_used(mem, desc_index, len).is_err() {
            self.regs.queues.set(qi, q);
            proof {
                lemma_queue_replaced(old(self).regs@, self.regs@, qi as int, q);
            }
            return;
        }
        let notify = q.should_notify(mem);
        self.regs.queues.set(qi, q);
        proof {
            lemma_queue_replaced(old(self).regs@, self.regs@, qi as int, q);
            lemma_or_twice32(old(self).regs.interrupt_status, VIRTIO_MMIO_INT_VRING);
        }
        if let Ok(true) = notify {
            self.trigger_interrupt();
        }
    }

    /// Raises the used-buffer interrupt.
    fn trigger_interrupt(&mut self)
        ensures
            final(self).regs@ == (RegistersView {
                interrupt_status: old(self).regs@.interrupt_status | VIRTIO_MMIO_INT_VRING,
                ..old(self).regs@
            }),
            final(self).config == old(self).config,
            final(self).block_config == old(self).block_config,
            final(self).base_ipa == old(self).base_ipa,
            final(self).length == old(self).length,
            final(self).backend == old(self).backend,
    {
        self.regs.raise_interrupt(VIRTIO_MMIO_INT_VRING);
    }

    /// Handles a write of the status register.
    fn handle_status_write(&mut self, status: u32)
        requires
            old(self).wf(),
        ensures
            final(self).wf(),
            final(self).regs@ == Self::spec_status_written(old(self).regs@, status),
            final(self).config == old(self).config,
            final(self).block_config == old(self).block_config,
            final(self).base_ipa == old(self).base_ipa,
            final(self).length == old(self).length,
            final(self).backend == old(self).backend,
    {
        if status == 0 {
            self.regs.status = 0;
            self.reset_device();
            return;
        }
        self.regs.status = status;
    }

    /// Resets the device (see `RegistersView::reset`).
    fn reset_device(&mut self)
        requires
            old(self).wf(),
        ensures
            final(self).wf(),
            final(self).regs@ == old(self).regs@.reset(),
            final(self).config == old(self).config,
            final(self).block_config == old(self).block_config,
            final(self).base_ipa == old(self).base_ipa,
            final(self).length == old(self).length,
            final(self).backend == old(self).backend,
    {
        self.regs.reset();
    }

    /// The selected queue's index, if the selector names a queue.
    pub fn get_selected_queue(&self) -> (r: Option<u16>)
        ensures
            r == (if (self.regs@.queue_sel as int) < self.regs@.queues.len() {
                Some(self.regs@.queue_sel)
            } else {
                None
            }),
    {
        let queue_sel = self.regs.queue_sel;
        if (queue_sel as usize) < self.regs.queues.len() {
            Some(queue_sel)
        } else {
            None
        }
    }

    /// A copy of queue `index`, if there is one.
    pub fn get_queue(&self, index: u16) -> (r: Option<VirtioQueue>)
        ensures
            r == (if (index as int) < self.regs@.queues.len() {
                Some(self.regs@.queues[index as int])
            } else {
                None
            }),
    {
        if (index as usize) < self.regs.queues.len() {
            Some(self.regs.queues[index as usize])
        } else {
            None
        }
    }
}

impl VirtioMmioDevice<MemoryBackend> {
    /// Creates the block device in window `device_index` over the default
    /// backend (a zero-filled disk in memory).
    pub fn new(device_index: usize) -> (r: VirtioResult<Self>)
        requires
            VirtioConfig::spec_new(device_index, VIRTIO_DEVICE_ID_BLOCK, VIRTIO_BLK_FEATURES, 1).addressable(),
        ensures
            match r {
                Ok(d) => d.wf() && d.config == VirtioConfig::spec_new(
                    device_index,
                    VIRTIO_DEVICE_ID_BLOCK,
                    VIRTIO_BLK_FEATURES,
                    1,
                ) && d.block_config == VirtioBlockConfig::spec_default() && d.regs@.status == 0
                    && d.regs@.queues.len() == 1 && d.backend.wf(),
                Err(_) => false,
            },
    {
        let backend = create_default_backend(device_index)?;
        Ok(Self::with_backend(device_index, backend))
    }
}

/// Whether `q` is `o` after processing, with the same last available index.
pub open spec fn queue_progressed_avail(q: VirtioQueue, o: VirtioQueue) -> bool {
    &&& crate::regs::queue_progressed(q, o)
    &&& q.spec_avail_ring() == o.spec_avail_ring()
    &&& q.spec_next_avail() == o.spec_next_avail()
}

/// A buffer list whose prefix is too long for a `usize` is too long itself.
proof fn lemma_buffers_len_grows(bufs: Seq<(usize, usize, bool)>, i: int)
    requires
        0 < i <= bufs.len(),
    ensures
        buffers_len(bufs.take(i)) <= buffers_len(bufs),
    decreases bufs.len() - i,
{
    if i < bufs.len() {
        lemma_buffers_len_grows(bufs, i + 1);
        assert(bufs.take(i + 1).drop_last() =~= bufs.take(i));
    } else {
        assert(bufs.take(i) =~= bufs);
    }
}

} // verus!
