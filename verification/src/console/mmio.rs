//! The VirtIO MMIO console device (VirtIO 1.1): a serial console with a
//! receive queue (host to guest) and a transmit queue (guest to host).

use crate::config::VirtioConfig;
use crate::console::backend::{ConsoleBackend, handed, written_each, written_total32};
use crate::console::config::VirtioConsoleConfig;
use crate::console::constants::{
    CONSOLE_INPUT_CHUNK, DEFAULT_CONSOLE_QUEUE_SIZE, VIRTIO_CONSOLE_CFG_EMERG_WR,
    VIRTIO_CONSOLE_DEFAULT_FEATURES, VIRTIO_CONSOLE_QUEUE_COUNT_SINGLE, VIRTIO_CONSOLE_RECEIVEQ,
    VIRTIO_CONSOLE_TRANSMITQ,
};
use crate::constants::{
    VIRTIO_DEVICE_ID_CONSOLE, VIRTIO_F_RING_EVENT_IDX, VIRTIO_MMIO_CONFIG_OFFSET,
    VIRTIO_MMIO_INT_VRING, VIRTIO_MMIO_QUEUE_NOTIFY, VIRTIO_MMIO_STATUS, VIRTIO_STATUS_DRIVER_OK,
    VIRTIO_STATUS_FAILED, VIRTIO_STATUS_FEATURES_OK,
};
use crate::error::{VirtioError, VirtioResult};
use crate::flags::lemma_or_twice32;
use crate::memory::{GuestMemoryAccess, bytes_at, range_mapped, read_bytes, store_bytes, write_bytes};
use crate::device_type::VirtioDeviceType;
use crate::queue::descriptor::data_buffers;
use crate::queue::{VirtioQueue, VirtqDesc};
use crate::queue::available::AvailableRing;
use crate::regs::{
    MmioRegisters, RegistersView, handles_write, lemma_progressed_on_refl, lemma_queue_replaced,
};
use crate::transport::{AccessWidth, MmioTransport, spec_validate_access};
use vstd::prelude::*;

verus! {

/// A queue with EVENT_IDX switched on or off (see `VirtioQueue::set_event_idx_enabled`).
pub open spec fn queue_with_event_idx(q: VirtioQueue, enabled: bool) -> VirtioQueue {
    if enabled {
        VirtioQueue { event_idx_enabled: true, signalled_used_valid: false, ..q }
    } else {
        VirtioQueue { event_idx_enabled: false, ..q }
    }
}

/// The register file after the driver wrote `status` to a device that
/// offers `device_features`: 0 resets the device; setting FEATURES_OK for
/// the first time checks the accepted features, and the device answers
/// FAILED (without FEATURES_OK) when the driver accepted one it does not
/// offer, or else switches EVENT_IDX on every queue as negotiated.
pub open spec fn console_status_written(r: RegistersView, status: u32, device_features: u64) -> RegistersView {
    if status == 0 {
        RegistersView { status: 0, ..r.reset() }
    } else if status & VIRTIO_STATUS_FEATURES_OK != 0 && r.status & VIRTIO_STATUS_FEATURES_OK == 0 {
        if r.driver_features & !device_features != 0 {
            RegistersView {
                status: (status & !VIRTIO_STATUS_FEATURES_OK) | VIRTIO_STATUS_FAILED,
                ..r
            }
        } else {
            RegistersView {
                status,
                queues: Seq::new(
                    r.queues.len(),
                    |i: int|
                        queue_with_event_idx(
                            r.queues[i],
                            r.driver_features & VIRTIO_F_RING_EVENT_IDX != 0,
                        ),
                ),
                ..r
            }
        }
    } else {
        RegistersView { status, ..r }
    }
}

/// A driver that accepts a feature the device does not offer fails feature
/// negotiation: the device keeps FEATURES_OK clear and sets FAILED.
pub proof fn lemma_unoffered_feature_fails(r: RegistersView, status: u32, device_features: u64)
    requires
        status & VIRTIO_STATUS_FEATURES_OK != 0,
        r.status & VIRTIO_STATUS_FEATURES_OK == 0,
        r.driver_features & !device_features != 0,
    ensures
        console_status_written(r, status, device_features).status & VIRTIO_STATUS_FEATURES_OK == 0,
        console_status_written(r, status, device_features).status & VIRTIO_STATUS_FAILED != 0,
        console_status_written(r, status, device_features).queues == r.queues,
{
    assert(status != 0) by (bit_vector)
        requires
            status & 8u32 != 0,
    ;
    let s = status;
    assert(((s & !8u32) | 128u32) & 8u32 == 0 && ((s & !8u32) | 128u32) & 128u32 != 0) by (bit_vector);
}

/// A driver that accepts only offered features passes feature negotiation:
/// the status is stored as written and every queue uses EVENT_IDX exactly
/// when the driver accepted it.
pub proof fn lemma_offered_features_accepted(r: RegistersView, status: u32, device_features: u64, i: int)
    requires
        status & VIRTIO_STATUS_FEATURES_OK != 0,
        r.status & VIRTIO_STATUS_FEATURES_OK == 0,
        r.driver_features & !device_features == 0,
        0 <= i < r.queues.len(),
    ensures
        console_status_written(r, status, device_features).status == status,
        console_status_written(r, status, device_features).queues[i].event_idx_enabled == (
        r.driver_features & VIRTIO_F_RING_EVENT_IDX != 0),
{
    assert(status != 0) by (bit_vector)
        requires
            status & 8u32 != 0,
    ;
}

/// Guest memory after `data` from `written` on was copied into the
/// device-writable buffers of a receive chain: each takes as much as fits,
/// a buffer that guest memory does not back is passed over, and the copy
/// ends when the data is used up. Also gives how much of the data went in.
pub open spec fn fill_receive(m: Map<int, u8>, descs: Seq<VirtqDesc>, data: Seq<u8>, written: int) -> (
    Map<int, u8>,
    int,
)
    decreases descs.len(),
{
    if descs.len() == 0 {
        (m, written)
    } else {
        let d = descs[0];
        if !d.spec_is_write() {
            fill_receive(m, descs.drop_first(), data, written)
        } else {
            let n = if d.len < data.len() - written {
                d.len as int
            } else {
                data.len() - written
            };
            if n <= 0 {
                (m, written)
            } else if range_mapped(m, d.addr as usize as int, n) {
                fill_receive(
                    store_bytes(m, d.addr as usize as int, data.subrange(written, written + n)),
                    descs.drop_first(),
                    data,
                    written + n,
                )
            } else {
                fill_receive(m, descs.drop_first(), data, written)
            }
        }
    }
}

/// The register file and guest memory after a receive chain at `head`,
/// of the receive queue `q`, took `written` bytes (guest memory `m` holds
/// them): the queue records the next available index as seen and returns
/// the chain through the used ring, tells the driver through `avail_event`
/// where it should notify next, and the used-buffer interrupt is raised
/// when the driver asks for one (unless the device polls). A chain that took
/// nothing changes nothing.
pub open spec fn console_input_delivered(
    r: RegistersView,
    q: VirtioQueue,
    head: u16,
    written: int,
    m: Map<int, u8>,
    polling: bool,
) -> (RegistersView, Map<int, u8>) {
    if written == 0 {
        (r, m)
    } else {
        let q0 = VirtioQueue {
            avail_ring: Some(
                AvailableRing {
                    last_avail_idx: ((q.spec_last_avail_idx() + 1) % 0x1_0000) as u16,
                    ..q.spec_avail_ring()->Some_0
                },
            ),
            ..q
        };
        let (q1, m1, _) = q0.spec_add_used(m, head, written as u32);
        let event = match q1.read_avail_idx_spec_or_err(m1) {
            Ok(i) => i,
            Err(_) => 0,
        };
        let m2 = q1.spec_avail_event_written(m1, event);
        let (q2, notify) = q1.spec_notify(m2);
        let r2 = RegistersView { queues: r.queues.update(VIRTIO_CONSOLE_RECEIVEQ as int, q2), ..r };
        if notify == Ok::<bool, VirtioError>(true) && !polling {
            (RegistersView { interrupt_status: r2.interrupt_status | VIRTIO_MMIO_INT_VRING, ..r2 }, m2)
        } else {
            (r2, m2)
        }
    }
}

/// Where sending the transmit queue stands: the register file, guest
/// memory, whether a chain was returned, and whether the driver asked to be
/// interrupted.
pub struct TxProgress {
    pub regs: RegistersView,
    pub mem: Map<int, u8>,
    pub returned: bool,
    pub notify: bool,
}

/// The transmit queue at `s`.
pub open spec fn tx_queue(s: TxProgress) -> VirtioQueue {
    s.regs.queues[VIRTIO_CONSOLE_TRANSMITQ as int]
}

/// Whether sending stops at `s`: the transmit queue is not ready, its
/// available index cannot be read, or it has no chain the device has not seen.
pub open spec fn tx_round_stops(s: TxProgress) -> bool {
    let q = tx_queue(s);
    ||| !q.ready
    ||| match q.read_avail_idx_spec_or_err(s.mem) {
        Err(_) => true,
        Ok(a) => a == q.spec_last_avail_idx(),
    }
}

/// `s` with the transmit queue replaced by `q`.
pub open spec fn tx_with_queue(s: TxProgress, q: VirtioQueue) -> RegistersView {
    RegistersView { queues: s.regs.queues.update(VIRTIO_CONSOLE_TRANSMITQ as int, q), ..s.regs }
}

/// The transmit queue at `s`, having seen one more available slot.
pub open spec fn tx_queue_advanced(s: TxProgress) -> VirtioQueue {
    let q = tx_queue(s);
    VirtioQueue {
        avail_ring: Some(
            AvailableRing {
                last_avail_idx: ((q.spec_last_avail_idx() + 1) % 0x1_0000) as u16,
                ..q.spec_avail_ring()->Some_0
            },
        ),
        ..q
    }
}

/// The progress after the chain at `head`, of which the backend took
/// `total` bytes, was returned through the used ring.
pub open spec fn tx_chain_returned(s: TxProgress, head: u16, total: u32) -> TxProgress {
    let (q1, m1, _) = tx_queue_advanced(s).spec_add_used(s.mem, head, total);
    let (q2, n) = q1.spec_notify(m1);
    TxProgress {
        regs: tx_with_queue(s, q2),
        mem: m1,
        returned: true,
        notify: s.notify || n == Ok::<bool, VirtioError>(true),
    }
}

/// The bytes of the device-readable buffers of `bufs` that lie in guest
/// memory `m`, in order; a buffer that is not mapped is passed over.
pub open spec fn tx_mapped_bytes(m: Map<int, u8>, bufs: Seq<(usize, usize, bool)>) -> Seq<Seq<u8>>
    decreases bufs.len(),
{
    if bufs.len() == 0 {
        Seq::empty()
    } else {
        let prev = tx_mapped_bytes(m, bufs.drop_last());
        let (a, len, w) = bufs.last();
        if !w && range_mapped(m, a as int, len as int) {
            prev.push(bytes_at(m, a as int, len as nat))
        } else {
            prev
        }
    }
}

/// What the transmit chain at `head` hands to the backend, one buffer at a
/// time: the bytes of its mapped device-readable buffers, nothing for a
/// chain that cannot be followed.
pub open spec fn tx_chain_bytes(q: VirtioQueue, m: Map<int, u8>, head: u16) -> Seq<Seq<u8>> {
    match q.spec_chain(m, head) {
        Ok(chain) => tx_mapped_bytes(m, data_buffers(chain, VirtioDeviceType::Console)),
        Err(_) => Seq::empty(),
    }
}

/// Whether one round of sending may take `s0` to `s1`: the chain in the next
/// available slot goes to backend `b`, each of its buffers handed to `write`
/// in turn (`tx_chain_bytes`, `written_each`), and the chain is returned
/// through the used ring with the bytes the writes took (`written_total32`).
/// A slot that cannot be read is passed over.
pub open spec fn tx_round<B: ConsoleBackend>(b: B, s0: TxProgress, s1: TxProgress) -> bool {
    let q = tx_queue(s0);
    match q.spec_avail_entry(s0.mem, q.spec_last_avail_idx()) {
        Err(_) => s1 == TxProgress { regs: tx_with_queue(s0, tx_queue_advanced(s0)), ..s0 },
        Ok(head) => exists|rs: Seq<VirtioResult<usize>>|
            #[trigger] written_each(b, tx_chain_bytes(q, s0.mem, head), rs) && s1 == tx_chain_returned(
                s0,
                head,
                written_total32(rs),
            ),
    }
}

/// Whether round `i` of `states` goes on (does not stop) and takes state
/// `i` to state `i + 1`.
pub open spec fn tx_round_at<B: ConsoleBackend>(b: B, states: Seq<TxProgress>, i: int) -> bool {
    !tx_round_stops(states[i]) && tx_round(b, states[i], states[i + 1])
}

/// Whether `states` follows rounds of sending one after the other.
pub open spec fn tx_rounds<B: ConsoleBackend>(b: B, states: Seq<TxProgress>) -> bool {
    forall|i: int| 0 <= i < states.len() - 1 ==> #[trigger] tx_round_at(b, states, i)
}

/// A run of rounds extended by one more round that goes on.
proof fn lemma_tx_rounds_push<B: ConsoleBackend>(b: B, states: Seq<TxProgress>, next: TxProgress)
    requires
        tx_rounds(b, states),
        states.len() >= 1,
        !tx_round_stops(states.last()),
        tx_round(b, states.last(), next),
    ensures
        tx_rounds(b, states.push(next)),
{
    let longer = states.push(next);
    assert forall|i: int| 0 <= i < longer.len() - 1 implies #[trigger] tx_round_at(b, longer, i) by {
        if i < states.len() - 1 {
            assert(tx_round_at(b, states, i));
            assert(longer[i] == states[i] && longer[i + 1] == states[i + 1]);
        } else {
            assert(longer[i] == states.last() && longer[i + 1] == next);
        }
    }
}

/// The register file once sending ended at `s`: the used-buffer interrupt
/// is raised when a chain was returned and the driver asked for it (unless
/// the device polls).
pub open spec fn tx_finished(s: TxProgress, polling: bool) -> RegistersView {
    if s.returned && s.notify && !polling {
        RegistersView { interrupt_status: s.regs.interrupt_status | VIRTIO_MMIO_INT_VRING, ..s.regs }
    } else {
        s.regs
    }
}

/// The sum of a sequence of byte counts.
pub open spec fn usize_sum(s: Seq<usize>) -> int
    decreases s.len(),
{
    if s.len() == 0 {
        0
    } else {
        usize_sum(s.drop_last()) + s.last()
    }
}

/// VirtIO MMIO console device.
pub struct VirtioMmioConsoleDevice<B: ConsoleBackend, M: GuestMemoryAccess> {
    /// Base IPA address
    pub base_ipa: usize,
    /// MMIO region length
    pub length: usize,
    /// Device configuration
    pub config: VirtioConfig,
    /// Console-specific configuration
    pub console_config: VirtioConsoleConfig,
    /// The register file; its queues are [receiveq, transmitq]
    pub regs: MmioRegisters,
    /// Console backend for actual I/O
    pub backend: B,
    /// Guest memory
    pub memory: M,
}

impl<B: ConsoleBackend, M: GuestMemoryAccess> VirtioMmioConsoleDevice<B, M> {
    /// The device's invariant: the console configuration, and a well-formed
    /// register file with its two queues.
    pub open spec fn wf(&self) -> bool {
        &&& self.config == VirtioConfig::spec_new(
            0,
            VIRTIO_DEVICE_ID_CONSOLE,
            VIRTIO_CONSOLE_DEFAULT_FEATURES,
            VIRTIO_CONSOLE_QUEUE_COUNT_SINGLE as u16,
        )
        &&& self.regs@.wf()
        &&& self.regs@.queues.len() == VIRTIO_CONSOLE_QUEUE_COUNT_SINGLE
    }

    /// Whether the driver has set DRIVER_OK.
    pub open spec fn spec_ready(&self) -> bool {
        self.regs@.status & VIRTIO_STATUS_DRIVER_OK != 0
    }

    /// What a read at `addr` of width `width` returns. An access the window
    /// validation refuses, or one outside the window, reads as 0.
    pub open spec fn spec_read(&self, addr: usize, width: AccessWidth) -> VirtioResult<usize> {
        match spec_validate_access(addr, width, self.base_ipa, self.length) {
            Err(_) | Ok(None) => Ok(0),
            Ok(Some(off)) => match self.regs@.read_common(off, self.config) {
                Some(v) => Ok(v as usize),
                None => if off >= VIRTIO_MMIO_CONFIG_OFFSET {
                    Ok(
                        self.console_config.spec_read((off - VIRTIO_MMIO_CONFIG_OFFSET) as u64) as u32 as usize,
                    )
                } else {
                    Err(VirtioError::InvalidRegister)
                },
            },
        }
    }

    /// `n` is this device with only its queue `idx`'s indices, its interrupt
    /// status and guest memory changed.
    pub open spec fn spec_processed(&self, n: Self, idx: int) -> bool {
        &&& n.base_ipa == self.base_ipa
        &&& n.length == self.length
        &&& n.config == self.config
        &&& n.console_config == self.console_config
        &&& n.backend == self.backend
        &&& n.regs@.progressed_on(self.regs@, idx)
        &&& n.wf()
    }

    /// Whether `n` may be this device after it sent its transmit queue:
    /// rounds of sending (`tx_rounds`) from its state until one stops or
    /// `u32::MAX` rounds went by, then the interrupt (`tx_finished`).
    pub open spec fn spec_transmit_served(&self, n: Self) -> bool {
        exists|states: Seq<TxProgress>|
            #[trigger] tx_rounds(self.backend, states) && states.len() >= 1 && states[0] == (TxProgress {
                regs: self.regs@,
                mem: self.memory.mem(),
                returned: false,
                notify: false,
            }) && (tx_round_stops(states.last()) || states.len() - 1 == u32::MAX) && n.regs@ == tx_finished(
                states.last(),
                self.console_config.disable_interrupts,
            ) && n.memory.mem() == states.last().mem
    }

    /// `n` is this device with nothing changed but the register file (and
    /// guest memory, which `m_changed` allows).
    pub open spec fn spec_same_but_regs(&self, n: Self) -> bool {
        &&& n.base_ipa == self.base_ipa
        &&& n.length == self.length
        &&& n.config == self.config
        &&& n.console_config == self.console_config
        &&& n.backend == self.backend
    }

    /// Creates the console device at `base_ipa` with a window of `length`
    /// bytes, over `backend` and `guest_memory`.
    pub fn new(
        base_ipa: usize,
        length: usize,
        backend: B,
        console_config: VirtioConsoleConfig,
        guest_memory: M,
    ) -> (r: VirtioResult<Self>)
        ensures
            r is Ok,
            r->Ok_0.wf(),
            r->Ok_0.base_ipa == base_ipa,
            r->Ok_0.length == length,
            r->Ok_0.console_config == console_config,
            r->Ok_0.backend == backend,
            r->Ok_0.memory == guest_memory,
            r->Ok_0.config == VirtioConfig::spec_new(
                0,
                VIRTIO_DEVICE_ID_CONSOLE,
                VIRTIO_CONSOLE_DEFAULT_FEATURES,
                VIRTIO_CONSOLE_QUEUE_COUNT_SINGLE as u16,
            ),
            r->Ok_0.regs@ == (RegistersView {
                status: 0,
                driver_features: 0,
                device_features_sel: 0,
                driver_features_sel: 0,
                queue_sel: 0,
                queues: seq![
                    VirtioQueue::spec_new(VIRTIO_CONSOLE_RECEIVEQ, DEFAULT_CONSOLE_QUEUE_SIZE),
                    VirtioQueue::spec_new(VIRTIO_CONSOLE_TRANSMITQ, DEFAULT_CONSOLE_QUEUE_SIZE),
                ],
                interrupt_status: 0,
                config_generation: 0,
            }),
    {
        let config = VirtioConfig::new(
            0,
            VIRTIO_DEVICE_ID_CONSOLE,
            VIRTIO_CONSOLE_DEFAULT_FEATURES,
            VIRTIO_CONSOLE_QUEUE_COUNT_SINGLE as u16,
        );
        let mut queues: Vec<VirtioQueue> = Vec::new();
        queues.push(VirtioQueue::new(VIRTIO_CONSOLE_RECEIVEQ, DEFAULT_CONSOLE_QUEUE_SIZE));
        queues.push(VirtioQueue::new(VIRTIO_CONSOLE_TRANSMITQ, DEFAULT_CONSOLE_QUEUE_SIZE));
        let regs = MmioRegisters::new(queues, 0);
        proof {
            assert(regs@.queues =~= seq![
                VirtioQueue::spec_new(VIRTIO_CONSOLE_RECEIVEQ, DEFAULT_CONSOLE_QUEUE_SIZE),
                VirtioQueue::spec_new(VIRTIO_CONSOLE_TRANSMITQ, DEFAULT_CONSOLE_QUEUE_SIZE),
            ]);
        }
        Ok(Self { base_ipa, length, config, console_config, regs, backend, memory: guest_memory })
    }

    /// The base IPA address.
    pub fn base_ipa(&self) -> (a: usize)
        ensures
            a == self.base_ipa,
    {
        self.base_ipa
    }

    /// The MMIO region length.
    pub fn length(&self) -> (n: usize)
        ensures
            n == self.length,
    {
        self.length
    }

    /// The interrupt status.
    pub fn get_interrupt_status(&self) -> (s: u32)
        ensures
            s == self.regs@.interrupt_status,
    {
        self.regs.interrupt_status
    }

    /// Whether the driver has set DRIVER_OK.
    pub fn is_device_ready(&self) -> (b: bool)
        ensures
            b == self.spec_ready(),
    {
        (self.regs.status & VIRTIO_STATUS_DRIVER_OK) != 0
    }

    /// Handles an MMIO read (see `spec_read`).
    pub fn mmio_read(&self, addr: usize, width: AccessWidth) -> (r: VirtioResult<usize>)
        ensures
            r == self.spec_read(addr, width),
    {
        let offset = match MmioTransport::validate_read_access(addr, width, self.base_ipa, self.length) {
            Ok(Some(offset)) => offset,
            _ => return Ok(0),
        };
        match self.regs.read_common(offset, &self.config) {
            Some(v) => Ok(v as usize),
            None => {
                if offset >= VIRTIO_MMIO_CONFIG_OFFSET {
                    let v = self.read_config_space((offset - VIRTIO_MMIO_CONFIG_OFFSET) as u64, width);
                    Ok(v as u32 as usize)
                } else {
                    Err(VirtioError::InvalidRegister)
                }
            },
        }
    }

    /// Reads the console configuration space.
    fn read_config_space(&self, offset: u64, _width: AccessWidth) -> (v: usize)
        ensures
            v == self.console_config.spec_read(offset) as u32 as usize,
    {
        self.console_config.read(offset, 4) as u32 as usize
    }

    /// Handles an MMIO write. A write the window validation refuses, or one
    /// outside the window, is ignored; the common registers behave as
    /// `RegistersView::write_common` says, a status write as
    /// `console_status_written`, a notification of the transmit queue sends
    /// the guest's output to the backend, a write of `emerg_wr` stores it and
    /// sends its low byte to the backend; other configuration offsets are
    /// ignored and any other register is refused.
    pub fn mmio_write(&mut self, addr: usize, width: AccessWidth, val: usize) -> (r: VirtioResult<()>)
        requires
            old(self).wf(),
        ensures
            final(self).wf(),
            match spec_validate_access(addr, width, old(self).base_ipa, old(self).length) {
                Err(_) | Ok(None) => r is Ok && *final(self) == *old(self),
                Ok(Some(off)) => {
                    let v = (val as int % 0x1_0000_0000) as u32;
                    if handles_write(off, true) {
                        &&& r is Ok
                        &&& final(self).regs@ == old(self).regs@.write_common(off, v, true)
                        &&& final(self).memory.mem() == old(self).regs@.write_common_memory(
                            off,
                            v,
                            old(self).memory.mem(),
                        )
                        &&& old(self).spec_same_but_regs(*final(self))
                    } else if off == VIRTIO_MMIO_QUEUE_NOTIFY {
                        &&& r is Ok
                        &&& if old(self).spec_ready() && (v % 0x1_0000) as u16 == VIRTIO_CONSOLE_TRANSMITQ {
                            old(self).spec_processed(*final(self), VIRTIO_CONSOLE_TRANSMITQ as int)
                                && old(self).spec_transmit_served(*final(self))
                        } else {
                            *final(self) == *old(self)
                        }
                    } else if off == VIRTIO_MMIO_STATUS {
                        &&& r is Ok
                        &&& final(self).regs@ == console_status_written(
                            old(self).regs@,
                            v,
                            old(self).config.device_features,
                        )
                        &&& final(self).memory == old(self).memory
                        &&& old(self).spec_same_but_regs(*final(self))
                    } else if off >= VIRTIO_MMIO_CONFIG_OFFSET {
                        &&& r is Ok
                        &&& final(self).regs == old(self).regs
                        &&& final(self).memory == old(self).memory
                        &&& final(self).backend == old(self).backend
                        &&& final(self).config == old(self).config
                        &&& final(self).base_ipa == old(self).base_ipa
                        &&& final(self).length == old(self).length
                        &&& final(self).console_config == (if off - VIRTIO_MMIO_CONFIG_OFFSET
                            == VIRTIO_CONSOLE_CFG_EMERG_WR {
                            VirtioConsoleConfig { emerg_wr: v, ..old(self).console_config }
                        } else {
                            old(self).console_config
                        })
                        &&& (off - VIRTIO_MMIO_CONFIG_OFFSET == VIRTIO_CONSOLE_CFG_EMERG_WR ==> handed(
                            old(self).backend,
                            seq![(v % 0x100) as u8],
                        ))
                    } else {
                        r == Err::<(), VirtioError>(VirtioError::InvalidRegister) && *final(self)
                            == *old(self)
                    }
                },
            },
    {
        let offset = match MmioTransport::validate_write_access(addr, width, self.base_ipa, self.length) {
            Ok(Some(offset)) => offset,
            _ => return Ok(()),
        };
        let val = (val as u64 % 0x1_0000_0000) as u32;
        if MmioRegisters::handles(offset, true) {
            self.regs.write_common(&mut self.memory, offset, val, true);
            Ok(())
        } else if offset == VIRTIO_MMIO_QUEUE_NOTIFY {
            self.handle_queue_notify((val % 0x1_0000) as u16);
            Ok(())
        } else if offset == VIRTIO_MMIO_STATUS {
            self.handle_status_write(val);
            Ok(())
        } else if offset >= VIRTIO_MMIO_CONFIG_OFFSET {
            self.write_config_space((offset - VIRTIO_MMIO_CONFIG_OFFSET) as u64, val as u64, width);
            Ok(())
        } else {
            Err(VirtioError::InvalidRegister)
        }
    }

    /// Handles a queue notification: the transmit queue's output goes to the
    /// backend; the receive queue is served when host input arrives.
    fn handle_queue_notify(&mut self, queue_index: u16)
        requires
            old(self).wf(),
        ensures
            final(self).wf(),
            if old(self).spec_ready() && queue_index == VIRTIO_CONSOLE_TRANSMITQ {
                old(self).spec_processed(*final(self), VIRTIO_CONSOLE_TRANSMITQ as int)
                    && old(self).spec_transmit_served(*final(self))
            } else {
                *final(self) == *old(self)
            },
    {
        if !self.is_device_ready() {
            return;
        }
        if queue_index == VIRTIO_CONSOLE_TRANSMITQ {
            self.process_transmit_queue();
        }
    }

    /// Sends every chain the guest has made available on the transmit queue
    /// to the backend and returns it through the used ring, then raises one
    /// interrupt for the whole batch if the driver asked for one.
    fn process_transmit_queue(&mut self)
        requires
            old(self).wf(),
        ensures
            old(self).spec_processed(*final(self), VIRTIO_CONSOLE_TRANSMITQ as int),
            old(self).spec_transmit_served(*final(self)),
    {
        let qi: usize = VIRTIO_CONSOLE_TRANSMITQ as usize;
        let ghost idx = qi as int;
        let mut processed_count: u32 = 0;
        let mut need_interrupt = false;
        let mut rounds: u32 = 0;
        let ghost init = TxProgress { regs: self.regs@, mem: self.memory.mem(), returned: false, notify: false };
        let ghost mut states: Seq<TxProgress> = seq![init];
        proof {
            lemma_or_twice32(old(self).regs.interrupt_status, VIRTIO_MMIO_INT_VRING);
        }
        while rounds < u32::MAX
            invariant_except_break
                states.len() == rounds + 1,
            invariant
                self.wf(),
                old(self).spec_processed(*self, idx),
                self.regs@.interrupt_status == old(self).regs@.interrupt_status,
                (old(self).regs.interrupt_status | VIRTIO_MMIO_INT_VRING) | VIRTIO_MMIO_INT_VRING
                    == old(self).regs.interrupt_status | VIRTIO_MMIO_INT_VRING,
                qi == 1,
                idx == 1,
                1 <= states.len() <= rounds + 1,
                states[0] == init,
                init == (TxProgress { regs: old(self).regs@, mem: old(self).memory.mem(), returned: false, notify: false }),
                tx_rounds(self.backend, states),
                states.last() == (TxProgress {
                    regs: self.regs@,
                    mem: self.memory.mem(),
                    returned: processed_count > 0,
                    notify: need_interrupt,
                }),
                processed_count < states.len(),
            ensures
                tx_round_stops(states.last()) || states.len() - 1 == u32::MAX,
            decreases u32::MAX - rounds,
        {
            rounds = rounds + 1;
            let ghost cur = states.last();
            let queue_copy = self.regs.queues[qi];
            proof {
                assert(self.regs@.queues[idx].wf());
            }
            if !queue_copy.ready {
                break;
            }
            let avail_idx = match queue_copy.read_avail_idx(&self.memory) {
                Ok(i) => i,
                Err(_) => break,
            };
            let current_avail = queue_copy.get_last_avail_idx();
            if current_avail == avail_idx {
                break;
            }
            let ring_index = current_avail % queue_copy.size;
            let entry = queue_copy.read_avail_entry(&self.memory, ring_index);
            let mut q = queue_copy;
            match entry {
                Err(_) => {
                    q.update_last_avail_idx(current_avail.wrapping_add(1));
                },
                Ok(desc_index) => {
                    let total_len = self.process_transmit_chain(&queue_copy, desc_index);
                    q.update_last_avail_idx(current_avail.wrapping_add(1));
                    let _ = q.add_used(&mut self.memory, desc_index, total_len);
                    processed_count = processed_count.wrapping_add(1);
                    if let Ok(true) = q.should_notify(&self.memory) {
                        need_interrupt = true;
                    }
                    proof {
                        assert(tx_chain_returned(cur, desc_index, total_len) == (TxProgress {
                            regs: tx_with_queue(cur, q),
                            mem: self.memory.mem(),
                            returned: processed_count > 0,
                            notify: need_interrupt,
                        }));
                    }
                },
            }
            let ghost before = self.regs@;
            self.regs.queues.set(qi, q);
            proof {
                lemma_queue_replaced(before, self.regs@, idx, q);
                let next = TxProgress {
                    regs: self.regs@,
                    mem: self.memory.mem(),
                    returned: processed_count > 0,
                    notify: need_interrupt,
                };
                assert(tx_round(self.backend, cur, next));
                lemma_tx_rounds_push(self.backend, states, next);
                states = states.push(next);
            }
        }
        if processed_count > 0 && need_interrupt {
            self.trigger_interrupt();
        }
        proof {
            assert(tx_rounds(self.backend, states) && states.len() >= 1 && states[0] == init);
        }
    }

    /// The bytes that the transmit chain at `head_index` hands to the
    /// backend (`tx_chain_bytes`), one vector per buffer.
    fn transmit_buffers(&self, queue: &VirtioQueue, head_index: u16) -> (bufs: Vec<Vec<u8>>)
        requires
            queue.wf(),
        ensures
            bufs@.map_values(|b: Vec<u8>| b@) == tx_chain_bytes(*queue, self.memory.mem(), head_index),
    {
        let ghost m = self.memory.mem();
        let buffers = match queue.get_data_buffers(&self.memory, head_index, VirtioDeviceType::Console) {
            Ok(b) => b,
            Err(_) => {
                let none: Vec<Vec<u8>> = Vec::new();
                proof {
                    assert(none@.map_values(|b: Vec<u8>| b@) =~= Seq::<Seq<u8>>::empty());
                }
                return none;
            },
        };
        let mut out: Vec<Vec<u8>> = Vec::new();
        let mut i: usize = 0;
        proof {
            assert(buffers@.take(0) =~= Seq::<(usize, usize, bool)>::empty());
            assert(out@.map_values(|b: Vec<u8>| b@) =~= Seq::<Seq<u8>>::empty());
        }
        while i < buffers.len()
            invariant
                i <= buffers@.len(),
                m == self.memory.mem(),
                out@.map_values(|b: Vec<u8>| b@) == tx_mapped_bytes(m, buffers@.take(i as int)),
            decreases buffers@.len() - i,
        {
            let (addr, size, is_write) = buffers[i];
            let ghost before = out@;
            if !is_write {
                match read_bytes(&self.memory, addr, size) {
                    Ok(b) => {
                        out.push(b);
                    },
                    Err(_) => {},
                }
            }
            i = i + 1;
            proof {
                assert(buffers@.take(i as int).drop_last() =~= buffers@.take(i - 1));
                assert(buffers@.take(i as int).last() == buffers@[i - 1]);
                if out@.len() > before.len() {
                    assert(out@ == before.push(out@.last()));
                    assert(out@.map_values(|b: Vec<u8>| b@) =~= before.map_values(|b: Vec<u8>| b@).push(
                        out@.last()@,
                    ));
                }
            }
        }
        proof {
            assert(buffers@.take(buffers@.len() as int) =~= buffers@);
        }
        out
    }

    /// Sends the device-readable buffers of a transmit chain to the backend,
    /// one at a time (`transmit_buffers`); returns how many bytes the
    /// backend took, its write counts added up as `u32` (`written_total32`;
    /// 0 for a broken chain, which hands nothing on).
    fn process_transmit_chain(&self, queue: &VirtioQueue, head_index: u16) -> (total: u32)
        requires
            queue.wf(),
        ensures
            exists|rs: Seq<VirtioResult<usize>>|
                #[trigger] written_each(self.backend, tx_chain_bytes(*queue, self.memory.mem(), head_index), rs)
                    && total == written_total32(rs),
    {
        let bufs = self.transmit_buffers(queue, head_index);
        let ghost sent = bufs@.map_values(|b: Vec<u8>| b@);
        let ghost mut rs: Seq<VirtioResult<usize>> = Seq::empty();
        let mut total_len: u32 = 0;
        let mut i: usize = 0;
        while i < bufs.len()
            invariant
                i <= bufs@.len(),
                sent == bufs@.map_values(|b: Vec<u8>| b@),
                rs.len() == i,
                forall|k: int| 0 <= k < rs.len() ==> #[trigger] self.backend.spec_write_result(sent[k], rs[k]),
                total_len == written_total32(rs),
            decreases bufs@.len() - i,
        {
            let result = self.backend.write(bufs[i].as_slice());
            let ghost rs0 = rs;
            proof {
                rs = rs.push(result);
                assert(rs.drop_last() =~= rs0);
                assert(sent[i as int] == bufs@[i as int]@);
            }
            match result {
                Ok(written) => {
                    total_len = total_len.wrapping_add((written as u64 % 0x1_0000_0000) as u32);
                },
                Err(_) => {},
            }
            i = i + 1;
        }
        proof {
            assert(written_each(self.backend, sent, rs));
        }
        total_len
    }

    /// Raises the used-buffer interrupt, unless the device polls.
    fn trigger_interrupt(&mut self)
        ensures
            final(self).regs@ == (RegistersView {
                interrupt_status: if old(self).console_config.disable_interrupts {
                    old(self).regs@.interrupt_status
                } else {
                    old(self).regs@.interrupt_status | VIRTIO_MMIO_INT_VRING
                },
                ..old(self).regs@
            }),
            old(self).spec_same_but_regs(*final(self)),
            final(self).memory == old(self).memory,
    {
        if self.console_config.disable_interrupts {
            return;
        }
        self.regs.raise_interrupt(VIRTIO_MMIO_INT_VRING);
    }

    /// Handles a write of the status register (see `console_status_written`).
    fn handle_status_write(&mut self, status: u32)
        requires
            old(self).wf(),
        ensures
            final(self).wf(),
            final(self).regs@ == console_status_written(old(self).regs@, status, old(self).config.device_features),
            old(self).spec_same_but_regs(*final(self)),
            final(self).memory == old(self).memory,
    {
        if status == 0 {
            self.regs.status = 0;
            self.reset_device();
            return;
        }
        let mut new_status = status;
        if (new_status & VIRTIO_STATUS_FEATURES_OK) != 0 && (self.regs.status & VIRTIO_STATUS_FEATURES_OK) == 0 {
            let driver_feats = self.regs.driver_features;
            if (driver_feats & !self.config.device_features) != 0 {
                new_status = (new_status & !VIRTIO_STATUS_FEATURES_OK) | VIRTIO_STATUS_FAILED;
            } else {
                let event_idx_enabled = (driver_feats & VIRTIO_F_RING_EVENT_IDX) != 0;
                self.set_event_idx_all(event_idx_enabled);
            }
        }
        self.regs.status = new_status;
    }

    /// Switches EVENT_IDX on every queue.
    fn set_event_idx_all(&mut self, enabled: bool)
        requires
            old(self).wf(),
        ensures
            final(self).wf(),
            final(self).regs@ == (RegistersView {
                queues: Seq::new(
                    old(self).regs@.queues.len(),
                    |i: int| queue_with_event_idx(old(self).regs@.queues[i], enabled),
                ),
                ..old(self).regs@
            }),
            old(self).spec_same_but_regs(*final(self)),
            final(self).memory == old(self).memory,
    {
        let n = self.regs.queues.len();
        let ghost q0 = self.regs@.queues;
        let mut i: usize = 0;
        while i < n
            invariant
                i <= n,
                n == q0.len(),
                q0 == old(self).regs@.queues,
                old(self).regs@.wf(),
                self.regs@ == (RegistersView { queues: self.regs@.queues, ..old(self).regs@ }),
                self.regs@.queues.len() == n,
                forall|k: int| 0 <= k < i ==> #[trigger] self.regs@.queues[k] == queue_with_event_idx(q0[k], enabled),
                forall|k: int| i <= k < n ==> #[trigger] self.regs@.queues[k] == q0[k],
                old(self).spec_same_but_regs(*self),
                self.memory == old(self).memory,
            decreases n - i,
        {
            let mut q = self.regs.queues[i];
            q.set_event_idx_enabled(enabled);
            self.regs.queues.set(i, q);
            i = i + 1;
        }
        proof {
            assert(self.regs@.queues =~= Seq::new(q0.len(), |k: int| queue_with_event_idx(q0[k], enabled)));
            assert(self.regs@.queues.len() == old(self).regs@.queues.len());
            assert(self.regs@.queues.len() == 2);
            assert forall|k: int| 0 <= k < self.regs@.queues.len() implies #[trigger] self.regs@.queues[k].wf()
                && self.regs@.queues[k].size > 0 && self.regs@.queues[k].index == k by {
                assert(q0[k].wf());
            }
            assert(self.regs@.wf());
        }
    }

    /// Resets the device (see `RegistersView::reset`).
    fn reset_device(&mut self)
        requires
            old(self).wf(),
        ensures
            final(self).wf(),
            final(self).regs@ == old(self).regs@.reset(),
            old(self).spec_same_but_regs(*final(self)),
            final(self).memory == old(self).memory,
    {
        self.regs.reset();
    }

    /// Handles a write to the console configuration space: a write of
    /// `emerg_wr` stores the value and sends its low byte to the backend.
    fn write_config_space(&mut self, offset: u64, value: u64, _width: AccessWidth)
        requires
            value < 0x1_0000_0000,
        ensures
            final(self).regs == old(self).regs,
            final(self).memory == old(self).memory,
            final(self).backend == old(self).backend,
            final(self).config == old(self).config,
            final(self).base_ipa == old(self).base_ipa,
            final(self).length == old(self).length,
            final(self).console_config == (if offset == VIRTIO_CONSOLE_CFG_EMERG_WR {
                VirtioConsoleConfig { emerg_wr: value as u32, ..old(self).console_config }
            } else {
                old(self).console_config
            }),
            offset == VIRTIO_CONSOLE_CFG_EMERG_WR ==> handed(old(self).backend, seq![(value % 0x100) as u8]),
    {
        if offset == VIRTIO_CONSOLE_CFG_EMERG_WR {
            self.console_config.emerg_wr = value as u32;
            let ch = (value % 0x100) as u8;
            let buf = [ch];
            let r = self.backend.write(&buf);
            proof {
                assert(buf@ =~= seq![(value % 0x100) as u8]);
                assert(self.backend.spec_write_result(buf@, r));
            }
        }
    }

    /// Whether `n` and `r` may be this device and the result after it pushed
    /// host input `data` to the guest: nothing happens (and 0 bytes went in)
    /// when the device is not ready, there is no data, the receive queue is
    /// not ready or has no chain the device has not seen; where the available
    /// index or slot cannot be read, that error; otherwise the chain in the
    /// next slot takes what fits of the data (`fill_receive`) and is returned
    /// (`console_input_delivered`), and the result is how many bytes went in.
    pub open spec fn spec_push_input(&self, data: Seq<u8>, n: Self, r: VirtioResult<usize>) -> bool {
        let q = self.regs@.queues[0];
        let m = self.memory.mem();
        &&& self.spec_processed(n, VIRTIO_CONSOLE_RECEIVEQ as int)
        &&& (r is Ok ==> r->Ok_0 <= data.len())
        &&& if !self.spec_ready() || data.len() == 0 || !q.ready {
            r == Ok::<usize, VirtioError>(0) && n == *self
        } else {
            match q.read_avail_idx_spec_or_err(m) {
                Err(e) => r == Err::<usize, VirtioError>(e) && n == *self,
                Ok(a) => if a == q.spec_last_avail_idx() {
                    r == Ok::<usize, VirtioError>(0) && n == *self
                } else {
                    match q.spec_avail_entry(m, q.spec_last_avail_idx()) {
                        Err(e) => r == Err::<usize, VirtioError>(e) && n == *self,
                        Ok(head) => {
                            let (written, filled) = match q.spec_chain(m, head) {
                                Ok(chain) => (fill_receive(m, chain, data, 0).1, fill_receive(m, chain, data, 0).0),
                                Err(_) => (0, m),
                            };
                            &&& r == Ok::<usize, VirtioError>(written as usize)
                            &&& (n.regs@, n.memory.mem()) == console_input_delivered(
                                self.regs@,
                                q,
                                head,
                                written,
                                filled,
                                self.console_config.disable_interrupts,
                            )
                        },
                    }
                },
            }
        }
    }

    /// Pushes host input to the guest: copies `data` into the next chain on
    /// the receive queue and returns it through the used ring (see
    /// `spec_push_input`). Returns how many bytes went in.
    #[verifier::spinoff_prover]
    pub fn push_input(&mut self, data: &[u8]) -> (r: VirtioResult<usize>)
        requires
            old(self).wf(),
        ensures
            final(self).wf(),
            old(self).spec_push_input(data@, *final(self), r),
    {
        if !self.is_device_ready() || data.len() == 0 {
            return Ok(0);
        }
        let qi: usize = VIRTIO_CONSOLE_RECEIVEQ as usize;
        let queue_copy = self.regs.queues[qi];
        proof {
            assert(old(self).regs@.queues[0].wf());
        }
        if !queue_copy.ready {
            return Ok(0);
        }
        let avail_idx = queue_copy.read_avail_idx(&self.memory)?;
        let last_avail = queue_copy.get_last_avail_idx();
        if avail_idx == last_avail {
            return Ok(0);
        }
        let ring_index = last_avail % queue_copy.size;
        let desc_index = queue_copy.read_avail_entry(&self.memory, ring_index)?;
        let written = self.write_to_receive_chain(&queue_copy, desc_index, data);
        if written > 0 {
            let mut q = queue_copy;
            q.update_last_avail_idx(last_avail.wrapping_add(1));
            let _ = q.add_used(&mut self.memory, desc_index, written as u32);
            let current_guest_avail_idx = match q.read_avail_idx(&self.memory) {
                Ok(i) => i,
                Err(_) => 0,
            };
            let _ = q.write_avail_event(&mut self.memory, current_guest_avail_idx);
            let notify = match q.should_notify(&self.memory) {
                Ok(b) => b,
                Err(_) => false,
            };
            let ghost before = self.regs@;
            self.regs.queues.set(qi, q);
            proof {
                lemma_queue_replaced(before, self.regs@, 0, q);
                lemma_or_twice32(old(self).regs.interrupt_status, VIRTIO_MMIO_INT_VRING);
            }
            if notify {
                self.trigger_interrupt();
            }
        }
        proof {
            assert(self.config == old(self).config);
            assert(self.regs@.wf());
        }
        Ok(written)
    }

    /// Copies `data` into the device-writable buffers of the chain at
    /// `head_index` (see `fill_receive`); returns how many bytes went in.
    fn write_to_receive_chain(&mut self, queue: &VirtioQueue, head_index: u16, data: &[u8]) -> (written: usize)
        requires
            queue.wf(),
        ensures
            written <= data@.len(),
            match queue.spec_chain(old(self).memory.mem(), head_index) {
                Ok(chain) => {
                    &&& written == fill_receive(old(self).memory.mem(), chain, data@, 0).1
                    &&& final(self).memory.mem() == fill_receive(old(self).memory.mem(), chain, data@, 0).0
                },
                Err(_) => written == 0 && final(self).memory.mem() == old(self).memory.mem(),
            },
            final(self).regs == old(self).regs,
            old(self).spec_same_but_regs(*final(self)),
    {
        let desc_table = match queue.get_desc_table() {
            Some(dt) => dt,
            None => return 0,
        };
        let descriptors = match desc_table.follow_chain(&self.memory, head_index) {
            Ok(descs) => descs,
            Err(_) => return 0,
        };
        let ghost chain = descriptors@;
        let ghost m0 = self.memory.mem();
        let mut written: usize = 0;
        let mut i: usize = 0;
        proof {
            assert(chain.skip(0) =~= chain);
        }
        while i < descriptors.len()
            invariant
                i <= chain.len(),
                chain == descriptors@,
                m0 == old(self).memory.mem(),
                queue.spec_chain(m0, head_index) == Ok::<Seq<VirtqDesc>, VirtioError>(chain),
                written <= data@.len(),
                fill_receive(m0, chain, data@, 0) == fill_receive(
                    self.memory.mem(),
                    chain.skip(i as int),
                    data@,
                    written as int,
                ),
                self.regs == old(self).regs,
                old(self).spec_same_but_regs(*self),
            decreases chain.len() - i,
        {
            let desc = descriptors[i];
            let ghost i0 = i as int;
            proof {
                assert(chain.skip(i as int).drop_first() =~= chain.skip(i + 1));
                assert(chain.skip(i as int)[0] == chain[i as int]);
            }
            i = i + 1;
            if !desc.is_write() {
                continue;
            }
            let remaining = data.len() - written;
            let to_write = if (desc.len as usize) < remaining {
                desc.len as usize
            } else {
                remaining
            };
            if to_write == 0 {
                proof {
                    assert(fill_receive(self.memory.mem(), chain.skip(i0), data@, written as int) == (
                    self.memory.mem(), written as int));
                }
                return written;
            }
            let chunk = vstd::slice::slice_subrange(data, written, written + to_write);
            if write_bytes(&mut self.memory, desc.addr as usize, chunk).is_ok() {
                written = written + to_write;
            }
        }
        proof {
            assert(chain.skip(chain.len() as int) =~= Seq::<VirtqDesc>::empty());
        }
        written
    }

    /// Whether state `i + 1` of `states` is state `i` after host input
    /// `chunks[i]` (at most `CONSOLE_INPUT_CHUNK` bytes) was pushed to the
    /// guest, which took `written[i]` bytes of it, some.
    pub open spec fn fwd_step(states: Seq<Self>, chunks: Seq<Seq<u8>>, written: Seq<usize>, i: int) -> bool {
        &&& 0 < chunks[i].len() <= CONSOLE_INPUT_CHUNK
        &&& written[i] > 0
        &&& states[i].spec_push_input(chunks[i], states[i + 1], Ok::<usize, VirtioError>(written[i]))
    }

    /// Whether `states` follows pushes of the host input `chunks`, one after
    /// the other, each taken in part or whole.
    pub open spec fn fwd_run(states: Seq<Self>, chunks: Seq<Seq<u8>>, written: Seq<usize>) -> bool {
        &&& states.len() == chunks.len() + 1
        &&& written.len() == chunks.len()
        &&& forall|i: int| 0 <= i < chunks.len() ==> #[trigger] Self::fwd_step(states, chunks, written, i)
    }

    /// Whether forwarding host input may take this device to `n` and
    /// forward `total` bytes: chunks of input the backend gave are pushed one
    /// after the other (`fwd_run`) and `total` is what the guest took of them;
    /// forwarding ends there, or after one more push that the guest took
    /// nothing of, that failed, or whose bytes would not fit in `total`.
    pub open spec fn spec_forwarded(&self, n: Self, total: usize) -> bool {
        exists|states: Seq<Self>, chunks: Seq<Seq<u8>>, written: Seq<usize>|
            #[trigger] Self::fwd_run(states, chunks, written) && states[0] == *self && total == usize_sum(written)
                && (n == states.last() || exists|chunk: Seq<u8>, r: VirtioResult<usize>|
                0 < chunk.len() <= CONSOLE_INPUT_CHUNK && #[trigger] states.last().spec_push_input(chunk, n, r) && (
                r is Err || r == Ok::<usize, VirtioError>(0) || r->Ok_0 > usize::MAX - total))
    }

    /// Forwards host input to the guest in chunks of `CONSOLE_INPUT_CHUNK`
    /// bytes while the backend has input and the guest takes it; returns how
    /// many bytes went to the guest.
    pub fn forward_backend_input(&mut self) -> (total: usize)
        requires
            old(self).wf(),
        ensures
            final(self).wf(),
            old(self).spec_processed(*final(self), VIRTIO_CONSOLE_RECEIVEQ as int),
            !old(self).spec_ready() ==> total == 0 && *final(self) == *old(self),
            old(self).spec_forwarded(*final(self), total),
    {
        let ghost mut states: Seq<Self> = seq![*self];
        let ghost mut chunks: Seq<Seq<u8>> = Seq::empty();
        let ghost mut taken: Seq<usize> = Seq::empty();
        proof {
            assert(Self::fwd_run(states, chunks, taken));
            assert(usize_sum(taken) == 0);
        }
        if !self.is_device_ready() {
            return 0;
        }
        if !self.backend.has_pending_input() {
            proof {
                lemma_progressed_on_refl(old(self).regs@, 0);
            }
            return 0;
        }
        let mut buffer = vec![0u8; CONSOLE_INPUT_CHUNK];
        let mut total_forwarded: usize = 0;
        proof {
            lemma_or_twice32(old(self).regs.interrupt_status, VIRTIO_MMIO_INT_VRING);
            lemma_progressed_on_refl(old(self).regs@, 0);
        }
        loop
            invariant_except_break
                *self == states.last(),
            invariant
                self.wf(),
                old(self).spec_processed(*self, 0),
                (old(self).regs.interrupt_status | VIRTIO_MMIO_INT_VRING) | VIRTIO_MMIO_INT_VRING
                    == old(self).regs.interrupt_status | VIRTIO_MMIO_INT_VRING,
                buffer@.len() == CONSOLE_INPUT_CHUNK,
                Self::fwd_run(states, chunks, taken),
                states[0] == *old(self),
                total_forwarded == usize_sum(taken),
            ensures
                *self == states.last() || exists|chunk: Seq<u8>, r: VirtioResult<usize>|
                    0 < chunk.len() <= CONSOLE_INPUT_CHUNK && #[trigger] states.last().spec_push_input(chunk, *self, r)
                        && (r is Err || r == Ok::<usize, VirtioError>(0) || r->Ok_0 > usize::MAX
                        - total_forwarded),
            decreases usize::MAX - total_forwarded,
        {
            let bytes_read = match self.backend.read(buffer.as_mut_slice()) {
                Ok(n) => n,
                Err(_) => break,
            };
            if bytes_read == 0 {
                break;
            }
            let chunk = vstd::slice::slice_subrange(buffer.as_slice(), 0, bytes_read);
            let ghost before = *self;
            let r = self.push_input(chunk);
            proof {
                assert(before == states.last());
                assert(before.spec_push_input(chunk@, *self, r));
            }
            match r {
                Ok(written) => {
                    if written == 0 || written > usize::MAX - total_forwarded {
                        break;
                    }
                    proof {
                        let states2 = states.push(*self);
                        let chunks2 = chunks.push(chunk@);
                        let taken2 = taken.push(written);
                        assert forall|i: int| 0 <= i < chunks2.len() implies #[trigger] Self::fwd_step(
                            states2,
                            chunks2,
                            taken2,
                            i,
                        ) by {
                            if i < chunks.len() {
                                assert(Self::fwd_step(states, chunks, taken, i));
                                assert(states2[i] == states[i] && states2[i + 1] == states[i + 1]);
                                assert(chunks2[i] == chunks[i] && taken2[i] == taken[i]);
                            } else {
                                assert(states2[i] == before && states2[i + 1] == *self);
                            }
                        }
                        assert(taken2.drop_last() =~= taken);
                        states = states2;
                        chunks = chunks2;
                        taken = taken2;
                    }
                    total_forwarded = total_forwarded + written;
                },
                Err(_) => break,
            }
            if !self.backend.has_pending_input() {
                break;
            }
        }
        proof {
            assert(Self::fwd_run(states, chunks, taken) && states[0] == *old(self) && total_forwarded == usize_sum(
                taken,
            ));
        }
        total_forwarded
    }
}

} // verus!
