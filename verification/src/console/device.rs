//! The console device of a fixed MMIO window, over a host console backend:
//! guest output on the transmit queue goes to the backend, backend input
//! fills the guest's buffers on the receive queue.

use crate::config::VirtioConfig;
use crate::console::config::VirtioConsoleConfig;
use crate::console::constants::{
    CONSOLE_RX_BUFFER_SIZE, VIRTIO_CONSOLE_CFG_EMERG_WR, VIRTIO_CONSOLE_RX_QUEUE,
    VIRTIO_CONSOLE_TX_QUEUE,
};
use crate::console::host::{ConsoleBackend, SocketConsoleBackend, create_default_backend};
use crate::constants::{
    VIRTIO_DEVICE_ID_CONSOLE, VIRTIO_F_VERSION_1, VIRTIO_MMIO_CONFIG, VIRTIO_MMIO_DRIVER_FEATURES, VIRTIO_MMIO_INT_VRING,
    VIRTIO_MMIO_QUEUE_NOTIFY, VIRTIO_MMIO_STATUS, VIRTIO_STATUS_ACKNOWLEDGE,
    VIRTIO_STATUS_DRIVER, VIRTIO_STATUS_DRIVER_OK,
};
use crate::device_type::VirtioDeviceType;
use crate::error::{VirtioError, VirtioResult};
use crate::flags::lemma_or_twice32;
use crate::memory::{GuestMemoryAccess, bytes_at, range_mapped, read_bytes, store_bytes, write_bytes};
use crate::queue::VirtioQueue;
use crate::queue::available::{AvailableRing, lemma_ring_advance, lemma_ring_step, ring_distance};
use crate::regs::{
    MmioRegisters, RegistersView, handles_write, lemma_progressed_on_refl, lemma_queue_replaced,
    queue_progressed,
};
use crate::transport::{AccessWidth, MmioTransport, spec_validate_access};
use vstd::prelude::*;

verus! {

/// The status bits that together make the legacy console device ready.
pub open spec fn console_ready_status(status: u32) -> bool {
    let ready = VIRTIO_STATUS_ACKNOWLEDGE | VIRTIO_STATUS_DRIVER | VIRTIO_STATUS_DRIVER_OK;
    status & ready == ready
}

/// Guest memory after host input from `off` on was copied into the
/// device-writable buffers of a receive chain, the bytes of input consumed
/// by then, and whether guest memory backed every buffer written: each
/// buffer takes as much as fits, and the copy moves on to the next buffer
/// only when one is full and input remains.
pub open spec fn fill_rx(m: Map<int, u8>, bufs: Seq<(usize, usize, bool)>, input: Seq<u8>, off: int) -> (
    Map<int, u8>,
    int,
    bool,
)
    decreases bufs.len(),
{
    if bufs.len() == 0 {
        (m, off, true)
    } else {
        let (a, size, w) = bufs[0];
        if !w {
            fill_rx(m, bufs.drop_first(), input, off)
        } else if off >= input.len() {
            (m, off, true)
        } else {
            let n = if size < input.len() - off {
                size as int
            } else {
                input.len() - off
            };
            if n == 0 {
                (m, off, true)
            } else if !range_mapped(m, a as int, n) {
                (m, off, false)
            } else {
                let m2 = store_bytes(m, a as int, input.subrange(off, off + n));
                if n == size && off + n < input.len() {
                    fill_rx(m2, bufs.drop_first(), input, off + n)
                } else {
                    (m2, off + n, true)
                }
            }
        }
    }
}

/// A queue and guest memory after one chain was returned with `len` bytes
/// through the used ring, and whether the driver asks to be interrupted for it.
pub open spec fn console_return_one(q: VirtioQueue, m: Map<int, u8>, head: u16, len: u32) -> (
    VirtioQueue,
    Map<int, u8>,
    bool,
) {
    let (q1, m1, added) = q.spec_add_used(m, head, len);
    if !added {
        (q1, m1, false)
    } else {
        let (q2, notify) = q1.spec_notify(m1);
        (q2, m1, notify == Ok::<bool, VirtioError>(true))
    }
}

/// A queue and guest memory after the chains of `processed` (head, length,
/// status) were returned in order, and whether the driver asked to be
/// interrupted for any of them.
pub open spec fn console_returned(q: VirtioQueue, m: Map<int, u8>, processed: Seq<(u16, u32, u8)>) -> (
    VirtioQueue,
    Map<int, u8>,
    bool,
)
    decreases processed.len(),
{
    if processed.len() == 0 {
        (q, m, false)
    } else {
        let (q1, m1, n1) = console_returned(q, m, processed.drop_last());
        let (q2, m2, n2) = console_return_one(q1, m1, processed.last().0, processed.last().1);
        (q2, m2, n1 || n2)
    }
}

/// The register file and guest memory after queue `qi` recorded the
/// available index `current` as seen and returned the chains of `processed`,
/// with the used-buffer interrupt raised when the driver asked for one;
/// nothing changes when no slot was seen.
pub open spec fn console_completed(
    r: RegistersView,
    qi: int,
    start: u16,
    current: u16,
    processed: Seq<(u16, u32, u8)>,
    m: Map<int, u8>,
) -> (RegistersView, Map<int, u8>) {
    if current == start && processed.len() == 0 {
        (r, m)
    } else {
        let q = r.queues[qi];
        let q1 = VirtioQueue {
            avail_ring: Some(AvailableRing { last_avail_idx: current, ..q.spec_avail_ring()->Some_0 }),
            ..q
        };
        let (q2, m2, notify) = console_returned(q1, m, processed);
        let r2 = RegistersView { queues: r.queues.update(qi, q2), ..r };
        if notify {
            (RegistersView { interrupt_status: r2.interrupt_status | VIRTIO_MMIO_INT_VRING, ..r2 }, m2)
        } else {
            (r2, m2)
        }
    }
}

/// The heads of the chains in the first `n` available slots from the
/// queue's last available index on, of the slots that can be read.
pub open spec fn tx_heads(queue: VirtioQueue, m: Map<int, u8>, n: nat) -> Seq<u16>
    decreases n,
{
    if n == 0 {
        Seq::empty()
    } else {
        let prev = tx_heads(queue, m, (n - 1) as nat);
        match queue.spec_avail_entry(m, queue.spec_slot_avail_index(n - 1)) {
            Ok(head) => prev.push(head),
            Err(_) => prev,
        }
    }
}

/// The bytes of the device-readable buffers of `bufs` in guest memory `m`,
/// in order, up to the first one that is not mapped; and whether every
/// device-readable buffer was mapped.
pub open spec fn tx_read(m: Map<int, u8>, bufs: Seq<(usize, usize, bool)>) -> (Seq<Seq<u8>>, bool)
    decreases bufs.len(),
{
    if bufs.len() == 0 {
        (Seq::empty(), true)
    } else {
        let (prev, complete) = tx_read(m, bufs.drop_last());
        let (a, len, w) = bufs.last();
        if !complete || w {
            (prev, complete)
        } else if range_mapped(m, a as int, len as int) {
            (prev.push(bytes_at(m, a as int, len as nat)), true)
        } else {
            (prev, false)
        }
    }
}

/// What sending the transmit chain at `head` reads from guest memory
/// (`tx_read` of its buffers); nothing, and incomplete, for a chain that
/// cannot be followed.
pub open spec fn tx_chain_read(queue: VirtioQueue, m: Map<int, u8>, head: u16) -> (Seq<Seq<u8>>, bool) {
    match queue.spec_chain(m, head) {
        Ok(chain) => tx_read(m, crate::queue::descriptor::data_buffers(chain, VirtioDeviceType::Console)),
        Err(_) => (Seq::empty(), false),
    }
}

/// Whether `rs` are the results of handing `chunks` to `b`'s `write` one
/// after the other, stopping at the first failure: each call ended as `b`'s
/// relation allows, every call but the last succeeded, and the sending
/// stopped before the end only at a failure.
pub open spec fn tx_writes<B: ConsoleBackend>(b: B, chunks: Seq<Seq<u8>>, rs: Seq<VirtioResult<usize>>) -> bool {
    &&& rs.len() <= chunks.len()
    &&& forall|i: int| 0 <= i < rs.len() ==> #[trigger] b.spec_write_result(chunks[i], rs[i])
    &&& forall|i: int| 0 <= i < rs.len() - 1 ==> #[trigger] rs[i] is Ok
    &&& rs.len() < chunks.len() ==> tx_write_failed(rs)
}

/// Whether the last of the writes `rs` failed.
pub open spec fn tx_write_failed(rs: Seq<VirtioResult<usize>>) -> bool {
    rs.len() > 0 && rs.last() is Err
}

/// The byte counts of the successful writes of `rs`, added up as `usize`
/// adds them (wrapping).
pub open spec fn tx_written_total(rs: Seq<VirtioResult<usize>>) -> usize
    decreases rs.len(),
{
    if rs.len() == 0 {
        0
    } else {
        let t = tx_written_total(rs.drop_last());
        let n: usize = match rs.last() {
            Ok(n) => n,
            Err(_) => 0,
        };
        if t + n > usize::MAX {
            (t + n - (usize::MAX + 1)) as usize
        } else {
            (t + n) as usize
        }
    }
}

/// What sending the transmit chain at `head` to `b` may return, `result`
/// (see `process_tx_descriptor_chain`): a chain that cannot be followed is
/// refused (`InvalidQueue`); otherwise the buffers read from guest memory
/// (`tx_chain_read`) are handed to the backend in turn (`tx_writes`), and
/// the result is `BackendError` where a write failed, `MemoryError` where a
/// buffer was not mapped, and otherwise the bytes the backend took
/// (`tx_written_total`), or `BackendError` where the flush failed.
pub open spec fn tx_chain_sent<B: ConsoleBackend>(
    b: B,
    queue: VirtioQueue,
    m: Map<int, u8>,
    head: u16,
    result: VirtioResult<usize>,
) -> bool {
    match queue.spec_chain(m, head) {
        Err(_) => result == Err::<usize, VirtioError>(VirtioError::InvalidQueue),
        Ok(_) => {
            let (chunks, complete) = tx_chain_read(queue, m, head);
            exists|rs: Seq<VirtioResult<usize>>|
                #[trigger] tx_writes(b, chunks, rs) && if tx_write_failed(rs) {
                    result == Err::<usize, VirtioError>(VirtioError::BackendError)
                } else if !complete {
                    result == Err::<usize, VirtioError>(VirtioError::MemoryError)
                } else {
                    result == Ok::<usize, VirtioError>(tx_written_total(rs)) || result == Err::<
                        usize,
                        VirtioError,
                    >(VirtioError::BackendError)
                }
        },
    }
}

/// Whether `processed` returns the chains of `heads` in order, each as
/// `tx_returned` says.
pub open spec fn tx_returns<B: ConsoleBackend>(
    b: B,
    queue: VirtioQueue,
    m: Map<int, u8>,
    heads: Seq<u16>,
    processed: Seq<(u16, u32, u8)>,
) -> bool {
    &&& processed.len() == heads.len()
    &&& forall|i: int| 0 <= i < heads.len() ==> #[trigger] tx_returned(b, queue, m, heads[i], processed[i])
}

/// Whether `entry` returns the chain at `head` after it was sent to `b`:
/// with the bytes the backend took (cut to 32 bits) where sending succeeded
/// (status 0), with none where it failed (status 1), as `tx_chain_sent`
/// says.
pub open spec fn tx_returned<B: ConsoleBackend>(
    b: B,
    queue: VirtioQueue,
    m: Map<int, u8>,
    head: u16,
    entry: (u16, u32, u8),
) -> bool {
    exists|result: VirtioResult<usize>|
        #[trigger] tx_chain_sent(b, queue, m, head, result) && entry == match result {
            Ok(n) => (head, (n as u64 % 0x1_0000_0000) as u32, 0u8),
            Err(_) => (head, 0u32, 1u8),
        }
}

/// Returning one more chain as `tx_returned` says keeps `tx_returns`.
proof fn lemma_tx_returns_push<B: ConsoleBackend>(
    b: B,
    queue: VirtioQueue,
    m: Map<int, u8>,
    heads: Seq<u16>,
    processed: Seq<(u16, u32, u8)>,
    entry: (u16, u32, u8),
)
    requires
        tx_returns(b, queue, m, heads, processed),
        tx_returned(b, queue, m, entry.0, entry),
    ensures
        tx_returns(b, queue, m, heads.push(entry.0), processed.push(entry)),
{
    let h2 = heads.push(entry.0);
    let p2 = processed.push(entry);
    assert forall|i: int| 0 <= i < h2.len() implies #[trigger] tx_returned(b, queue, m, h2[i], p2[i]) by {
        if i < heads.len() {
            assert(p2[i] == processed[i] && h2[i] == heads[i]);
        }
    }
}

/// One more slot read adds its chain, if any, to the heads.
proof fn lemma_tx_heads_step(queue: VirtioQueue, m: Map<int, u8>, n: nat)
    ensures
        tx_heads(queue, m, n + 1) == (match queue.spec_avail_entry(m, queue.spec_slot_avail_index(n as int)) {
            Ok(head) => tx_heads(queue, m, n).push(head),
            Err(_) => tx_heads(queue, m, n),
        }),
{
    assert(((n + 1) - 1) as nat == n);
}

/// Filling a chain places no more input than there is.
proof fn lemma_fill_rx_bounds(m: Map<int, u8>, bufs: Seq<(usize, usize, bool)>, input: Seq<u8>, off: int)
    requires
        0 <= off <= input.len(),
    ensures
        off <= fill_rx(m, bufs, input, off).1 <= input.len(),
    decreases bufs.len(),
{
    if bufs.len() > 0 {
        let (a, size, w) = bufs[0];
        if !w {
            lemma_fill_rx_bounds(m, bufs.drop_first(), input, off);
        } else if off < input.len() {
            let n = if size < input.len() - off {
                size as int
            } else {
                input.len() - off
            };
            if n != 0 && range_mapped(m, a as int, n) && n == size && off + n < input.len() {
                lemma_fill_rx_bounds(
                    store_bytes(m, a as int, input.subrange(off, off + n)),
                    bufs.drop_first(),
                    input,
                    off + n,
                );
            }
        }
    }
}

/// Where filling the receive queue stands: guest memory, the bytes of
/// input placed so far, and the chains to return (head, length, status).
pub struct RxProgress {
    pub mem: Map<int, u8>,
    pub off: int,
    pub processed: Seq<(u16, u32, u8)>,
}

/// The progress after the available slot of `avail_index`: a slot that
/// cannot be read changes nothing; a chain that cannot be followed is
/// returned empty; any other chain is filled with the input left
/// (`fill_rx`) and returned with the bytes it took, or empty where guest
/// memory failed it.
pub open spec fn rx_step(queue: VirtioQueue, input: Seq<u8>, avail_index: u16, s: RxProgress) -> RxProgress {
    match queue.spec_avail_entry(s.mem, avail_index) {
        Err(_) => s,
        Ok(head) => match queue.spec_chain(s.mem, head) {
            Err(_) => RxProgress { processed: s.processed.push((head, 0u32, 1u8)), ..s },
            Ok(chain) => {
                let f = fill_rx(
                    s.mem,
                    crate::queue::descriptor::data_buffers(chain, VirtioDeviceType::Console),
                    input.subrange(s.off, input.len() as int),
                    0,
                );
                if f.2 {
                    RxProgress { mem: f.0, off: s.off + f.1, processed: s.processed.push((head, f.1 as u32, 0u8)) }
                } else {
                    RxProgress { mem: f.0, off: s.off, processed: s.processed.push((head, 0u32, 1u8)) }
                }
            },
        },
    }
}

/// The slot reached and the progress after the `left` slots from the
/// available index `cur` on were filled in turn, stopping once all input is placed.
pub open spec fn rx_run(queue: VirtioQueue, input: Seq<u8>, cur: u16, left: nat, s: RxProgress) -> (u16, RxProgress)
    decreases left,
{
    if left == 0 || s.off >= input.len() {
        (cur, s)
    } else {
        rx_run(queue, input, ((cur + 1) % 0x1_0000) as u16, (left - 1) as nat, rx_step(queue, input, cur, s))
    }
}

/// VirtIO console MMIO device over a host console backend.
pub struct VirtioConsoleDevice<B: ConsoleBackend> {
    /// Base IPA address
    pub base_ipa: usize,
    /// MMIO region length
    pub length: usize,
    /// Device configuration
    pub config: VirtioConfig,
    /// Console device configuration
    pub console_config: VirtioConsoleConfig,
    /// The register file; its queues are [RX, TX] of port 0
    pub regs: MmioRegisters,
    /// Console backend
    pub backend: B,
}

impl<B: ConsoleBackend> VirtioConsoleDevice<B> {
    /// The device's invariant: a console configuration for its window,
    /// and a well-formed register file with two queues.
    pub open spec fn wf(&self) -> bool {
        &&& self.config == VirtioConfig::spec_new(
            self.config.device_index,
            VIRTIO_DEVICE_ID_CONSOLE,
            VIRTIO_F_VERSION_1,
            2,
        )
        &&& self.config.addressable()
        &&& self.regs@.wf()
        &&& self.regs@.queues.len() == 2
    }

    /// Whether the device index names one of the MMIO windows.
    pub open spec fn spec_enabled(&self) -> bool {
        self.config.device_index < crate::constants::VIRTIO_MAX_DEVICES
    }

    /// Whether `addr` lies in this device's window.
    pub open spec fn spec_in_range(&self, addr: usize) -> bool {
        self.spec_enabled() && self.config.spec_device_mmio_addr() <= addr
            < self.config.spec_device_mmio_addr() + self.config.mmio_size
    }

    /// What a read at `addr` returns: 0 for an access the validation
    /// refuses or outside the window; a common register, a configuration
    /// field, or 0 for any other offset.
    pub open spec fn spec_read(&self, addr: usize, width: AccessWidth) -> usize {
        match spec_validate_access(addr, width, self.base_ipa, self.length) {
            Err(_) | Ok(None) => 0,
            Ok(Some(off)) => if !self.spec_in_range(addr) {
                0
            } else {
                match self.regs@.read_common(off, self.config) {
                    Some(v) => v as usize,
                    None => if off >= VIRTIO_MMIO_CONFIG {
                        self.console_config.spec_read((off - VIRTIO_MMIO_CONFIG) as u64) as u32 as usize
                    } else {
                        0
                    },
                }
            },
        }
    }

    /// `n` is this device with only queue `idx`'s indices and the interrupt
    /// status changed.
    pub open spec fn spec_processed(&self, n: Self, idx: int) -> bool {
        &&& n.base_ipa == self.base_ipa
        &&& n.length == self.length
        &&& n.config == self.config
        &&& n.console_config == self.console_config
        &&& n.backend == self.backend
        &&& n.regs@.progressed_on(self.regs@, idx)
        &&& n.wf()
    }

    /// Whether the register file `r` and guest memory `m1` may follow from
    /// this device sending the chains of the transmit queue's copy `queue`,
    /// in memory `m0`, up to the available index `avail` to the backend:
    /// each chain whose slot can be read is sent and returned through the used
    /// ring with the bytes the backend took (`tx_returned`: none where
    /// sending failed), then the queue records `avail` as seen
    /// (`console_completed`).
    pub open spec fn spec_transmitted(&self, queue: VirtioQueue, m0: Map<int, u8>, avail: u16, r: RegistersView, m1: Map<int, u8>) -> bool {
        let heads = tx_heads(queue, m0, ring_distance(avail, queue.spec_last_avail_idx()) as nat);
        exists|processed: Seq<(u16, u32, u8)>|
            #[trigger] tx_returns(self.backend, queue, m0, heads, processed) && (r, m1) == console_completed(
                self.regs@,
                VIRTIO_CONSOLE_TX_QUEUE as int,
                queue.spec_last_avail_idx(),
                avail,
                processed,
                m0,
            )
    }

    /// Whether the register file `r` and guest memory `m1` may follow from
    /// this device placing host `input` into the chains of the receive
    /// queue's copy `queue`, in memory `m0`: the slots up to the available
    /// index are filled in turn until all input is placed (`rx_run`), then
    /// the chains are returned and the queue records the slot reached as
    /// seen (`console_completed`); nothing changes where the available index
    /// cannot be read.
    pub open spec fn spec_received(&self, queue: VirtioQueue, m0: Map<int, u8>, input: Seq<u8>, r: RegistersView, m1: Map<int, u8>) -> bool {
        match queue.spec_avail_ring()->Some_0.read_avail_idx_spec(m0) {
            Err(_) => r == self.regs@ && m1 == m0,
            Ok(a) => {
                let start = queue.spec_last_avail_idx();
                let (cur, s) = rx_run(
                    queue,
                    input,
                    start,
                    ring_distance(a, start) as nat,
                    RxProgress { mem: m0, off: 0, processed: Seq::empty() },
                );
                (r, m1) == console_completed(self.regs@, VIRTIO_CONSOLE_RX_QUEUE as int, start, cur, s.processed, s.mem)
            },
        }
    }

    /// Whether `n` and guest memory `m1` may be this device and memory `m0`
    /// after a notification of queue `idx`: nothing unless
    /// `spec_will_process`; the receive queue takes what input the backend
    /// has (`spec_received`; nothing when it has none), the transmit queue
    /// sends its chains to the backend (`spec_transmitted`; nothing when its
    /// available index cannot be read).
    pub open spec fn spec_notified(&self, n: Self, m0: Map<int, u8>, m1: Map<int, u8>, idx: u16) -> bool {
        if !self.spec_will_process(idx) {
            n == *self && m1 == m0
        } else {
            &&& self.spec_processed(n, idx as int)
            &&& if idx == VIRTIO_CONSOLE_RX_QUEUE {
                self.spec_rx_served(self.regs@.queues[VIRTIO_CONSOLE_RX_QUEUE as int], m0, n, m1)
            } else {
                let q = self.regs@.queues[VIRTIO_CONSOLE_TX_QUEUE as int];
                match q.spec_avail_ring()->Some_0.read_avail_idx_spec(m0) {
                    Ok(a) => n.regs@.queues[VIRTIO_CONSOLE_TX_QUEUE as int].spec_last_avail_idx() == a
                        && self.spec_transmitted(q, m0, a, n.regs@, m1),
                    Err(_) => n == *self && m1 == m0,
                }
            }
        }
    }

    /// Whether `n` and guest memory `m1` may follow from this device serving
    /// the receive queue's copy `queue` in memory `m0`: the backend is asked
    /// to read into a zeroed buffer of `CONSOLE_RX_BUFFER_SIZE` bytes, the
    /// call ending as its relation allows; where it fails or reads nothing,
    /// nothing changes; otherwise the bytes it read are placed in the guest's
    /// buffers (`spec_received`).
    pub open spec fn spec_rx_served(&self, queue: VirtioQueue, m0: Map<int, u8>, n: Self, m1: Map<int, u8>) -> bool {
        let given = Seq::new(CONSOLE_RX_BUFFER_SIZE as nat, |i: int| 0u8);
        exists|data: Seq<u8>, r: VirtioResult<usize>|
            #[trigger] self.backend.spec_read_result(given, data, r) && match r {
                Ok(k) => if k == 0 {
                    n == *self && m1 == m0
                } else {
                    k <= data.len() && self.spec_received(queue, m0, data.take(k as int), n.regs@, m1)
                },
                Err(_) => n == *self && m1 == m0,
            }
    }

    /// Whether a notification of queue `idx` leads to processing.
    pub open spec fn spec_will_process(&self, idx: u16) -> bool {
        &&& console_ready_status(self.regs@.status)
        &&& (idx == VIRTIO_CONSOLE_RX_QUEUE || idx == VIRTIO_CONSOLE_TX_QUEUE)
        &&& self.regs@.queues[idx as int].spec_is_valid()
    }

    /// Creates the console device of window `device_index` over `backend`,
    /// sized as the backend reports.
    pub fn with_backend(base_ipa: usize, device_index: usize, length: usize, backend: B) -> (r: VirtioResult<Self>)
        requires
            VirtioConfig::spec_new(device_index, VIRTIO_DEVICE_ID_CONSOLE, VIRTIO_F_VERSION_1, 2).addressable(),
        ensures
            r is Ok,
            r->Ok_0.wf(),
            r->Ok_0.config == VirtioConfig::spec_new(device_index, VIRTIO_DEVICE_ID_CONSOLE, VIRTIO_F_VERSION_1, 2),
            r->Ok_0.base_ipa == r->Ok_0.config.spec_device_mmio_addr(),
            r->Ok_0.length == length,
            r->Ok_0.backend == backend,
            r->Ok_0.regs@.status == 0,
            r->Ok_0.console_config.disable_interrupts == false,
    {
        let config = VirtioConfig::new_console_device(device_index);
        let mut queues: Vec<VirtioQueue> = Vec::new();
        queues.push(VirtioQueue::new(VIRTIO_CONSOLE_RX_QUEUE, config.max_queue_size));
        queues.push(VirtioQueue::new(VIRTIO_CONSOLE_TX_QUEUE, config.max_queue_size));
        let base_ipa = config.get_device_mmio_addr();
        let (cols, rows) = backend.get_size();
        let console_config = VirtioConsoleConfig::with_size(cols, rows);
        let regs = MmioRegisters::new(queues, 0);
        proof {
            assert(regs@.queues[0].wf() && regs@.queues[1].wf());
        }
        Ok(Self { base_ipa, length, config, console_config, regs, backend })
    }

    /// Whether the device index names one of the MMIO windows.
    pub fn is_enabled(&self) -> (b: bool)
        ensures
            b == self.spec_enabled(),
    {
        self.config.is_valid_device_index()
    }

    /// Whether `addr` lies in this device's window.
    pub fn is_address_in_range(&self, addr: usize) -> (b: bool)
        requires
            self.wf(),
        ensures
            b == self.spec_in_range(addr),
    {
        if !self.is_enabled() {
            return false;
        }
        let (start, end) = self.config.get_mmio_range();
        addr >= start && addr < end
    }

    /// Handles an MMIO read (see `spec_read`).
    pub fn mmio_read(&self, addr: usize, width: AccessWidth) -> (r: VirtioResult<usize>)
        requires
            self.wf(),
        ensures
            r == Ok::<usize, VirtioError>(self.spec_read(addr, width)),
    {
        let offset = match MmioTransport::validate_read_access(addr, width, self.base_ipa, self.length) {
            Ok(Some(offset)) => offset,
            _ => return Ok(0),
        };
        if !self.is_address_in_range(addr) {
            return Ok(0);
        }
        let value: u32 = match self.regs.read_common(offset, &self.config) {
            Some(v) => v,
            None => {
                if offset >= VIRTIO_MMIO_CONFIG {
                    let config_offset = offset - VIRTIO_MMIO_CONFIG;
                    self.console_config.read(config_offset as u64, 4) as u32
                } else {
                    0
                }
            },
        };
        Ok(value as usize)
    }

    /// Handles an MMIO write. An access the validation refuses, or one
    /// outside the window, is ignored; the common registers (ring addresses
    /// included) behave as `RegistersView::write_common` says; a status
    /// write stores the value, and 0 resets the device; a notification
    /// processes the receive or the transmit queue; a configuration write
    /// goes to the configuration space, and one of `emerg_wr` also reaches
    /// the backend's emergency channel; any other offset is ignored.
    pub fn mmio_write<M: GuestMemoryAccess>(&mut self, mem: &mut M, addr: usize, width: AccessWidth, val: usize) -> (r:
        VirtioResult<()>)
        requires
            old(self).wf(),
        ensures
            r is Ok,
            final(self).wf(),
            final(self).base_ipa == old(self).base_ipa,
            final(self).length == old(self).length,
            final(self).config == old(self).config,
            final(self).backend == old(self).backend,
            match spec_validate_access(addr, width, old(self).base_ipa, old(self).length) {
                Err(_) | Ok(None) => *final(self) == *old(self) && final(mem).mem() == old(mem).mem(),
                Ok(Some(off)) => {
                    let v = (val as int % 0x1_0000_0000) as u32;
                    if !old(self).spec_in_range(addr) {
                        *final(self) == *old(self) && final(mem).mem() == old(mem).mem()
                    } else if handles_write(off, true) {
                        &&& final(self).regs@ == old(self).regs@.write_common_word(off, val, true)
                        &&& final(mem).mem() == (if old(self).regs@.wide_feature_write(off, val) {
                            old(mem).mem()
                        } else {
                            old(self).regs@.write_common_memory(off, v, old(mem).mem())
                        })
                        &&& final(self).console_config == old(self).console_config
                        &&& final(self).backend == old(self).backend
                    } else if off == VIRTIO_MMIO_QUEUE_NOTIFY {
                        old(self).spec_notified(*final(self), old(mem).mem(), final(mem).mem(), (v % 0x1_0000) as u16)
                    } else if off == VIRTIO_MMIO_STATUS {
                        &&& final(self).regs@ == (if val == 0 {
                            RegistersView { status: 0, ..old(self).regs@.reset() }
                        } else {
                            RegistersView { status: v, ..old(self).regs@ }
                        })
                        &&& final(mem).mem() == old(mem).mem()
                        &&& final(self).console_config == old(self).console_config
                    } else if off >= VIRTIO_MMIO_CONFIG {
                        &&& final(self).regs == old(self).regs
                        &&& final(mem).mem() == old(mem).mem()
                        &&& final(self).console_config == old(self).console_config.spec_write(
                            (off - VIRTIO_MMIO_CONFIG) as u64,
                            v as u64,
                        )
                    } else {
                        *final(self) == *old(self) && final(mem).mem() == old(mem).mem()
                    }
                },
            },
    {
        let offset = match MmioTransport::validate_write_access(addr, width, self.base_ipa, self.length) {
            Ok(Some(offset)) => offset,
            _ => return Ok(()),
        };
        if !self.is_address_in_range(addr) {
            return Ok(());
        }
        let word = val;
        let val = (val as u64 % 0x1_0000_0000) as u32;
        if MmioRegisters::handles(offset, true) {
            if offset == VIRTIO_MMIO_DRIVER_FEATURES && self.regs.driver_features_sel == 0 && word as u64
                >= 0x1_0000_0000 {
                let features = (self.regs.driver_features & 0xFFFF_FFFF_0000_0000u64) | (word as u64);
                self.regs.set_driver_features(features);
            } else {
                self.regs.write_common(mem, offset, val, true);
            }
        } else if offset == VIRTIO_MMIO_QUEUE_NOTIFY {
            self.handle_queue_notify(mem, (val % 0x1_0000) as u16);
        } else if offset == VIRTIO_MMIO_STATUS {
            self.regs.set_status(val);
            if word == 0 {
                self.reset_device();
            }
        } else if offset >= VIRTIO_MMIO_CONFIG {
            let config_offset = offset - VIRTIO_MMIO_CONFIG;
            self.console_config.write(config_offset as u64, val as u64, 4);
            if config_offset as u64 == VIRTIO_CONSOLE_CFG_EMERG_WR {
                let _ = self.backend.emergency_write((val % 0x100) as u8);
            }
        }
        Ok(())
    }

    /// Handles a queue notification.
    fn handle_queue_notify<M: GuestMemoryAccess>(&mut self, mem: &mut M, queue_index: u16)
        requires
            old(self).wf(),
        ensures
            final(self).wf(),
            old(self).spec_notified(*final(self), old(mem).mem(), final(mem).mem(), queue_index),
    {
        if queue_index == VIRTIO_CONSOLE_RX_QUEUE {
            self.handle_rx_queue(mem);
        } else if queue_index == VIRTIO_CONSOLE_TX_QUEUE {
            self.handle_tx_queue(mem);
        }
    }

    /// Whether the queue at `qi` can be processed now.
    fn queue_ready_for_processing(&self, qi: usize) -> (b: bool)
        requires
            self.wf(),
            qi < 2,
        ensures
            b == (console_ready_status(self.regs@.status) && self.regs@.queues[qi as int].spec_is_valid()),
    {
        if !self.is_device_ready() {
            return false;
        }
        let q = self.regs.queues[qi];
        q.ready && q.desc_table_addr != 0 && q.avail_ring_addr != 0 && q.used_ring_addr != 0
    }

    /// Serves the receive queue: fills the guest's buffers with host input.
    fn handle_rx_queue<M: GuestMemoryAccess>(&mut self, mem: &mut M)
        requires
            old(self).wf(),
        ensures
            final(self).wf(),
            old(self).spec_notified(*final(self), old(mem).mem(), final(mem).mem(), VIRTIO_CONSOLE_RX_QUEUE),
    {
        if !self.queue_ready_for_processing(VIRTIO_CONSOLE_RX_QUEUE as usize) {
            return;
        }
        let queue_copy = self.regs.queues[VIRTIO_CONSOLE_RX_QUEUE as usize];
        proof {
            assert(old(self).regs@.queues[0].wf());
        }
        self.process_rx_queue_requests(mem, &queue_copy);
    }

    /// Serves the transmit queue: sends the guest's output to the backend.
    fn handle_tx_queue<M: GuestMemoryAccess>(&mut self, mem: &mut M)
        requires
            old(self).wf(),
        ensures
            final(self).wf(),
            old(self).spec_notified(*final(self), old(mem).mem(), final(mem).mem(), VIRTIO_CONSOLE_TX_QUEUE),
    {
        if !self.queue_ready_for_processing(VIRTIO_CONSOLE_TX_QUEUE as usize) {
            return;
        }
        let queue_copy = self.regs.queues[VIRTIO_CONSOLE_TX_QUEUE as usize];
        proof {
            assert(old(self).regs@.queues[1].wf());
        }
        self.process_tx_queue_requests(mem, &queue_copy);
    }

    /// Sends each chain the guest has made available on the transmit queue
    /// to the backend, then returns them all through the used ring.
    fn process_tx_queue_requests<M: GuestMemoryAccess>(&mut self, mem: &mut M, queue: &VirtioQueue)
        requires
            old(self).wf(),
            *queue == old(self).regs@.queues[VIRTIO_CONSOLE_TX_QUEUE as int],
            queue.spec_is_valid(),
        ensures
            old(self).spec_processed(*final(self), VIRTIO_CONSOLE_TX_QUEUE as int),
            match queue.spec_avail_ring()->Some_0.read_avail_idx_spec(old(mem).mem()) {
                Ok(a) => {
                    &&& final(self).regs@.queues[VIRTIO_CONSOLE_TX_QUEUE as int].spec_last_avail_idx() == a
                    &&& old(self).spec_transmitted(*queue, old(mem).mem(), a, final(self).regs@, final(mem).mem())
                },
                Err(_) => *final(self) == *old(self) && final(mem).mem() == old(mem).mem(),
            },
    {
        proof {
            assert(old(self).regs@.wf());
            assert(1 < old(self).regs@.queues.len());
            assert(old(self).regs@.queues[1].wf());
            assert(old(self).regs@.queues[1].size > 0);
        }
        let avail_idx = match queue.read_avail_idx(mem) {
            Ok(idx) => idx,
            Err(_) => return,
        };
        let start = queue.get_last_avail_idx();
        let mut current_avail = start;
        let mut processed: Vec<(u16, u32, u8)> = Vec::new();
        let ghost m0 = mem.mem();
        let ghost mut n: nat = 0;
        proof {
            assert(processed@ =~= Seq::<(u16, u32, u8)>::empty());
        }
        while current_avail != avail_idx
            invariant
                queue.wf(),
                queue.size > 0,
                mem.mem() == old(mem).mem(),
                m0 == old(mem).mem(),
                start == queue.spec_last_avail_idx(),
                current_avail == ((start + n) % 0x1_0000) as u16,
                n + ring_distance(avail_idx, current_avail) == ring_distance(avail_idx, start),
                tx_returns(self.backend, *queue, m0, tx_heads(*queue, m0, n), processed@),
            decreases ring_distance(avail_idx, current_avail),
        {
            let ring_index = current_avail % queue.size;
            let ghost p0 = processed@;
            proof {
                lemma_tx_heads_step(*queue, m0, n);
            }
            match queue.read_avail_entry(mem, ring_index) {
                Ok(desc_index) => {
                    let sent = self.process_tx_descriptor_chain(mem, queue, desc_index);
                    match sent {
                        Ok(bytes_written) => {
                            processed.push((desc_index, (bytes_written as u64 % 0x1_0000_0000) as u32, 0));
                        },
                        Err(_) => processed.push((desc_index, 0, 1)),
                    }
                    proof {
                        assert(tx_chain_sent(self.backend, *queue, m0, desc_index, sent));
                    }
                    proof {
                        assert(queue.spec_avail_entry(m0, current_avail) == Ok::<u16, VirtioError>(desc_index));
                        assert(tx_heads(*queue, m0, n + 1) == tx_heads(*queue, m0, n).push(desc_index));
                        lemma_tx_returns_push(self.backend, *queue, m0, tx_heads(*queue, m0, n), p0, processed@.last());
                        assert(processed@ == p0.push(processed@.last()));
                    }
                },
                Err(e) => {
                    proof {
                        assert(queue.spec_avail_entry(m0, current_avail) == Err::<u16, VirtioError>(e));
                        assert(tx_heads(*queue, m0, n + 1) == tx_heads(*queue, m0, n));
                        assert(tx_returns(self.backend, *queue, m0, tx_heads(*queue, m0, n + 1), processed@));
                    }
                },
            }
            proof {
                lemma_ring_step(avail_idx, start, current_avail, n);
                n = n + 1;
            }
            current_avail = current_avail.wrapping_add(1);
        }
        proof {
            assert(n == ring_distance(avail_idx, start));
        }
        self.complete_requests(mem, VIRTIO_CONSOLE_TX_QUEUE as usize, start, current_avail, &processed);
    }

    /// Fills the guest's receive buffers with the host input the backend has.
    fn process_rx_queue_requests<M: GuestMemoryAccess>(&mut self, mem: &mut M, queue: &VirtioQueue)
        requires
            old(self).wf(),
            *queue == old(self).regs@.queues[VIRTIO_CONSOLE_RX_QUEUE as int],
            queue.spec_is_valid(),
        ensures
            old(self).spec_processed(*final(self), VIRTIO_CONSOLE_RX_QUEUE as int),
            old(self).spec_rx_served(*queue, old(mem).mem(), *final(self), final(mem).mem()),
    {
        proof {
            lemma_progressed_on_refl(old(self).regs@, 0);
        }
        let mut input_buffer = vec![0u8; CONSOLE_RX_BUFFER_SIZE];
        let ghost given = input_buffer@;
        let r = self.backend.read(input_buffer.as_mut_slice());
        proof {
            assert(given =~= Seq::new(CONSOLE_RX_BUFFER_SIZE as nat, |i: int| 0u8));
            assert(old(self).backend.spec_read_result(given, input_buffer@, r));
        }
        let bytes_read = match r {
            Ok(n) => n,
            Err(_) => return,
        };
        if bytes_read == 0 {
            return;
        }
        let input = vstd::slice::slice_subrange(input_buffer.as_slice(), 0, bytes_read);
        proof {
            assert(input@ =~= input_buffer@.take(bytes_read as int));
        }
        self.deliver_rx_input(mem, queue, input);
    }

    /// Places host `input` into the guest's receive buffers: the chains made
    /// available on the receive queue's copy `queue` are filled in turn until
    /// all input is placed, then returned through the used ring
    /// (`spec_received`).
    pub fn deliver_rx_input<M: GuestMemoryAccess>(&mut self, mem: &mut M, queue: &VirtioQueue, input: &[u8])
        requires
            old(self).wf(),
            *queue == old(self).regs@.queues[VIRTIO_CONSOLE_RX_QUEUE as int],
            queue.spec_is_valid(),
        ensures
            old(self).spec_processed(*final(self), VIRTIO_CONSOLE_RX_QUEUE as int),
            old(self).spec_received(*queue, old(mem).mem(), input@, final(self).regs@, final(mem).mem()),
    {
        proof {
            assert(old(self).regs@.queues[0].wf());
            assert(old(self).regs@.queues[0].size > 0);
            lemma_progressed_on_refl(old(self).regs@, 0);
        }
        let bytes_read = input.len();
        let avail_idx = match queue.read_avail_idx(mem) {
            Ok(idx) => idx,
            Err(_) => return,
        };
        let start = queue.get_last_avail_idx();
        let mut current_avail = start;
        let mut data_offset: usize = 0;
        let mut processed: Vec<(u16, u32, u8)> = Vec::new();
        let ghost s0 = RxProgress { mem: mem.mem(), off: 0, processed: Seq::empty() };
        let ghost goal = rx_run(*queue, input@, start, ring_distance(avail_idx, start) as nat, s0);
        proof {
            assert(processed@ =~= Seq::<(u16, u32, u8)>::empty());
        }
        while current_avail != avail_idx && data_offset < bytes_read
            invariant
                queue.wf(),
                queue.size > 0,
                bytes_read == input@.len(),
                data_offset <= bytes_read,
                goal == rx_run(
                    *queue,
                    input@,
                    current_avail,
                    ring_distance(avail_idx, current_avail) as nat,
                    RxProgress { mem: mem.mem(), off: data_offset as int, processed: processed@ },
                ),
            decreases ring_distance(avail_idx, current_avail),
        {
            let ghost cur = RxProgress { mem: mem.mem(), off: data_offset as int, processed: processed@ };
            let ring_index = current_avail % queue.size;
            match queue.read_avail_entry(mem, ring_index) {
                Ok(desc_index) => {
                    let rest = vstd::slice::slice_subrange(input, data_offset, bytes_read);
                    proof {
                        assert(rest@ == input@.subrange(data_offset as int, input@.len() as int));
                        assert(queue.spec_avail_entry(cur.mem, current_avail) == Ok::<u16, VirtioError>(desc_index));
                    }
                    match self.process_rx_descriptor_chain(mem, queue, desc_index, rest) {
                        Ok(consumed) => {
                            proof {
                                let chain = queue.spec_chain(cur.mem, desc_index)->Ok_0;
                                let f = fill_rx(
                                    cur.mem,
                                    crate::queue::descriptor::data_buffers(chain, VirtioDeviceType::Console),
                                    rest@,
                                    0,
                                );
                                lemma_fill_rx_bounds(
                                    cur.mem,
                                    crate::queue::descriptor::data_buffers(chain, VirtioDeviceType::Console),
                                    rest@,
                                    0,
                                );
                                assert(f.2);
                                assert(mem.mem() == f.0);
                                assert(consumed == f.1);
                                assert((consumed as u64 % 0x1_0000_0000) as u32 == consumed as u32) by (bit_vector);
                            }
                            processed.push((desc_index, (consumed as u64 % 0x1_0000_0000) as u32, 0));
                            data_offset = data_offset + consumed;
                            proof {
                                let next = RxProgress { mem: mem.mem(), off: data_offset as int, processed: processed@ };
                                assert(next == rx_step(*queue, input@, current_avail, cur));
                            }
                        },
                        Err(_) => {
                            processed.push((desc_index, 0, 1));
                            proof {
                                let next = RxProgress { mem: mem.mem(), off: data_offset as int, processed: processed@ };
                                assert(next == rx_step(*queue, input@, current_avail, cur));
                            }
                        },
                    }
                },
                Err(e) => {
                    proof {
                        assert(queue.spec_avail_entry(cur.mem, current_avail) == Err::<u16, VirtioError>(e));
                        let next = RxProgress { mem: mem.mem(), off: data_offset as int, processed: processed@ };
                        assert(next == rx_step(*queue, input@, current_avail, cur));
                    }
                },
            }
            proof {
                lemma_ring_advance(avail_idx, current_avail);
            }
            current_avail = current_avail.wrapping_add(1);
        }
        self.complete_requests(mem, VIRTIO_CONSOLE_RX_QUEUE as usize, start, current_avail, &processed);
        proof {
            assert(old(self).spec_received(*queue, s0.mem, input@, self.regs@, mem.mem()));
        }
    }

    /// Records the last available index seen on queue `qi` and returns the
    /// processed chains through its used ring, raising the used-buffer
    /// interrupt where the driver asks for one. Does nothing when no chain
    /// was seen.
    fn complete_requests<M: GuestMemoryAccess>(
        &mut self,
        mem: &mut M,
        qi: usize,
        start: u16,
        current_avail: u16,
        processed: &Vec<(u16, u32, u8)>,
    )
        requires
            old(self).wf(),
            qi < 2,
            old(self).regs@.queues[qi as int].spec_is_valid(),
            start == old(self).regs@.queues[qi as int].spec_last_avail_idx(),
        ensures
            old(self).spec_processed(*final(self), qi as int),
            final(self).regs@.queues[qi as int].spec_last_avail_idx() == current_avail,
            current_avail == start && processed@.len() == 0 ==> *final(self) == *old(self) && final(mem).mem()
                == old(mem).mem(),
            (final(self).regs@, final(mem).mem()) == console_completed(
                old(self).regs@,
                qi as int,
                start,
                current_avail,
                processed@,
                old(mem).mem(),
            ),
    {
        proof {
            lemma_progressed_on_refl(old(self).regs@, qi as int);
            lemma_or_twice32(old(self).regs.interrupt_status, VIRTIO_MMIO_INT_VRING);
        }
        if current_avail == start && processed.len() == 0 {
            return;
        }
        let mut q = self.regs.queues[qi];
        proof {
            assert(old(self).regs@.wf());
            assert(old(self).regs@.queues[qi as int].wf());
            assert(q.size > 0);
        }
        q.update_last_avail_idx(current_avail);
        let ghost q1 = q;
        let ghost m1 = mem.mem();
        let mut notify = false;
        let mut k: usize = 0;
        proof {
            assert(processed@.take(0) =~= Seq::<(u16, u32, u8)>::empty());
        }
        while k < processed.len()
            invariant
                q.wf(),
                queue_progressed(q, old(self).regs@.queues[qi as int]),
                q.spec_last_avail_idx() == current_avail,
                q.spec_avail_ring() is Some,
                k <= processed@.len(),
                (q, mem.mem(), notify) == console_returned(q1, m1, processed@.take(k as int)),
            decreases processed@.len() - k,
        {
            proof {
                assert(processed@.take(k + 1).drop_last() =~= processed@.take(k as int));
            }
            let (desc_index, len, _status) = processed[k];
            if self.add_used_buffer(mem, &mut q, desc_index, len) {
                notify = true;
            }
            k = k + 1;
        }
        proof {
            assert(processed@.take(k as int) =~= processed@);
        }
        let ghost before = self.regs@;
        self.regs.queues.set(qi, q);
        proof {
            lemma_queue_replaced(before, self.regs@, qi as int, q);
        }
        if notify {
            self.regs.raise_interrupt(VIRTIO_MMIO_INT_VRING);
        }
    }

    /// Reads what the transmit chain at `head_index` hands to the backend
    /// (`tx_chain_read`): the bytes of its device-readable buffers up to the
    /// first one that is not mapped, and whether all were. Refuses a chain
    /// that cannot be followed.
    fn read_tx_buffers<M: GuestMemoryAccess>(mem: &M, queue: &VirtioQueue, head_index: u16) -> (r: VirtioResult<
        (Vec<Vec<u8>>, bool),
    >)
        requires
            queue.wf(),
        ensures
            match r {
                Ok((bufs, complete)) => queue.spec_chain(mem.mem(), head_index) is Ok && (
                bufs@.map_values(|b: Vec<u8>| b@),
                complete,
                ) == tx_chain_read(*queue, mem.mem(), head_index),
                Err(e) => queue.spec_chain(mem.mem(), head_index) is Err && e == VirtioError::InvalidQueue,
            },
    {
        let ghost m = mem.mem();
        let buffers = match queue.get_data_buffers(mem, head_index, VirtioDeviceType::Console) {
            Ok(buffers) => buffers,
            Err(_) => return Err(VirtioError::InvalidQueue),
        };
        let mut out: Vec<Vec<u8>> = Vec::new();
        let mut complete = true;
        let mut i: usize = 0;
        proof {
            assert(buffers@.take(0) =~= Seq::<(usize, usize, bool)>::empty());
            assert(out@.map_values(|b: Vec<u8>| b@) =~= Seq::<Seq<u8>>::empty());
        }
        while i < buffers.len()
            invariant
                i <= buffers@.len(),
                m == mem.mem(),
                (out@.map_values(|b: Vec<u8>| b@), complete) == tx_read(m, buffers@.take(i as int)),
            decreases buffers@.len() - i,
        {
            let (addr, size, is_write) = buffers[i];
            let ghost before = out@;
            if complete && !is_write {
                match read_bytes(mem, addr, size) {
                    Ok(b) => {
                        out.push(b);
                    },
                    Err(_) => {
                        complete = false;
                    },
                }
            }
            i = i + 1;
            proof {
                assert(buffers@.take(i as int).drop_last() =~= buffers@.take(i - 1));
                assert(buffers@.take(i as int).last() == buffers@[i - 1]);
                if out@.len() > before.len() {
                    assert(out@ == before.push(out@.last()));
                    assert(out@.map_values(|b: Vec<u8>| b@) =~= before.map_values(|b: Vec<u8>| b@).push(
                        out@.last()@,
                    ));
                }
            }
        }
        proof {
            assert(buffers@.take(buffers@.len() as int) =~= buffers@);
        }
        Ok((out, complete))
    }

    /// Sends the device-readable buffers of a transmit chain to the backend,
    /// one at a time (`read_tx_buffers`), and flushes it; returns how many
    /// bytes the backend took (see `tx_chain_sent`). A chain that cannot be
    /// followed is refused; a write that fails stops the sending; a buffer
    /// that is not mapped ends it with a memory error once the buffers before
    /// it were sent.
    fn process_tx_descriptor_chain<M: GuestMemoryAccess>(&self, mem: &M, queue: &VirtioQueue, head_index: u16) -> (r:
        VirtioResult<usize>)
        requires
            queue.wf(),
        ensures
            tx_chain_sent(self.backend, *queue, mem.mem(), head_index, r),
    {
        let (bufs, complete) = match Self::read_tx_buffers(mem, queue, head_index) {
            Ok(read) => read,
            Err(_) => return Err(VirtioError::InvalidQueue),
        };
        let ghost sent = bufs@.map_values(|b: Vec<u8>| b@);
        let ghost mut rs: Seq<VirtioResult<usize>> = Seq::empty();
        let mut total_bytes_written: usize = 0;
        let mut i: usize = 0;
        while i < bufs.len()
            invariant
                i <= bufs@.len(),
                sent == bufs@.map_values(|b: Vec<u8>| b@),
                (sent, complete) == tx_chain_read(*queue, mem.mem(), head_index),
                queue.spec_chain(mem.mem(), head_index) is Ok,
                rs.len() == i,
                forall|k: int| 0 <= k < rs.len() ==> #[trigger] self.backend.spec_write_result(sent[k], rs[k]),
                forall|k: int| 0 <= k < rs.len() ==> #[trigger] rs[k] is Ok,
                total_bytes_written == tx_written_total(rs),
            decreases bufs@.len() - i,
        {
            let result = self.backend.write(bufs[i].as_slice());
            let ghost rs0 = rs;
            proof {
                rs = rs.push(result);
                assert(rs.drop_last() =~= rs0);
                assert(sent[i as int] == bufs@[i as int]@);
            }
            match result {
                Ok(bytes_written) => {
                    total_bytes_written = total_bytes_written.wrapping_add(bytes_written);
                },
                Err(_) => {
                    proof {
                        assert(tx_writes(self.backend, sent, rs));
                        assert(tx_write_failed(rs));
                        assert(tx_writes(self.backend, tx_chain_read(*queue, mem.mem(), head_index).0, rs));
                    }
                    return Err(VirtioError::BackendError);
                },
            }
            i = i + 1;
        }
        proof {
            assert(tx_writes(self.backend, sent, rs));
            assert(!tx_write_failed(rs));
            assert(tx_writes(self.backend, tx_chain_read(*queue, mem.mem(), head_index).0, rs));
            assert(complete == tx_chain_read(*queue, mem.mem(), head_index).1);
        }
        if !complete {
            return Err(VirtioError::MemoryError);
        }
        if self.backend.flush().is_err() {
            return Err(VirtioError::BackendError);
        }
        Ok(total_bytes_written)
    }

    /// Fills the device-writable buffers of a receive chain with host input
    /// (see `fill_rx`); returns how much input went in.
    fn process_rx_descriptor_chain<M: GuestMemoryAccess>(
        &self,
        mem: &mut M,
        queue: &VirtioQueue,
        head_index: u16,
        input_data: &[u8],
    ) -> (r: VirtioResult<usize>)
        requires
            queue.wf(),
        ensures
            input_data@.len() == 0 ==> r == Ok::<usize, VirtioError>(0) && final(mem).mem() == old(mem).mem(),
            input_data@.len() > 0 ==> match queue.spec_chain(old(mem).mem(), head_index) {
                Err(_) => r == Err::<usize, VirtioError>(VirtioError::InvalidQueue) && final(mem).mem()
                    == old(mem).mem(),
                Ok(chain) => {
                    let f = fill_rx(
                        old(mem).mem(),
                        crate::queue::descriptor::data_buffers(chain, VirtioDeviceType::Console),
                        input_data@,
                        0,
                    );
                    &&& final(mem).mem() == f.0
                    &&& r == (if f.2 {
                        Ok(f.1 as usize)
                    } else {
                        Err(VirtioError::MemoryError)
                    })
                },
            },
            r is Ok ==> r->Ok_0 <= input_data@.len(),
    {
        if input_data.len() == 0 {
            return Ok(0);
        }
        let buffers = match queue.get_data_buffers(mem, head_index, VirtioDeviceType::Console) {
            Ok(buffers) => buffers,
            Err(_) => return Err(VirtioError::InvalidQueue),
        };
        let ghost bufs = buffers@;
        let ghost m0 = mem.mem();
        let mut data_offset: usize = 0;
        let mut i: usize = 0;
        proof {
            assert(bufs.skip(0) =~= bufs);
        }
        while i < buffers.len()
            invariant
                i <= bufs.len(),
                bufs == buffers@,
                m0 == old(mem).mem(),
                input_data@.len() > 0,
                queue.spec_chain(m0, head_index) is Ok,
                bufs == crate::queue::descriptor::data_buffers(
                    queue.spec_chain(m0, head_index)->Ok_0,
                    VirtioDeviceType::Console,
                ),
                data_offset <= input_data@.len(),
                fill_rx(m0, bufs, input_data@, 0) == fill_rx(
                    mem.mem(),
                    bufs.skip(i as int),
                    input_data@,
                    data_offset as int,
                ),
            decreases bufs.len() - i,
        {
            let (addr, size, is_write) = buffers[i];
            let ghost i0 = i as int;
            proof {
                assert(bufs.skip(i as int).drop_first() =~= bufs.skip(i + 1));
                assert(bufs.skip(i as int)[0] == bufs[i as int]);
            }
            i = i + 1;
            if !is_write {
                continue;
            }
            if data_offset >= input_data.len() {
                proof {
                    assert(fill_rx(mem.mem(), bufs.skip(i0), input_data@, data_offset as int) == (
                    mem.mem(), data_offset as int, true));
                }
                return Ok(data_offset);
            }
            let remaining_input = input_data.len() - data_offset;
            let bytes_to_copy = if size < remaining_input {
                size
            } else {
                remaining_input
            };
            if bytes_to_copy == 0 {
                proof {
                    assert(fill_rx(mem.mem(), bufs.skip(i0), input_data@, data_offset as int) == (
                    mem.mem(), data_offset as int, true));
                }
                return Ok(data_offset);
            }
            let ghost m_before = mem.mem();
            let ghost off_before = data_offset as int;
            let data_slice = vstd::slice::slice_subrange(input_data, data_offset, data_offset + bytes_to_copy);
            if write_bytes(mem, addr, data_slice).is_err() {
                proof {
                    assert(fill_rx(m_before, bufs.skip(i0), input_data@, off_before) == (
                    m_before, off_before, false));
                }
                return Err(VirtioError::MemoryError);
            }
            data_offset = data_offset + bytes_to_copy;
            if bytes_to_copy == size && data_offset < input_data.len() {
                continue;
            } else {
                proof {
                    assert(fill_rx(m_before, bufs.skip(i0), input_data@, off_before) == (
                    mem.mem(), data_offset as int, true));
                }
                return Ok(data_offset);
            }
        }
        proof {
            assert(bufs.skip(bufs.len() as int) =~= Seq::<(usize, usize, bool)>::empty());
        }
        Ok(data_offset)
    }

    /// Returns one chain through the used ring of `queue`; tells whether the
    /// driver asks to be interrupted for it.
    fn add_used_buffer<M: GuestMemoryAccess>(&self, mem: &mut M, queue: &mut VirtioQueue, desc_index: u16, len: u32) -> (notify:
        bool)
        requires
            old(queue).wf(),
        ensures
            final(queue).wf(),
            queue_progressed(*final(queue), *old(queue)),
            final(queue).spec_avail_ring() == old(queue).spec_avail_ring(),
            final(queue).spec_next_avail() == old(queue).spec_next_avail(),
            (*final(queue), final(mem).mem(), notify) == console_return_one(*old(queue), old(mem).mem(), desc_index, len),
    {
        if queue.add_used(mem, desc_index, len).is_err() {
            return false;
        }
        match queue.should_notify(mem) {
            Ok(b) => b,
            Err(_) => false,
        }
    }

    /// Whether the driver has acknowledged the device, loaded a driver and
    /// set DRIVER_OK.
    fn is_device_ready(&self) -> (b: bool)
        ensures
            b == console_ready_status(self.regs@.status),
    {
        let ready = VIRTIO_STATUS_ACKNOWLEDGE | VIRTIO_STATUS_DRIVER | VIRTIO_STATUS_DRIVER_OK;
        (self.regs.status & ready) == ready
    }

    /// Resets the device (see `RegistersView::reset`) and its backend.
    fn reset_device(&mut self)
        requires
            old(self).wf(),
        ensures
            final(self).wf(),
            final(self).regs@ == old(self).regs@.reset(),
            final(self).console_config == old(self).console_config,
            final(self).config == old(self).config,
            final(self).base_ipa == old(self).base_ipa,
            final(self).length == old(self).length,
            final(self).backend == old(self).backend,
    {
        self.regs.reset();
        let _ = self.backend.reset();
    }
}

impl VirtioConsoleDevice<SocketConsoleBackend> {
    /// Creates the console device of window `device_index` over the default
    /// backend of that index. The window of the index decides where the
    /// device sits; `base_ipa` is not used.
    pub fn new(base_ipa: usize, device_index: usize, length: usize) -> (r: VirtioResult<Self>)
        requires
            VirtioConfig::spec_new(device_index, VIRTIO_DEVICE_ID_CONSOLE, VIRTIO_F_VERSION_1, 2).addressable(),
        ensures
            r is Ok,
            r->Ok_0.wf(),
            r->Ok_0.config == VirtioConfig::spec_new(device_index, VIRTIO_DEVICE_ID_CONSOLE, VIRTIO_F_VERSION_1, 2),
            r->Ok_0.base_ipa == r->Ok_0.config.spec_device_mmio_addr(),
            r->Ok_0.length == length,
            r->Ok_0.regs@.status == 0,
    {
        let backend = create_default_backend(device_index)?;
        Self::with_backend(base_ipa, device_index, length, backend)
    }
}

} // verus!
