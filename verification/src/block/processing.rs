//! What processing a block queue does, as values: the request a chain
//! describes, how one chain is carried out and returned to the guest, and
//! how the device works through the available ring, one slot after another.

use crate::block::backend::BlockBackend;
use crate::block::constants::{MIN_DESCRIPTOR_CHAIN_LENGTH, VIRTIO_BLK_REQ_SECTOR_OFFSET};
use crate::block::request::{block_completed, buffers_len, request_type_of};
use crate::constants::VIRTIO_MMIO_INT_VRING;
use crate::device_type::VirtioDeviceType;
use crate::error::{VirtioError, VirtioResult};
use crate::memory::{mem_u32, mem_u64, range_mapped};
use crate::queue::VirtioQueue;
use crate::queue::available::AvailableRing;
use crate::queue::descriptor::data_buffers;
use crate::regs::RegistersView;
use vstd::prelude::*;

verus! {

/// The request a block chain describes, as values: type, start sector,
/// data buffers and status byte address.
pub open spec fn spec_parse_request(q: VirtioQueue, m: Map<int, u8>, head: u16) -> VirtioResult<
    (u32, u64, Seq<(usize, usize, bool)>, usize),
> {
    match q.spec_chain(m, head) {
        Err(_) => Err(VirtioError::InvalidQueue),
        Ok(chain) => if chain.len() < MIN_DESCRIPTOR_CHAIN_LENGTH {
            Err(VirtioError::InvalidQueue)
        } else {
            let h = chain[0].addr as usize;
            if !range_mapped(m, h as int, 4) || h + VIRTIO_BLK_REQ_SECTOR_OFFSET > usize::MAX
                || !range_mapped(m, h + VIRTIO_BLK_REQ_SECTOR_OFFSET, 8) {
                Err(VirtioError::InvalidQueue)
            } else if !chain.last().spec_is_write() {
                Err(VirtioError::InvalidQueue)
            } else {
                Ok(
                    (
                        mem_u32(m, h as int),
                        mem_u64(m, h + VIRTIO_BLK_REQ_SECTOR_OFFSET),
                        data_buffers(chain, VirtioDeviceType::Block),
                        chain.last().addr as usize,
                    ),
                )
            }
        },
    }
}

/// Where the processing of a queue stands: the register file, the backend,
/// guest memory, and the heads of the chains that could not be carried out.
pub struct BlockProgress<B> {
    pub regs: RegistersView,
    pub backend: B,
    pub mem: Map<int, u8>,
    pub failed: Seq<u16>,
}

/// The register file and guest memory after a chain was returned to the
/// guest with `len` bytes and `status`: the status byte is stored in the
/// chain's last buffer, then the chain goes onto the used ring of the live
/// queue, and the used-buffer interrupt is raised when the driver asked for
/// one. Where memory does not back the status byte nothing is returned;
/// where the used ring cannot take the chain no interrupt is raised.
pub open spec fn spec_return_chain(
    r: RegistersView,
    queue: VirtioQueue,
    head: u16,
    len: u32,
    status: u8,
    m: Map<int, u8>,
) -> (RegistersView, Map<int, u8>) {
    let qi = queue.index as int;
    match queue.spec_status_addr(m, head) {
        Err(_) => (r, m),
        Ok(a) => if !m.dom().contains(a as int) {
            (r, m)
        } else {
            let m1 = m.insert(a as int, status);
            let (q1, m2, added) = r.queues[qi].spec_add_used(m1, head, len);
            if !added {
                (RegistersView { queues: r.queues.update(qi, q1), ..r }, m2)
            } else {
                let (q2, notify) = q1.spec_notify(m2);
                let r2 = RegistersView { queues: r.queues.update(qi, q2), ..r };
                if notify == Ok::<bool, VirtioError>(true) {
                    (RegistersView { interrupt_status: r2.interrupt_status | VIRTIO_MMIO_INT_VRING, ..r2 }, m2)
                } else {
                    (r2, m2)
                }
            }
        },
    }
}

/// Whether the chain at `head` cannot be carried out: it does not parse as
/// a request, or its buffers are too long in all for a `usize`.
pub open spec fn spec_chain_fails(queue: VirtioQueue, m: Map<int, u8>, head: u16) -> bool {
    match spec_parse_request(queue, m, head) {
        Err(_) => true,
        Ok((_, _, bufs, _)) => buffers_len(bufs) > usize::MAX,
    }
}

/// Whether carrying out the chain at `head`, from register file `r0`,
/// backend `b0` and memory `m0`, may end in `r1`, `b1` and `m1`: the request
/// is carried out with some status (`block_completed`), and the chain is
/// returned to the guest with that status and the total length of its
/// buffers (`spec_return_chain`).
pub open spec fn spec_chain_done<B: BlockBackend>(
    queue: VirtioQueue,
    head: u16,
    r0: RegistersView,
    b0: B,
    m0: Map<int, u8>,
    r1: RegistersView,
    b1: B,
    m1: Map<int, u8>,
) -> bool {
    match spec_parse_request(queue, m0, head) {
        Err(_) => false,
        Ok((t, sector, bufs, status_addr)) => exists|status: u8, m: Map<int, u8>|
            #[trigger] block_completed(request_type_of(t), sector, bufs, status_addr, b0, b1, m0, m, status)
                && (r1, m1) == spec_return_chain(r0, queue, head, buffers_len(bufs) as u32, status, m),
    }
}

/// Whether processing the available ring slot of `avail_index` may take
/// `s0` to `s1`: a slot that cannot be read changes nothing; a chain that
/// cannot be carried out is set aside; any other chain is carried out.
#[verifier::opaque]
pub open spec fn spec_slot_processed<B: BlockBackend>(
    queue: VirtioQueue,
    avail_index: u16,
    s0: BlockProgress<B>,
    s1: BlockProgress<B>,
) -> bool {
    match queue.spec_avail_entry(s0.mem, avail_index) {
        Err(_) => s1 == s0,
        Ok(head) => if spec_chain_fails(queue, s0.mem, head) {
            s1 == BlockProgress { failed: s0.failed.push(head), ..s0 }
        } else {
            &&& s1.failed == s0.failed
            &&& spec_chain_done(queue, head, s0.regs, s0.backend, s0.mem, s1.regs, s1.backend, s1.mem)
        },
    }
}

/// Whether state `i + 1` of `states` is state `i` after the `i`-th slot.
pub open spec fn spec_run_step<B: BlockBackend>(queue: VirtioQueue, states: Seq<BlockProgress<B>>, i: int) -> bool {
    spec_slot_processed(queue, queue.spec_slot_avail_index(i), states[i], states[i + 1])
}

/// Whether `states` follows the slots one after the other: each state is
/// the one before it after the next slot.
pub open spec fn spec_slot_run<B: BlockBackend>(queue: VirtioQueue, states: Seq<BlockProgress<B>>) -> bool {
    forall|i: int| 0 <= i < states.len() - 1 ==> #[trigger] spec_run_step(queue, states, i)
}

/// Whether processing the first `n` slots from the queue's last available
/// index on, one after the other, may take `s0` to `s1`.
#[verifier::opaque]
pub open spec fn spec_slots_processed<B: BlockBackend>(
    queue: VirtioQueue,
    s0: BlockProgress<B>,
    n: nat,
    s1: BlockProgress<B>,
) -> bool {
    exists|states: Seq<BlockProgress<B>>|
        #[trigger] spec_slot_run(queue, states) && states.len() == n + 1 && states[0] == s0 && states[n as int]
            == s1
}

/// A slot whose chain was carried out, or set aside, is processed.
pub(crate) proof fn lemma_slot_of_chain<B: BlockBackend>(
    queue: VirtioQueue,
    avail_index: u16,
    head: u16,
    s0: BlockProgress<B>,
    s1: BlockProgress<B>,
)
    requires
        queue.spec_avail_entry(s0.mem, avail_index) == Ok::<u16, VirtioError>(head),
        spec_chain_fails(queue, s0.mem, head) ==> s1 == (BlockProgress { failed: s0.failed.push(head), ..s0 }),
        !spec_chain_fails(queue, s0.mem, head) ==> s1.failed == s0.failed && spec_chain_done(
            queue,
            head,
            s0.regs,
            s0.backend,
            s0.mem,
            s1.regs,
            s1.backend,
            s1.mem,
        ),
    ensures
        spec_slot_processed(queue, avail_index, s0, s1),
{
    reveal(spec_slot_processed);
}

/// No slot processed changes nothing.
pub(crate) proof fn lemma_slots_none<B: BlockBackend>(queue: VirtioQueue, s0: BlockProgress<B>)
    ensures
        spec_slots_processed(queue, s0, 0, s0),
{
    reveal(spec_slots_processed);
    let states = seq![s0];
    assert(spec_slot_run(queue, states));
}

/// Processing one more slot extends a run of processed slots.
pub(crate) proof fn lemma_slots_extend<B: BlockBackend>(
    queue: VirtioQueue,
    s0: BlockProgress<B>,
    n: nat,
    mid: BlockProgress<B>,
    s1: BlockProgress<B>,
)
    requires
        spec_slots_processed(queue, s0, n, mid),
        spec_slot_processed(queue, queue.spec_slot_avail_index(n as int), mid, s1),
    ensures
        spec_slots_processed(queue, s0, n + 1, s1),
{
    reveal(spec_slots_processed);
    let states = choose|states: Seq<BlockProgress<B>>|
        #[trigger] spec_slot_run(queue, states) && states.len() == n + 1 && states[0] == s0 && states[n as int]
            == mid;
    let longer = states.push(s1);
    assert forall|i: int| 0 <= i < longer.len() - 1 implies #[trigger] spec_run_step(queue, longer, i) by {
        if i < n {
            assert(spec_run_step(queue, states, i));
            assert(longer[i] == states[i] && longer[i + 1] == states[i + 1]);
        } else {
            assert(longer[i] == mid && longer[i + 1] == s1);
        }
    }
    assert(spec_slot_run(queue, longer));
    assert(longer[0] == s0 && longer[(n + 1) as int] == s1);
}

/// The queue and guest memory after each chain of `failed` was returned to
/// the guest with no bytes, in order.
pub open spec fn spec_failed_returned(q: VirtioQueue, m: Map<int, u8>, failed: Seq<u16>) -> (
    VirtioQueue,
    Map<int, u8>,
)
    decreases failed.len(),
{
    if failed.len() == 0 {
        (q, m)
    } else {
        let (q1, m1) = spec_failed_returned(q, m, failed.drop_last());
        let (q2, m2, _) = q1.spec_add_used(m1, failed.last(), 0);
        (q2, m2)
    }
}

/// The register file and guest memory once the slots up to the available
/// index `avail` were processed into `s`: the live queue records `avail` as
/// seen and returns the chains set aside, with no bytes.
pub open spec fn spec_queue_finished<B>(queue: VirtioQueue, s: BlockProgress<B>, avail: u16) -> (
    RegistersView,
    Map<int, u8>,
) {
    let qi = queue.index as int;
    if avail == queue.spec_last_avail_idx() && s.failed.len() == 0 {
        (s.regs, s.mem)
    } else {
        let q = s.regs.queues[qi];
        let q1 = VirtioQueue {
            avail_ring: Some(AvailableRing { last_avail_idx: avail, ..q.spec_avail_ring()->Some_0 }),
            ..q
        };
        let (q2, m2) = spec_failed_returned(q1, s.mem, s.failed);
        (RegistersView { queues: s.regs.queues.update(qi, q2), ..s.regs }, m2)
    }
}

} // verus!
