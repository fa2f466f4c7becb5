//! Block requests: their types, the guest buffers they carry, and how they
//! are carried out against a backend and guest memory.

use crate::block::backend::{BlockBackend, lemma_write_then_read, splice};
use crate::block::constants::{
    VIRTIO_BLK_S_IOERR, VIRTIO_BLK_S_OK, VIRTIO_BLK_T_FLUSH, VIRTIO_BLK_T_IN, VIRTIO_BLK_T_OUT,
};
use crate::error::VirtioResult;
use crate::memory::{GuestMemoryAccess, bytes_at, range_mapped, read_bytes, store_bytes, write_bytes};
use vstd::prelude::*;

verus! {

/// Block request types.
#[derive(Debug, Clone, Copy, PartialEq, Eq, Structural)]
pub enum BlockRequestType {
    /// Read request
    Read,
    /// Write request
    Write,
    /// Flush request
    Flush,
}

/// The request type a type code names; an unknown code is taken for a read.
pub open spec fn request_type_of(value: u32) -> BlockRequestType {
    if value == VIRTIO_BLK_T_OUT {
        BlockRequestType::Write
    } else if value == VIRTIO_BLK_T_FLUSH {
        BlockRequestType::Flush
    } else {
        BlockRequestType::Read
    }
}

/// The type code of a request type.
pub open spec fn request_code_of(t: BlockRequestType) -> u32 {
    match t {
        BlockRequestType::Read => VIRTIO_BLK_T_IN,
        BlockRequestType::Write => VIRTIO_BLK_T_OUT,
        BlockRequestType::Flush => VIRTIO_BLK_T_FLUSH,
    }
}

impl From<u32> for BlockRequestType {
    fn from(value: u32) -> (t: Self) {
        match value {
            VIRTIO_BLK_T_IN => BlockRequestType::Read,
            VIRTIO_BLK_T_OUT => BlockRequestType::Write,
            VIRTIO_BLK_T_FLUSH => BlockRequestType::Flush,
            _ => BlockRequestType::Read,
        }
    }
}

impl vstd::std_specs::convert::FromSpecImpl<u32> for BlockRequestType {
    open spec fn obeys_from_spec() -> bool {
        true
    }

    open spec fn from_spec(v: u32) -> Self {
        request_type_of(v)
    }
}

impl From<BlockRequestType> for u32 {
    fn from(request_type: BlockRequestType) -> (v: Self) {
        match request_type {
            BlockRequestType::Read => VIRTIO_BLK_T_IN,
            BlockRequestType::Write => VIRTIO_BLK_T_OUT,
            BlockRequestType::Flush => VIRTIO_BLK_T_FLUSH,
        }
    }
}

impl vstd::std_specs::convert::FromSpecImpl<BlockRequestType> for u32 {
    open spec fn obeys_from_spec() -> bool {
        true
    }

    open spec fn from_spec(t: BlockRequestType) -> Self {
        request_code_of(t)
    }
}

/// Converting a request type to its code and back gives it again.
pub proof fn lemma_request_type_round_trip(t: BlockRequestType)
    ensures
        request_type_of(request_code_of(t)) == t,
{
}

/// Data source for block requests.
#[derive(Debug)]
pub enum DataSource {
    /// Guest memory buffers (for the VirtIO protocol)
    GuestMemory {
        /// The data buffers as (guest address, length, device writable)
        buffers: Vec<(usize, usize, bool)>,
        /// The guest address of the status byte
        status_addr: usize,
    },
}

/// The total length of a list of buffers.
pub open spec fn buffers_len(bufs: Seq<(usize, usize, bool)>) -> int
    decreases bufs.len(),
{
    if bufs.len() == 0 {
        0
    } else {
        buffers_len(bufs.drop_last()) + bufs.last().1
    }
}

/// Guest memory after the bytes of `data` from `off` on were copied into the
/// device-writable buffers of `bufs`, one after the other (buffers the
/// device may not write are passed over), and whether all of them were
/// filled: the copy stops at a buffer that would run past the data or that
/// guest memory does not back.
pub open spec fn scatter(m: Map<int, u8>, bufs: Seq<(usize, usize, bool)>, data: Seq<u8>, off: int) -> (
    Map<int, u8>,
    bool,
)
    decreases bufs.len(),
{
    if bufs.len() == 0 {
        (m, true)
    } else {
        let (a, l, w) = bufs[0];
        if !w {
            scatter(m, bufs.drop_first(), data, off)
        } else if off + l > data.len() || !range_mapped(m, a as int, l as int) {
            (m, false)
        } else {
            scatter(store_bytes(m, a as int, data.subrange(off, off + l)), bufs.drop_first(), data, off + l)
        }
    }
}

/// The bytes of the buffers of `bufs` that the device may read, one after
/// the other, into a buffer of `total` bytes from `off` on; `None` where a
/// buffer would run past `total` or guest memory does not back it.
pub open spec fn gather(m: Map<int, u8>, bufs: Seq<(usize, usize, bool)>, off: int, total: int) -> Option<
    Seq<u8>,
>
    decreases bufs.len(),
{
    if bufs.len() == 0 {
        Some(Seq::empty())
    } else {
        let (a, l, w) = bufs[0];
        if w {
            gather(m, bufs.drop_first(), off, total)
        } else if off + l > total || !range_mapped(m, a as int, l as int) {
            None
        } else {
            match gather(m, bufs.drop_first(), off + l, total) {
                Some(rest) => Some(bytes_at(m, a as int, l as nat) + rest),
                None => None,
            }
        }
    }
}

/// Guest memory after the status byte was stored at `addr`, where memory backs it.
pub open spec fn store_status(m: Map<int, u8>, addr: usize, status: u8) -> Map<int, u8> {
    if m.dom().contains(addr as int) {
        m.insert(addr as int, status)
    } else {
        m
    }
}

/// What carrying out a request of type `t` at `sector` over the buffers
/// `bufs` may do: from backend `b0` and guest memory `m0` to backend `b1`,
/// memory `m1` and `status`, where `post` is what happens to memory once the
/// data has moved (the status byte).
/// - A read asks the backend for the request's size in bytes from the
///   sector on; where it fails, IOERR and memory as it was; where it
///   succeeds, the disk's bytes are copied into the device-writable buffers
///   (`scatter`), OK unless a buffer is not backed or runs past the data.
/// - A write gathers the readable buffers (IOERR, disk unchanged, where one
///   is not backed or runs past the size), pads them with zeros to the size
///   and hands them to the backend: OK with the bytes stored where it
///   succeeds, IOERR with the disk unchanged where it fails.
/// - A flush asks the backend to flush: OK where it succeeds, IOERR where it
///   fails.
/// Each backend call ends as the backend's relation allows.
pub open spec fn block_outcome<B: BlockBackend>(
    t: BlockRequestType,
    sector: u64,
    bufs: Seq<(usize, usize, bool)>,
    b0: B,
    b1: B,
    m0: Map<int, u8>,
    m1: Map<int, u8>,
    status: u8,
    post: spec_fn(Map<int, u8>) -> Map<int, u8>,
) -> bool {
    let total = buffers_len(bufs);
    match t {
        BlockRequestType::Read => {
            &&& b1 == b0
            &&& exists|r: VirtioResult<usize>|
                #[trigger] b0.spec_read_result(sector, total as nat, r) && read_ended(
                    b0,
                    sector,
                    bufs,
                    m0,
                    m1,
                    status,
                    post,
                    r,
                )
        },
        BlockRequestType::Write => {
            &&& m1 == post(m0)
            &&& match gather(m0, bufs, 0, total) {
                None => status == VIRTIO_BLK_S_IOERR && b1.contents() == b0.contents(),
                Some(g) => exists|r: VirtioResult<usize>|
                    #[trigger] b0.spec_write_result(sector, zero_padded(g, total), r) && write_ended(
                        b0,
                        b1,
                        sector,
                        zero_padded(g, total),
                        status,
                        r,
                    ),
            }
        },
        BlockRequestType::Flush => {
            &&& b1 == b0
            &&& m1 == post(m0)
            &&& exists|r: VirtioResult<()>| #[trigger] b0.spec_flush_result(r) && status == flush_status(r)
        },
    }
}

/// A read of the buffers `bufs` at `sector` whose backend call ended in
/// `r`: IOERR and memory as it was where the call failed; otherwise the
/// disk's bytes are copied into the device-writable buffers (`scatter`).
pub open spec fn read_ended<B: BlockBackend>(
    b: B,
    sector: u64,
    bufs: Seq<(usize, usize, bool)>,
    m0: Map<int, u8>,
    m1: Map<int, u8>,
    status: u8,
    post: spec_fn(Map<int, u8>) -> Map<int, u8>,
    r: VirtioResult<usize>,
) -> bool {
    let total = buffers_len(bufs);
    let at = sector * 512;
    match r {
        Err(_) => status == VIRTIO_BLK_S_IOERR && m1 == post(m0),
        Ok(_) => {
            let data = b.contents().subrange(at, at + total);
            &&& at + total <= b.contents().len()
            &&& m1 == post(scatter(m0, bufs, data, 0).0)
            &&& status == read_status(scatter(m0, bufs, data, 0).1)
        },
    }
}

/// A write of `data` at `sector` whose backend call ended in `r`: IOERR
/// with the disk unchanged where it failed, OK with the data stored where it
/// succeeded.
pub open spec fn write_ended<B: BlockBackend>(
    b0: B,
    b1: B,
    sector: u64,
    data: Seq<u8>,
    status: u8,
    r: VirtioResult<usize>,
) -> bool {
    match r {
        Err(_) => status == VIRTIO_BLK_S_IOERR && b1.contents() == b0.contents(),
        Ok(_) => status == VIRTIO_BLK_S_OK && sector * 512 + data.len() <= b0.contents().len()
            && b1.contents() == splice(b0.contents(), sector * 512, data),
    }
}

/// The status of a flush that ended in `r`.
pub open spec fn flush_status(r: VirtioResult<()>) -> u8 {
    if r is Ok {
        VIRTIO_BLK_S_OK
    } else {
        VIRTIO_BLK_S_IOERR
    }
}

/// `g` padded with zeros to `total` bytes.
pub open spec fn zero_padded(g: Seq<u8>, total: int) -> Seq<u8> {
    g + Seq::new((total - g.len()) as nat, |i: int| 0u8)
}

/// The status of a read whose data was copied out: OK where every
/// device-writable buffer was filled, IOERR otherwise.
pub open spec fn read_status(filled: bool) -> u8 {
    if filled {
        VIRTIO_BLK_S_OK
    } else {
        VIRTIO_BLK_S_IOERR
    }
}

/// `block_outcome` with the status byte at `status_addr` stored last, where
/// guest memory backs it: what carrying a request out, completion included, may do.
pub open spec fn block_completed<B: BlockBackend>(
    t: BlockRequestType,
    sector: u64,
    bufs: Seq<(usize, usize, bool)>,
    status_addr: usize,
    b0: B,
    b1: B,
    m0: Map<int, u8>,
    m1: Map<int, u8>,
    status: u8,
) -> bool {
    block_outcome(t, sector, bufs, b0, b1, m0, m1, status, |m: Map<int, u8>| store_status(m, status_addr, status))
}

/// The bytes gathered from a request's readable buffers fit within its size.
proof fn lemma_gather_len(m: Map<int, u8>, bufs: Seq<(usize, usize, bool)>, off: int, total: int)
    requires
        0 <= off <= total,
        gather(m, bufs, off, total) is Some,
    ensures
        off + gather(m, bufs, off, total)->Some_0.len() <= total,
    decreases bufs.len(),
{
    if bufs.len() > 0 {
        let (a, l, w) = bufs[0];
        if w {
            lemma_gather_len(m, bufs.drop_first(), off, total);
        } else {
            lemma_gather_len(m, bufs.drop_first(), off + l, total);
        }
    }
}

/// The total length of a buffer list is not negative.
proof fn lemma_buffers_len_nonneg(bufs: Seq<(usize, usize, bool)>)
    ensures
        buffers_len(bufs) >= 0,
    decreases bufs.len(),
{
    if bufs.len() > 0 {
        lemma_buffers_len_nonneg(bufs.drop_last());
    }
}

/// What the guest writes to the disk it reads back: a write request that
/// completed with OK, followed by a read request of the same sectors and
/// size that completed with OK, fills the read's buffers with the bytes the
/// write gathered from its buffers, padded with zeros to the request's size.
pub proof fn lemma_request_write_then_read<B: BlockBackend>(
    sector: u64,
    write_bufs: Seq<(usize, usize, bool)>,
    read_bufs: Seq<(usize, usize, bool)>,
    b0: B,
    b1: B,
    b2: B,
    m0: Map<int, u8>,
    m1: Map<int, u8>,
    m2: Map<int, u8>,
    m3: Map<int, u8>,
    post_write: spec_fn(Map<int, u8>) -> Map<int, u8>,
    post_read: spec_fn(Map<int, u8>) -> Map<int, u8>,
)
    requires
        block_outcome(BlockRequestType::Write, sector, write_bufs, b0, b1, m0, m1, VIRTIO_BLK_S_OK, post_write),
        block_outcome(BlockRequestType::Read, sector, read_bufs, b1, b2, m2, m3, VIRTIO_BLK_S_OK, post_read),
        buffers_len(read_bufs) == buffers_len(write_bufs),
    ensures
        gather(m0, write_bufs, 0, buffers_len(write_bufs)) is Some,
        ({
            let total = buffers_len(write_bufs);
            let g = gather(m0, write_bufs, 0, total)->Some_0;
            let data = g + Seq::new((total - g.len()) as nat, |i: int| 0u8);
            &&& b2 == b1
            &&& m3 == post_read(scatter(m2, read_bufs, data, 0).0)
            &&& scatter(m2, read_bufs, data, 0).1
        }),
{
    let total = buffers_len(write_bufs);
    let at = sector * 512;
    lemma_buffers_len_nonneg(write_bufs);
    let g = gather(m0, write_bufs, 0, total)->Some_0;
    lemma_gather_len(m0, write_bufs, 0, total);
    let data = g + Seq::new((total - g.len()) as nat, |i: int| 0u8);
    assert(data.len() == total);
    lemma_write_then_read(b0.contents(), at, data);
    assert(b1.contents().subrange(at, at + total) == data);
}

/// The total length of the buffers of `bufs` that the device may read.
pub open spec fn readable_len(bufs: Seq<(usize, usize, bool)>) -> int
    decreases bufs.len(),
{
    if bufs.len() == 0 {
        0
    } else {
        (if !bufs[0].2 {
            bufs[0].1 as int
        } else {
            0
        }) + readable_len(bufs.drop_first())
    }
}

/// The readable buffers are gathered in chain order: the bytes of readable
/// buffer `i` stand in the gathered data right after those of the readable
/// buffers before it.
pub proof fn lemma_gather_in_chain_order(m: Map<int, u8>, bufs: Seq<(usize, usize, bool)>, off: int, total: int, i: int)
    requires
        0 <= i < bufs.len(),
        !bufs[i].2,
        gather(m, bufs, off, total) is Some,
    ensures
        ({
            let g = gather(m, bufs, off, total)->Some_0;
            let p = readable_len(bufs.take(i));
            &&& 0 <= p
            &&& p + bufs[i].1 <= g.len()
            &&& g.subrange(p, p + bufs[i].1) == bytes_at(m, bufs[i].0 as int, bufs[i].1 as nat)
        }),
    decreases bufs.len(),
{
    let (a, l, w) = bufs[0];
    let rest = bufs.drop_first();
    let g = gather(m, bufs, off, total)->Some_0;
    if i == 0 {
        assert(bufs.take(0) =~= Seq::<(usize, usize, bool)>::empty());
        let gr = gather(m, rest, off + l, total)->Some_0;
        assert(g == bytes_at(m, a as int, l as nat) + gr);
        assert(g.subrange(0, l as int) =~= bytes_at(m, a as int, l as nat));
    } else {
        assert(bufs.take(i).drop_first() =~= rest.take(i - 1));
        assert(bufs.take(i)[0] == bufs[0]);
        assert(rest[i - 1] == bufs[i]);
        lemma_readable_len_nonneg(rest.take(i - 1));
        if w {
            lemma_gather_in_chain_order(m, rest, off, total, i - 1);
            assert(g == gather(m, rest, off, total)->Some_0);
        } else {
            lemma_gather_in_chain_order(m, rest, off + l, total, i - 1);
            let gr = gather(m, rest, off + l, total)->Some_0;
            assert(g == bytes_at(m, a as int, l as nat) + gr);
            let q = readable_len(rest.take(i - 1));
            assert(g.subrange(l + q, l + q + bufs[i].1) =~= gr.subrange(q, q + bufs[i].1));
        }
    }
}

/// The readable length of a buffer list is not negative.
proof fn lemma_readable_len_nonneg(bufs: Seq<(usize, usize, bool)>)
    ensures
        readable_len(bufs) >= 0,
    decreases bufs.len(),
{
    if bufs.len() > 0 {
        lemma_readable_len_nonneg(bufs.drop_first());
    }
}

/// A write carries the guest's buffers to the disk in chain order: after a
/// write request that completed with OK, the bytes of each buffer the device
/// may read stand on the disk from the request's sector on, past those of
/// the readable buffers before it.
pub proof fn lemma_write_in_chain_order<B: BlockBackend>(
    sector: u64,
    bufs: Seq<(usize, usize, bool)>,
    i: int,
    b0: B,
    b1: B,
    m0: Map<int, u8>,
    m1: Map<int, u8>,
    post: spec_fn(Map<int, u8>) -> Map<int, u8>,
)
    requires
        block_outcome(BlockRequestType::Write, sector, bufs, b0, b1, m0, m1, VIRTIO_BLK_S_OK, post),
        0 <= i < bufs.len(),
        !bufs[i].2,
    ensures
        ({
            let at = sector * 512 + readable_len(bufs.take(i));
            b1.contents().subrange(at, at + bufs[i].1) == bytes_at(m0, bufs[i].0 as int, bufs[i].1 as nat)
        }),
{
    let total = buffers_len(bufs);
    let g = gather(m0, bufs, 0, total)->Some_0;
    lemma_buffers_len_nonneg(bufs);
    lemma_gather_len(m0, bufs, 0, total);
    lemma_gather_in_chain_order(m0, bufs, 0, total, i);
    let data = zero_padded(g, total);
    let r = choose|r: VirtioResult<usize>|
        #[trigger] b0.spec_write_result(sector, data, r) && write_ended(b0, b1, sector, data, VIRTIO_BLK_S_OK, r);
    assert(r is Ok);
    let p = readable_len(bufs.take(i));
    let at = sector * 512;
    assert(data.subrange(p, p + bufs[i].1) =~= g.subrange(p, p + bufs[i].1));
    assert(b1.contents().subrange(at + p, at + p + bufs[i].1) =~= data.subrange(p, p + bufs[i].1));
}

/// Unified block request structure.
#[derive(Debug)]
pub struct BlockRequest {
    /// Request type
    pub request_type: BlockRequestType,
    /// Starting sector
    pub sector: u64,
    /// Data source (guest memory)
    pub data_source: DataSource,
}

/// Block request processing result.
#[derive(Debug, Clone, Copy, PartialEq, Eq, Structural)]
pub struct BlockRequestResult {
    /// Request status
    pub status: u8,
}

impl BlockRequest {
    /// The request's data buffers.
    pub open spec fn buffers(&self) -> Seq<(usize, usize, bool)> {
        match &self.data_source {
            DataSource::GuestMemory { buffers, .. } => buffers@,
        }
    }

    /// The guest address of the request's status byte.
    pub open spec fn status_addr(&self) -> usize {
        match &self.data_source {
            DataSource::GuestMemory { status_addr, .. } => *status_addr,
        }
    }

    /// Creates a request over guest memory buffers.
    pub fn new_virtio(
        request_type: BlockRequestType,
        sector: u64,
        buffers: Vec<(usize, usize, bool)>,
        status_addr: usize,
    ) -> (r: Self)
        ensures
            r.request_type == request_type,
            r.sector == sector,
            r.buffers() == buffers@,
            r.status_addr() == status_addr,
    {
        Self { request_type, sector, data_source: DataSource::GuestMemory { buffers, status_addr } }
    }

    /// The size of the request in bytes: the total length of its buffers.
    pub fn size(&self) -> (n: usize)
        requires
            buffers_len(self.buffers()) <= usize::MAX,
        ensures
            n == buffers_len(self.buffers()),
    {
        match &self.data_source {
            DataSource::GuestMemory { buffers, .. } => {
                let mut total: usize = 0;
                let mut i: usize = 0;
                while i < buffers.len()
                    invariant
                        i <= buffers@.len(),
                        buffers_len(buffers@) <= usize::MAX,
                        total == buffers_len(buffers@.take(i as int)),
                    decreases buffers@.len() - i,
                {
                    proof {
                        assert(buffers@.take(i + 1).drop_last() =~= buffers@.take(i as int));
                        lemma_buffers_len_prefix(buffers@, i + 1);
                    }
                    total = total + buffers[i].1;
                    i = i + 1;
                }
                proof {
                    assert(buffers@.take(i as int) =~= buffers@);
                }
                total
            },
        }
    }

    /// Carries the request out: a read copies `size()` bytes from the
    /// backend at `sector` into the device-writable buffers, a write gathers
    /// the readable buffers (padded with zeros to `size()` bytes) and writes
    /// them to the backend, a flush flushes it. The status (OK, or IOERR when
    /// the backend or guest memory fails) is stored in the status byte,
    /// where guest memory backs it, and returned.
    pub fn execute<B: BlockBackend, M: GuestMemoryAccess>(&self, backend: &mut B, mem: &mut M) -> (res:
        BlockRequestResult)
        requires
            buffers_len(self.buffers()) <= usize::MAX,
        ensures
            block_completed(
                self.request_type,
                self.sector,
                self.buffers(),
                self.status_addr(),
                *old(backend),
                *final(backend),
                old(mem).mem(),
                final(mem).mem(),
                res.status,
            ),
    {
        let status = self.execute_guest_memory_request(backend, mem);
        let ghost mid = mem.mem();
        let status_addr = match &self.data_source {
            DataSource::GuestMemory { status_addr, .. } => *status_addr,
        };
        let _ = mem.write_u8(status_addr, status);
        proof {
            assert(mem.mem() == store_status(mid, self.status_addr(), status));
        }
        BlockRequestResult { status }
    }

    /// What carrying the request out may do (see `block_outcome`).
    pub open spec fn spec_outcome<B: BlockBackend>(
        &self,
        b0: B,
        b1: B,
        m0: Map<int, u8>,
        m1: Map<int, u8>,
        status: u8,
        post: spec_fn(Map<int, u8>) -> Map<int, u8>,
    ) -> bool {
        block_outcome(self.request_type, self.sector, self.buffers(), b0, b1, m0, m1, status, post)
    }

    /// Carries the request out, status byte aside, and returns its status.
    fn execute_guest_memory_request<B: BlockBackend, M: GuestMemoryAccess>(
        &self,
        backend: &mut B,
        mem: &mut M,
    ) -> (status: u8)
        requires
            buffers_len(self.buffers()) <= usize::MAX,
        ensures
            self.spec_outcome(
                *old(backend),
                *final(backend),
                old(mem).mem(),
                final(mem).mem(),
                status,
                |m: Map<int, u8>| m,
            ),
    {
        let request_type_u32: u32 = self.request_type.into();
        match request_type_u32 {
            VIRTIO_BLK_T_IN => self.handle_read_request_guest_memory(backend, mem),
            VIRTIO_BLK_T_OUT => self.handle_write_request_guest_memory(backend, mem),
            _ => self.handle_flush_request_guest_memory(backend),
        }
    }

    /// Reads from the backend and copies into the writable buffers.
    fn handle_read_request_guest_memory<B: BlockBackend, M: GuestMemoryAccess>(
        &self,
        backend: &B,
        mem: &mut M,
    ) -> (status: u8)
        requires
            buffers_len(self.buffers()) <= usize::MAX,
            self.request_type == BlockRequestType::Read,
        ensures
            self.spec_outcome(
                *backend,
                *backend,
                old(mem).mem(),
                final(mem).mem(),
                status,
                |m: Map<int, u8>| m,
            ),
    {
        let total_len = self.size();
        let mut buffer = vec![0u8; total_len];
        let r = backend.read(self.sector, buffer.as_mut_slice());
        let status = match r {
            Ok(_) => self.complete_read(mem, buffer.as_slice()),
            Err(_) => VIRTIO_BLK_S_IOERR,
        };
        proof {
            assert(backend.spec_read_result(self.sector, buffers_len(self.buffers()) as nat, r));
            assert(read_ended(*backend, self.sector, self.buffers(), old(mem).mem(), mem.mem(), status, |m: Map<int, u8>| m, r));
        }
        status
    }

    /// Copies `data`, the bytes read for this request, into its
    /// device-writable buffers one after the other (`scatter`); returns OK
    /// where every one was filled, IOERR where one is not backed by guest
    /// memory or would run past the data (the buffers before it keep their
    /// bytes).
    pub fn complete_read<M: GuestMemoryAccess>(&self, mem: &mut M, data: &[u8]) -> (status: u8)
        ensures
            final(mem).mem() == scatter(old(mem).mem(), self.buffers(), data@, 0).0,
            status == read_status(scatter(old(mem).mem(), self.buffers(), data@, 0).1),
    {
        let buffers = match &self.data_source {
            DataSource::GuestMemory { buffers, .. } => buffers,
        };
        let ghost bufs = buffers@;
        let ghost m0 = mem.mem();
        let mut buffer_offset: usize = 0;
        let mut i: usize = 0;
        proof {
            assert(bufs.skip(0) =~= bufs);
        }
        while i < buffers.len()
            invariant
                i <= bufs.len(),
                bufs == buffers@,
                bufs == self.buffers(),
                m0 == old(mem).mem(),
                buffer_offset <= data@.len(),
                scatter(m0, bufs, data@, 0) == scatter(
                    mem.mem(),
                    bufs.skip(i as int),
                    data@,
                    buffer_offset as int,
                ),
            decreases bufs.len() - i,
        {
            let (guest_addr, len, is_write) = buffers[i];
            proof {
                assert(bufs.skip(i as int).drop_first() =~= bufs.skip(i + 1));
                assert(bufs.skip(i as int)[0] == bufs[i as int]);
            }
            if !is_write {
                i = i + 1;
                continue;
            }
            if len > data.len() - buffer_offset {
                return VIRTIO_BLK_S_IOERR;
            }
            let end_offset = buffer_offset + len;
            let chunk = vstd::slice::slice_subrange(data, buffer_offset, end_offset);
            if write_bytes(mem, guest_addr, chunk).is_err() {
                return VIRTIO_BLK_S_IOERR;
            }
            buffer_offset = end_offset;
            i = i + 1;
        }
        proof {
            assert(bufs.skip(i as int) =~= Seq::<(usize, usize, bool)>::empty());
        }
        VIRTIO_BLK_S_OK
    }

    /// Gathers the readable buffers and writes them to the backend.
    #[verifier::spinoff_prover]
    fn handle_write_request_guest_memory<B: BlockBackend, M: GuestMemoryAccess>(
        &self,
        backend: &mut B,
        mem: &M,
    ) -> (status: u8)
        requires
            buffers_len(self.buffers()) <= usize::MAX,
            self.request_type == BlockRequestType::Write,
        ensures
            self.spec_outcome(
                *old(backend),
                *final(backend),
                mem.mem(),
                mem.mem(),
                status,
                |m: Map<int, u8>| m,
            ),
    {
        let total_len = self.size();
        let buffers = match &self.data_source {
            DataSource::GuestMemory { buffers, .. } => buffers,
        };
        let ghost bufs = buffers@;
        let ghost m = mem.mem();
        let mut buffer: Vec<u8> = Vec::new();
        let mut i: usize = 0;
        proof {
            assert(bufs.skip(0) =~= bufs);
            assert forall|r: Seq<u8>| #[trigger] (Seq::<u8>::empty() + r) == r by {
                assert(Seq::<u8>::empty() + r =~= r);
            }
        }
        while i < buffers.len()
            invariant
                i <= bufs.len(),
                bufs == buffers@,
                bufs == self.buffers(),
                self.request_type == BlockRequestType::Write,
                total_len == buffers_len(bufs),
                m == mem.mem(),
                buffer@.len() <= total_len,
                gather(m, bufs, 0, total_len as int) == match gather(
                    m,
                    bufs.skip(i as int),
                    buffer@.len() as int,
                    total_len as int,
                ) {
                    Some(r) => Some(buffer@ + r),
                    None => None,
                },
            decreases bufs.len() - i,
        {
            let (guest_addr, len, is_write) = buffers[i];
            proof {
                assert(bufs.skip(i as int).drop_first() =~= bufs.skip(i + 1));
                assert(bufs.skip(i as int)[0] == bufs[i as int]);
            }
            if is_write {
                i = i + 1;
                continue;
            }
            if len > total_len - buffer.len() {
                proof {
                    assert(gather(m, bufs, 0, total_len as int) is None);
                }
                return VIRTIO_BLK_S_IOERR;
            }
            match read_bytes(mem, guest_addr, len) {
                Ok(mut bytes) => {
                    let ghost before = buffer@;
                    buffer.append(&mut bytes);
                    proof {
                        assert(buffer@ == before + bytes_at(m, guest_addr as int, len as nat));
                        assert forall|r: Seq<u8>| true implies before + (bytes_at(
                            m,
                            guest_addr as int,
                            len as nat,
                        ) + r) == buffer@ + r by {
                            assert(before + (bytes_at(m, guest_addr as int, len as nat) + r) =~= buffer@
                                + r);
                        }
                    }
                },
                Err(_) => {
                    proof {
                        assert(gather(m, bufs, 0, total_len as int) is None);
                    }
                    return VIRTIO_BLK_S_IOERR;
                },
            }
            i = i + 1;
        }
        let ghost g = buffer@;
        proof {
            assert(bufs.skip(bufs.len() as int) =~= Seq::<(usize, usize, bool)>::empty());
            assert(g + Seq::<u8>::empty() =~= g);
        }
        let pad = total_len - buffer.len();
        let mut k: usize = 0;
        while k < pad
            invariant
                k <= pad,
                pad == total_len - g.len(),
                buffer@ == g + Seq::new(k as nat, |j: int| 0u8),
            decreases pad - k,
        {
            buffer.push(0u8);
            k = k + 1;
            proof {
                assert(buffer@ =~= g + Seq::new(k as nat, |j: int| 0u8));
            }
        }
        let r = backend.write(self.sector, buffer.as_slice());
        proof {
            assert(gather(m, bufs, 0, total_len as int) == Some(g));
            assert(buffer@ =~= zero_padded(g, total_len as int));
            assert(buffer@.len() == total_len);
            assert(old(backend).spec_write_result(self.sector, zero_padded(g, total_len as int), r));
            assert(gather(mem.mem(), self.buffers(), 0, buffers_len(self.buffers())) == Some(g));
        }
        let status = match r {
            Ok(_) => VIRTIO_BLK_S_OK,
            Err(_) => VIRTIO_BLK_S_IOERR,
        };
        proof {
            let total = buffers_len(self.buffers());
            let data = zero_padded(gather(mem.mem(), self.buffers(), 0, total)->Some_0, total);
            assert(data == zero_padded(g, total_len as int));
            assert(old(backend).spec_write_result(self.sector, data, r));
            assert(write_ended(*old(backend), *backend, self.sector, data, status, r));
        }
        status
    }

    /// Flushes the backend.
    fn handle_flush_request_guest_memory<B: BlockBackend>(&self, backend: &B) -> (status: u8)
        requires
            self.request_type == BlockRequestType::Flush,
        ensures
            exists|r: VirtioResult<()>| #[trigger] backend.spec_flush_result(r) && status == flush_status(r),
    {
        let r = backend.flush();
        proof {
            assert(backend.spec_flush_result(r));
        }
        match r {
            Ok(_) => VIRTIO_BLK_S_OK,
            Err(_) => VIRTIO_BLK_S_IOERR,
        }
    }
}

/// The length of a prefix one longer is that of the prefix plus the next buffer.
proof fn lemma_buffers_len_prefix(bufs: Seq<(usize, usize, bool)>, i: int)
    requires
        0 < i <= bufs.len(),
    ensures
        buffers_len(bufs.take(i)) == buffers_len(bufs.take(i - 1)) + bufs[i - 1].1,
        buffers_len(bufs.take(i)) <= buffers_len(bufs),
    decreases bufs.len() - i,
{
    assert(bufs.take(i).drop_last() =~= bufs.take(i - 1));
    if i < bufs.len() {
        lemma_buffers_len_prefix(bufs, i + 1);
    } else {
        assert(bufs.take(i) =~= bufs);
    }
}

} // verus!
