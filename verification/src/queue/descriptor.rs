//! The descriptor table of a split virtqueue and the descriptor chains that
//! the guest builds in it.

use crate::constants::{VIRTQ_DESC_F_INDIRECT, VIRTQ_DESC_F_NEXT, VIRTQ_DESC_F_WRITE, VIRTQ_DESC_SIZE};
use crate::device_type::VirtioDeviceType;
use crate::error::{VirtioError, VirtioResult};
use crate::flags::set_flag16;
use crate::memory::{
    GuestMemoryAccess, le16_bytes, le32_bytes, le64_bytes, mem_u16, mem_u32, mem_u64,
    range_mapped, read_u16, read_u32, read_u64, store_bytes, write_bytes,
};
use vstd::prelude::*;

verus! {

/// A virtqueue descriptor: one guest buffer, its flags, and the index of the
/// next descriptor of its chain.
#[derive(Debug, Clone, Copy, PartialEq, Eq, Structural)]
pub struct VirtqDesc {
    /// Guest physical address of the buffer
    pub addr: u64,
    /// Length of the buffer
    pub len: u32,
    /// Flags
    pub flags: u16,
    /// Next descriptor index (if `VIRTQ_DESC_F_NEXT` is set)
    pub next: u16,
}

impl VirtqDesc {
    /// Whether the chain continues after this descriptor.
    pub open spec fn spec_has_next(&self) -> bool {
        self.flags & VIRTQ_DESC_F_NEXT != 0
    }

    /// Whether the buffer is device write-only.
    pub open spec fn spec_is_write(&self) -> bool {
        self.flags & VIRTQ_DESC_F_WRITE != 0
    }

    /// Whether the buffer holds an indirect descriptor table.
    pub open spec fn spec_is_indirect(&self) -> bool {
        self.flags & VIRTQ_DESC_F_INDIRECT != 0
    }

    /// Creates a descriptor.
    pub fn new(addr: u64, len: u32, flags: u16, next: u16) -> (d: Self)
        ensures
            d == (VirtqDesc { addr, len, flags, next }),
    {
        Self { addr, len, flags, next }
    }

    /// Whether this descriptor has the NEXT flag.
    pub fn has_next(&self) -> (b: bool)
        ensures
            b == self.spec_has_next(),
    {
        (self.flags & VIRTQ_DESC_F_NEXT) != 0
    }

    /// Whether this descriptor is device writable.
    pub fn is_write(&self) -> (b: bool)
        ensures
            b == self.spec_is_write(),
    {
        (self.flags & VIRTQ_DESC_F_WRITE) != 0
    }

    /// Whether this descriptor is indirect.
    pub fn is_indirect(&self) -> (b: bool)
        ensures
            b == self.spec_is_indirect(),
    {
        (self.flags & VIRTQ_DESC_F_INDIRECT) != 0
    }

    /// The guest physical address of the buffer.
    pub fn guest_addr(&self) -> (a: usize)
        ensures
            a == self.addr as usize,
    {
        self.addr as usize
    }

    /// Sets or clears the NEXT flag, leaving every other field and flag as it was.
    pub fn set_next(&mut self, has_next: bool)
        ensures
            final(self).spec_has_next() == has_next,
            final(self).flags & !VIRTQ_DESC_F_NEXT == old(self).flags & !VIRTQ_DESC_F_NEXT,
            final(self).addr == old(self).addr,
            final(self).len == old(self).len,
            final(self).next == old(self).next,
    {
        self.flags = set_flag16(self.flags, VIRTQ_DESC_F_NEXT, has_next);
    }

    /// Sets or clears the WRITE flag, leaving every other field and flag as it was.
    pub fn set_write(&mut self, is_write: bool)
        ensures
            final(self).spec_is_write() == is_write,
            final(self).flags & !VIRTQ_DESC_F_WRITE == old(self).flags & !VIRTQ_DESC_F_WRITE,
            final(self).addr == old(self).addr,
            final(self).len == old(self).len,
            final(self).next == old(self).next,
    {
        self.flags = set_flag16(self.flags, VIRTQ_DESC_F_WRITE, is_write);
    }

    /// Sets or clears the WRITE flag (alias of `set_write`).
    pub fn set_write_only(&mut self, is_write: bool)
        ensures
            final(self).spec_is_write() == is_write,
            final(self).flags & !VIRTQ_DESC_F_WRITE == old(self).flags & !VIRTQ_DESC_F_WRITE,
            final(self).addr == old(self).addr,
            final(self).len == old(self).len,
            final(self).next == old(self).next,
    {
        self.set_write(is_write);
    }

    /// Whether this descriptor is device write-only (alias of `is_write`).
    pub fn is_write_only(&self) -> (b: bool)
        ensures
            b == self.spec_is_write(),
    {
        self.is_write()
    }

    /// Sets or clears the INDIRECT flag, leaving every other field and flag as it was.
    pub fn set_indirect(&mut self, is_indirect: bool)
        ensures
            final(self).spec_is_indirect() == is_indirect,
            final(self).flags & !VIRTQ_DESC_F_INDIRECT == old(self).flags & !VIRTQ_DESC_F_INDIRECT,
            final(self).addr == old(self).addr,
            final(self).len == old(self).len,
            final(self).next == old(self).next,
    {
        self.flags = set_flag16(self.flags, VIRTQ_DESC_F_INDIRECT, is_indirect);
    }
}

/// The descriptor stored at guest address `a`.
pub open spec fn desc_at(m: Map<int, u8>, a: int) -> VirtqDesc {
    VirtqDesc {
        addr: mem_u64(m, a),
        len: mem_u32(m, a + 8),
        flags: mem_u16(m, a + 12),
        next: mem_u16(m, a + 14),
    }
}

/// The sixteen bytes that store a descriptor.
pub open spec fn desc_bytes(d: VirtqDesc) -> Seq<u8> {
    le64_bytes(d.addr) + le32_bytes(d.len) + le16_bytes(d.flags) + le16_bytes(d.next)
}

/// Descriptor table management.
#[derive(Debug, Clone, Copy)]
pub struct DescriptorTable {
    /// Base address of the descriptor table
    pub base_addr: usize,
    /// Number of descriptors
    pub size: u16,
}

/// The descriptor chain that starts at `cur`, given that `count` descriptors
/// were followed before it: its descriptors, or the error that following it
/// meets. A chain that leaves the table, or that would grow beyond `size`
/// descriptors, is invalid.
pub open spec fn follow_from(m: Map<int, u8>, t: DescriptorTable, cur: u16, count: nat) -> VirtioResult<
    Seq<VirtqDesc>,
>
    decreases t.size + 1 - count,
{
    if cur >= t.size {
        Err(VirtioError::InvalidQueue)
    } else if !range_mapped(m, t.spec_desc_addr(cur), VIRTQ_DESC_SIZE as int) {
        Err(VirtioError::InvalidAddress)
    } else {
        let d = desc_at(m, t.spec_desc_addr(cur));
        if !d.spec_has_next() {
            Ok(seq![d])
        } else if count + 1 > t.size {
            Err(VirtioError::InvalidQueue)
        } else {
            match follow_from(m, t, d.next, count + 1) {
                Ok(rest) => Ok(seq![d] + rest),
                Err(e) => Err(e),
            }
        }
    }
}

/// Whether every descriptor of a sequence but the last continues the chain
/// and the last ends it.
pub open spec fn well_linked(s: Seq<VirtqDesc>) -> bool {
    &&& s.len() > 0
    &&& forall|i: int| 0 <= i < s.len() - 1 ==> #[trigger] s[i].spec_has_next()
    &&& !s[s.len() - 1].spec_has_next()
}

/// The sum of the buffer lengths of a sequence of descriptors.
pub open spec fn sum_lens(s: Seq<VirtqDesc>) -> int
    decreases s.len(),
{
    if s.len() == 0 {
        0
    } else {
        sum_lens(s.drop_last()) + s.last().len
    }
}

/// The (address, length, device-writable) triple that describes a buffer.
pub open spec fn buffer_of(d: VirtqDesc) -> (usize, usize, bool) {
    (d.addr as usize, d.len as usize, d.spec_is_write())
}

/// The data buffers of a chain: for a block device the buffers between the
/// request header and the status byte (none when the chain is shorter than
/// two), for other devices every buffer.
pub open spec fn data_buffers(descs: Seq<VirtqDesc>, device_type: VirtioDeviceType) -> Seq<
    (usize, usize, bool),
> {
    if device_type == VirtioDeviceType::Block {
        if descs.len() < 2 {
            Seq::empty()
        } else {
            descs.subrange(1, descs.len() - 1).map_values(|d: VirtqDesc| buffer_of(d))
        }
    } else {
        descs.map_values(|d: VirtqDesc| buffer_of(d))
    }
}

impl DescriptorTable {
    /// Well-formedness: the whole table lies within the address space.
    pub open spec fn wf(&self) -> bool {
        self.base_addr + self.size * VIRTQ_DESC_SIZE <= usize::MAX
    }

    /// Whether the table has an address and at least one descriptor.
    pub open spec fn spec_is_valid(&self) -> bool {
        self.base_addr != 0 && self.size > 0
    }

    /// The address of descriptor `index`.
    pub open spec fn spec_desc_addr(&self, index: u16) -> int {
        self.base_addr + index * VIRTQ_DESC_SIZE
    }

    /// The chain that starts at `head`, or the error that following it meets.
    pub open spec fn spec_follow_chain(&self, m: Map<int, u8>, head: u16) -> VirtioResult<
        Seq<VirtqDesc>,
    > {
        if !self.spec_is_valid() {
            Err(VirtioError::QueueNotReady)
        } else {
            follow_from(m, *self, head, 0)
        }
    }

    /// Creates a descriptor table.
    pub fn new(base_addr: usize, size: u16) -> (t: Self)
        requires
            base_addr + size * VIRTQ_DESC_SIZE <= usize::MAX,
        ensures
            t.wf(),
            t.base_addr == base_addr,
            t.size == size,
    {
        Self { base_addr, size }
    }

    /// The address of a descriptor, or `None` past the end of the table.
    pub fn desc_addr(&self, index: u16) -> (a: Option<usize>)
        requires
            self.wf(),
        ensures
            a == (if index < self.size {
                Some(self.spec_desc_addr(index) as usize)
            } else {
                None
            }),
    {
        if index >= self.size {
            return None;
        }
        Some(self.base_addr + index as usize * VIRTQ_DESC_SIZE)
    }

    /// The size of the table in bytes.
    pub fn total_size(&self) -> (n: usize)
        ensures
            n == self.size * VIRTQ_DESC_SIZE,
    {
        self.size as usize * VIRTQ_DESC_SIZE
    }

    /// Whether the table has an address and at least one descriptor.
    pub fn is_valid(&self) -> (b: bool)
        ensures
            b == self.spec_is_valid(),
    {
        self.base_addr != 0 && self.size > 0
    }

    /// Reads a descriptor from the table.
    pub fn read_desc<M: GuestMemoryAccess>(&self, mem: &M, index: u16) -> (r: VirtioResult<VirtqDesc>)
        requires
            self.wf(),
        ensures
            r == (if !self.spec_is_valid() {
                Err(VirtioError::QueueNotReady)
            } else if index >= self.size {
                Err(VirtioError::InvalidQueue)
            } else if !range_mapped(mem.mem(), self.spec_desc_addr(index), VIRTQ_DESC_SIZE as int) {
                Err(VirtioError::InvalidAddress)
            } else {
                Ok(desc_at(mem.mem(), self.spec_desc_addr(index)))
            }),
    {
        if !self.is_valid() {
            return Err(VirtioError::QueueNotReady);
        }
        let a = match self.desc_addr(index) {
            Some(a) => a,
            None => return Err(VirtioError::InvalidQueue),
        };
        if !mem.check_range(a, VIRTQ_DESC_SIZE) {
            return Err(VirtioError::InvalidAddress);
        }
        proof {
            let m = mem.mem();
            assert forall|k: int, n: int|
                0 <= k && 0 <= n && k + n <= 16 implies #[trigger] range_mapped(m, a + k, n) by {
                assert forall|i: int| 0 <= i < n implies #[trigger] m.dom().contains(a + k + i) by {
                    assert(m.dom().contains(a + (k + i)));
                }
            }
        }
        let addr = read_u64(mem, a).unwrap();
        let len = read_u32(mem, a + 8).unwrap();
        let flags = read_u16(mem, a + 12).unwrap();
        let next = read_u16(mem, a + 14).unwrap();
        Ok(VirtqDesc { addr, len, flags, next })
    }

    /// Writes a descriptor into the table.
    pub fn write_desc<M: GuestMemoryAccess>(&self, mem: &mut M, index: u16, desc: &VirtqDesc) -> (r:
        VirtioResult<()>)
        requires
            self.wf(),
        ensures
            match r {
                Ok(_) => self.spec_is_valid() && index < self.size && range_mapped(
                    old(mem).mem(),
                    self.spec_desc_addr(index),
                    VIRTQ_DESC_SIZE as int,
                ) && final(mem).mem() == store_bytes(
                    old(mem).mem(),
                    self.spec_desc_addr(index),
                    desc_bytes(*desc),
                ),
                Err(e) => final(mem).mem() == old(mem).mem() && e == (if !self.spec_is_valid() {
                    VirtioError::QueueNotReady
                } else if index >= self.size {
                    VirtioError::InvalidQueue
                } else {
                    VirtioError::InvalidAddress
                }) && !(self.spec_is_valid() && index < self.size && range_mapped(
                    old(mem).mem(),
                    self.spec_desc_addr(index),
                    VIRTQ_DESC_SIZE as int,
                )),
            },
    {
        if !self.is_valid() {
            return Err(VirtioError::QueueNotReady);
        }
        let a = match self.desc_addr(index) {
            Some(a) => a,
            None => return Err(VirtioError::InvalidQueue),
        };
        let v = desc.addr;
        let l = (v % 0x1_0000_0000) as u32;
        let h = (v / 0x1_0000_0000) as u32;
        let l0 = (l % 0x1_0000) as u16;
        let l1 = (l / 0x1_0000) as u16;
        let h0 = (h % 0x1_0000) as u16;
        let h1 = (h / 0x1_0000) as u16;
        let n0 = (desc.len % 0x1_0000) as u16;
        let n1 = (desc.len / 0x1_0000) as u16;
        let bytes = [
            (l0 % 0x100) as u8,
            (l0 / 0x100) as u8,
            (l1 % 0x100) as u8,
            (l1 / 0x100) as u8,
            (h0 % 0x100) as u8,
            (h0 / 0x100) as u8,
            (h1 % 0x100) as u8,
            (h1 / 0x100) as u8,
            (n0 % 0x100) as u8,
            (n0 / 0x100) as u8,
            (n1 % 0x100) as u8,
            (n1 / 0x100) as u8,
            (desc.flags % 0x100) as u8,
            (desc.flags / 0x100) as u8,
            (desc.next % 0x100) as u8,
            (desc.next / 0x100) as u8,
        ];
        assert(bytes@ =~= desc_bytes(*desc));
        let r = write_bytes(mem, a, &bytes);
        assert(bytes@.len() == VIRTQ_DESC_SIZE);
        r
    }
}


/// A result with `prefix` put in front of its sequence, errors kept as they are.
pub open spec fn prepend(prefix: Seq<VirtqDesc>, r: VirtioResult<Seq<VirtqDesc>>) -> VirtioResult<
    Seq<VirtqDesc>,
> {
    match r {
        Ok(rest) => Ok(prefix + rest),
        Err(e) => Err(e),
    }
}

/// Every chain that `follow_from` returns is well linked.
pub proof fn lemma_follow_from_well_linked(m: Map<int, u8>, t: DescriptorTable, cur: u16, count: nat)
    requires
        follow_from(m, t, cur, count) is Ok,
    ensures
        well_linked(follow_from(m, t, cur, count)->Ok_0),
    decreases t.size + 1 - count,
{
    let d = desc_at(m, t.spec_desc_addr(cur));
    if d.spec_has_next() {
        lemma_follow_from_well_linked(m, t, d.next, count + 1);
        let rest = follow_from(m, t, d.next, count + 1)->Ok_0;
        let s = seq![d] + rest;
        assert forall|i: int| 0 <= i < s.len() - 1 implies #[trigger] s[i].spec_has_next() by {
            if i > 0 {
                assert(s[i] == rest[i - 1]);
            }
        }
        assert(s[s.len() - 1] == rest[rest.len() - 1]);
    }
}

/// The lengths of a prefix one element longer add that element's length.
pub proof fn lemma_sum_lens_step(s: Seq<VirtqDesc>, i: int)
    requires
        0 <= i < s.len(),
    ensures
        sum_lens(s.subrange(0, i + 1)) == sum_lens(s.subrange(0, i)) + s[i].len,
{
    assert(s.subrange(0, i + 1).drop_last() =~= s.subrange(0, i));
}

/// The lengths of a prefix add up to no more than those of the whole sequence.
pub proof fn lemma_sum_lens_prefix(s: Seq<VirtqDesc>, i: int)
    requires
        0 <= i <= s.len(),
    ensures
        sum_lens(s.subrange(0, i)) <= sum_lens(s),
    decreases s.len() - i,
{
    if i < s.len() {
        lemma_sum_lens_step(s, i);
        lemma_sum_lens_prefix(s, i + 1);
    } else {
        assert(s.subrange(0, i) =~= s);
    }
}

impl DescriptorTable {
    /// Follows the descriptor chain that starts at `head_index`.
    pub fn follow_chain<M: GuestMemoryAccess>(&self, mem: &M, head_index: u16) -> (r: VirtioResult<
        Vec<VirtqDesc>,
    >)
        requires
            self.wf(),
        ensures
            match r {
                Ok(v) => self.spec_follow_chain(mem.mem(), head_index) == Ok::<
                    Seq<VirtqDesc>,
                    VirtioError,
                >(v@),
                Err(e) => self.spec_follow_chain(mem.mem(), head_index) == Err::<
                    Seq<VirtqDesc>,
                    VirtioError,
                >(e),
            },
    {
        if !self.is_valid() {
            return Err(VirtioError::QueueNotReady);
        }
        let ghost m = mem.mem();
        let mut descriptors: Vec<VirtqDesc> = Vec::new();
        let mut current_index = head_index;
        assert(descriptors@ + follow_from(m, *self, head_index, 0)->Ok_0 =~= follow_from(
            m,
            *self,
            head_index,
            0,
        )->Ok_0);
        loop
            invariant_except_break
                self.wf(),
                self.spec_is_valid(),
                m == mem.mem(),
                descriptors@.len() <= self.size,
                follow_from(m, *self, head_index, 0) == prepend(
                    descriptors@,
                    follow_from(m, *self, current_index, descriptors@.len()),
                ),
            ensures
                follow_from(m, *self, head_index, 0) == Ok::<Seq<VirtqDesc>, VirtioError>(
                    descriptors@,
                ),
            decreases self.size - descriptors@.len(),
        {
            if current_index >= self.size {
                return Err(VirtioError::InvalidQueue);
            }
            let desc = match self.read_desc(mem, current_index) {
                Ok(d) => d,
                Err(e) => return Err(e),
            };
            let ghost before = descriptors@;
            let ghost count = descriptors@.len();
            descriptors.push(desc);
            if !desc.has_next() {
                assert(before + seq![desc] =~= descriptors@);
                break;
            }
            current_index = desc.next;
            if descriptors.len() > self.size as usize {
                return Err(VirtioError::InvalidQueue);
            }
            proof {
                let rest = follow_from(m, *self, current_index, count + 1);
                if rest is Ok {
                    assert(before + (seq![desc] + rest->Ok_0) =~= descriptors@ + rest->Ok_0);
                }
            }
        }
        Ok(descriptors)
    }

    /// The total length of the buffers of a descriptor chain.
    pub fn chain_length<M: GuestMemoryAccess>(&self, mem: &M, head_index: u16) -> (r: VirtioResult<u32>)
        requires
            self.wf(),
            self.spec_follow_chain(mem.mem(), head_index) is Ok ==> sum_lens(
                self.spec_follow_chain(mem.mem(), head_index)->Ok_0,
            ) <= u32::MAX,
        ensures
            match r {
                Ok(n) => self.spec_follow_chain(mem.mem(), head_index) is Ok && n == sum_lens(
                    self.spec_follow_chain(mem.mem(), head_index)->Ok_0,
                ),
                Err(e) => self.spec_follow_chain(mem.mem(), head_index) == Err::<
                    Seq<VirtqDesc>,
                    VirtioError,
                >(e),
            },
    {
        let descriptors = self.follow_chain(mem, head_index)?;
        let mut total: u32 = 0;
        let mut i: usize = 0;
        proof {
            assert(descriptors@.subrange(0, 0) =~= Seq::<VirtqDesc>::empty());
        }
        while i < descriptors.len()
            invariant
                i <= descriptors@.len(),
                total == sum_lens(descriptors@.subrange(0, i as int)),
                sum_lens(descriptors@) <= u32::MAX,
            decreases descriptors@.len() - i,
        {
            proof {
                lemma_sum_lens_step(descriptors@, i as int);
                lemma_sum_lens_prefix(descriptors@, i + 1);
            }
            total = total + descriptors[i].len;
            i = i + 1;
        }
        assert(descriptors@.subrange(0, descriptors@.len() as int) =~= descriptors@);
        Ok(total)
    }

    /// Checks that a chain is well linked: every descriptor but the last has
    /// the NEXT flag and the last has not. Every chain that can be followed is.
    pub fn validate_chain<M: GuestMemoryAccess>(&self, mem: &M, head_index: u16) -> (r: VirtioResult<
        bool,
    >)
        requires
            self.wf(),
        ensures
            match r {
                Ok(b) => self.spec_follow_chain(mem.mem(), head_index) is Ok && b,
                Err(e) => self.spec_follow_chain(mem.mem(), head_index) == Err::<
                    Seq<VirtqDesc>,
                    VirtioError,
                >(e),
            },
    {
        let descriptors = self.follow_chain(mem, head_index)?;
        proof {
            lemma_follow_from_well_linked(mem.mem(), *self, head_index, 0);
        }
        if descriptors.len() == 0 {
            return Ok(false);
        }
        let n = descriptors.len();
        let mut i: usize = 0;
        while i < n
            invariant
                n == descriptors@.len(),
                i <= n,
                well_linked(descriptors@),
            decreases n - i,
        {
            let d = descriptors[i];
            if i == n - 1 && d.has_next() {
                return Ok(false);
            }
            if i < n - 1 && !d.has_next() {
                return Ok(false);
            }
            i = i + 1;
        }
        Ok(true)
    }

    /// The data buffers of a chain, as (address, length, device-writable):
    /// for a block device those between the header and the status byte, for
    /// other devices all of them.
    pub fn get_data_buffers<M: GuestMemoryAccess>(
        &self,
        mem: &M,
        head_index: u16,
        device_type: VirtioDeviceType,
    ) -> (r: VirtioResult<Vec<(usize, usize, bool)>>)
        requires
            self.wf(),
        ensures
            match r {
                Ok(v) => self.spec_follow_chain(mem.mem(), head_index) is Ok && v@ == data_buffers(
                    self.spec_follow_chain(mem.mem(), head_index)->Ok_0,
                    device_type,
                ),
                Err(e) => self.spec_follow_chain(mem.mem(), head_index) == Err::<
                    Seq<VirtqDesc>,
                    VirtioError,
                >(e),
            },
    {
        let descriptors = self.follow_chain(mem, head_index)?;
        let is_block = device_type == VirtioDeviceType::Block;
        if descriptors.len() < 2 && is_block {
            return Ok(Vec::new());
        }
        let (start, end) = if is_block {
            (1, descriptors.len() - 1)
        } else {
            (0, descriptors.len())
        };
        let mut buffers: Vec<(usize, usize, bool)> = Vec::new();
        let mut i: usize = start;
        while i < end
            invariant
                start <= i <= end <= descriptors@.len(),
                buffers@ == descriptors@.subrange(start as int, i as int).map_values(
                    |d: VirtqDesc| buffer_of(d),
                ),
            decreases end - i,
        {
            let d = descriptors[i];
            buffers.push((d.addr as usize, d.len as usize, d.is_write()));
            assert(buffers@ =~= descriptors@.subrange(start as int, i + 1).map_values(
                |d: VirtqDesc| buffer_of(d),
            ));
            i = i + 1;
        }
        assert(descriptors@.subrange(0, descriptors@.len() as int) =~= descriptors@);
        Ok(buffers)
    }

    /// The address of the status byte of a chain: the buffer of its last
    /// descriptor, which must be device writable.
    pub fn get_status_addr<M: GuestMemoryAccess>(&self, mem: &M, head_index: u16) -> (r: VirtioResult<
        usize,
    >)
        requires
            self.wf(),
        ensures
            match r {
                Ok(a) => self.spec_follow_chain(mem.mem(), head_index) is Ok && {
                    let s = self.spec_follow_chain(mem.mem(), head_index)->Ok_0;
                    s.last().spec_is_write() && a == s.last().addr as usize
                },
                Err(e) => match self.spec_follow_chain(mem.mem(), head_index) {
                    Ok(s) => !s.last().spec_is_write() && e == VirtioError::InvalidQueue,
                    Err(e2) => e == e2,
                },
            },
    {
        let descriptors = self.follow_chain(mem, head_index)?;
        proof {
            lemma_follow_from_well_linked(mem.mem(), *self, head_index, 0);
        }
        if descriptors.len() == 0 {
            return Err(VirtioError::InvalidQueue);
        }
        let status_desc = descriptors[descriptors.len() - 1];
        if !status_desc.is_write() {
            return Err(VirtioError::InvalidQueue);
        }
        Ok(status_desc.addr as usize)
    }
}

} // verus!
