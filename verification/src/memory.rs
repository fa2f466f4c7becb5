//! Guest memory as the devices see it: a partial map from guest physical
//! addresses to bytes, read and written through an accessor that the
//! hypervisor supplies, and the little-endian encodings of the virtqueue
//! fields that live there.

use crate::error::{VirtioError, VirtioResult};
use vstd::prelude::*;

verus! {

/// Whether the `len` bytes from `addr` on are all backed by guest memory and
/// have addresses that fit in `usize`.
pub open spec fn range_mapped(m: Map<int, u8>, addr: int, len: int) -> bool {
    &&& 0 <= addr
    &&& 0 <= len
    &&& addr + len <= usize::MAX + 1
    &&& forall|i: int| 0 <= i < len ==> #[trigger] m.dom().contains(addr + i)
}

/// The `len` bytes of guest memory from `addr` on.
pub open spec fn bytes_at(m: Map<int, u8>, addr: int, len: nat) -> Seq<u8> {
    Seq::new(len, |i: int| m[addr + i])
}

/// Guest memory after `bytes` were stored from `addr` on.
pub open spec fn store_bytes(m: Map<int, u8>, addr: int, bytes: Seq<u8>) -> Map<int, u8> {
    Map::new(
        |a: int| m.dom().contains(a),
        |a: int|
            if addr <= a < addr + bytes.len() {
                bytes[a - addr]
            } else {
                m[a]
            },
    )
}

/// The little-endian value of two bytes.
pub open spec fn le16(b0: u8, b1: u8) -> u16 {
    (b0 as int + b1 as int * 0x100) as u16
}

/// The little-endian value of four bytes.
pub open spec fn le32(b: Seq<u8>) -> u32 {
    (le16(b[0], b[1]) as int + le16(b[2], b[3]) as int * 0x1_0000) as u32
}

/// The little-endian value of eight bytes.
pub open spec fn le64(b: Seq<u8>) -> u64 {
    (le32(b.subrange(0, 4)) as int + le32(b.subrange(4, 8)) as int * 0x1_0000_0000) as u64
}

/// The little-endian bytes of a 16-bit value.
pub open spec fn le16_bytes(v: u16) -> Seq<u8> {
    seq![(v % 0x100) as u8, (v / 0x100) as u8]
}

/// The little-endian bytes of a 32-bit value.
pub open spec fn le32_bytes(v: u32) -> Seq<u8> {
    le16_bytes((v % 0x1_0000) as u16) + le16_bytes((v / 0x1_0000) as u16)
}

/// The little-endian bytes of a 64-bit value.
pub open spec fn le64_bytes(v: u64) -> Seq<u8> {
    le32_bytes((v % 0x1_0000_0000) as u32) + le32_bytes((v / 0x1_0000_0000) as u32)
}

/// The 16-bit little-endian value stored at `addr`.
pub open spec fn mem_u16(m: Map<int, u8>, addr: int) -> u16 {
    le16(m[addr], m[addr + 1])
}

/// The 32-bit little-endian value stored at `addr`.
pub open spec fn mem_u32(m: Map<int, u8>, addr: int) -> u32 {
    le32(bytes_at(m, addr, 4))
}

/// The 64-bit little-endian value stored at `addr`.
pub open spec fn mem_u64(m: Map<int, u8>, addr: int) -> u64 {
    le64(bytes_at(m, addr, 8))
}

/// Decoding the little-endian bytes of a 16-bit value gives it back.
pub proof fn lemma_le16_round_trip(v: u16)
    ensures
        le16(le16_bytes(v)[0], le16_bytes(v)[1]) == v,
{
}

/// Decoding the little-endian bytes of a 32-bit value gives it back.
pub proof fn lemma_le32_round_trip(v: u32)
    ensures
        le32_bytes(v).len() == 4,
        le32(le32_bytes(v)) == v,
{
    lemma_le16_round_trip((v % 0x1_0000) as u16);
    lemma_le16_round_trip((v / 0x1_0000) as u16);
}

/// Decoding the little-endian bytes of a 64-bit value gives it back.
pub proof fn lemma_le64_round_trip(v: u64)
    ensures
        le64_bytes(v).len() == 8,
        le64(le64_bytes(v)) == v,
{
    let lo = (v % 0x1_0000_0000) as u32;
    let hi = (v / 0x1_0000_0000) as u32;
    lemma_le32_round_trip(lo);
    lemma_le32_round_trip(hi);
    assert(le64_bytes(v).subrange(0, 4) =~= le32_bytes(lo));
    assert(le64_bytes(v).subrange(4, 8) =~= le32_bytes(hi));
}

/// Holds of every value: a choice made under it is left open.
pub open spec fn left_open<T>(x: T) -> bool {
    true
}

/// Access to guest memory: translation of guest physical addresses and byte
/// reads and writes at them. The hypervisor implements it over the guest's
/// address space; `GuestMemory` implements it over a buffer of its own.
pub trait GuestMemoryAccess {
    /// The guest's memory: the byte at each guest physical address that is
    /// backed. An implementation may give its own; one that does not (over
    /// the guest's address space, say) leaves it unspecified: it stands for
    /// the bytes that implementation reaches, which nothing here fixes.
    open spec fn mem(&self) -> Map<int, u8> {
        (choose|f: spec_fn(&Self) -> Map<int, u8>| #[trigger] left_open(f))(self)
    }

    /// Whether the `len` bytes from `addr` on are all backed by guest memory.
    fn check_range(&self, addr: usize, len: usize) -> (b: bool)
        ensures
            b <==> range_mapped(self.mem(), addr as int, len as int),
    ;

    /// Reads the byte at a guest physical address.
    fn read_u8(&self, addr: usize) -> (r: VirtioResult<u8>)
        ensures
            match r {
                Ok(b) => self.mem().dom().contains(addr as int) && b == self.mem()[addr as int],
                Err(e) => !self.mem().dom().contains(addr as int) && e == VirtioError::InvalidAddress,
            },
    ;

    /// Writes the byte at a guest physical address.
    fn write_u8(&mut self, addr: usize, val: u8) -> (r: VirtioResult<()>)
        ensures
            match r {
                Ok(_) => old(self).mem().dom().contains(addr as int) && final(self).mem()
                    == old(self).mem().insert(addr as int, val),
                Err(e) => !old(self).mem().dom().contains(addr as int) && final(self).mem()
                    == old(self).mem() && e == VirtioError::InvalidAddress,
            },
    ;
}

/// A region of guest memory held in a buffer: the guest physical addresses
/// `base .. base + len` map to the buffer's bytes, no other address is backed.
pub struct GuestMemory {
    base: usize,
    bytes: Vec<u8>,
}

impl GuestMemory {
    /// The first guest physical address of the region.
    pub closed spec fn spec_base(&self) -> nat {
        self.base as nat
    }

    /// The size of the region in bytes.
    pub closed spec fn spec_len(&self) -> nat {
        self.bytes@.len()
    }

    /// The region's contents.
    pub closed spec fn contents(&self) -> Seq<u8> {
        self.bytes@
    }

    /// A zero-filled region of `size` bytes from `base` on.
    pub fn new(base: usize, size: usize) -> (m: Self)
        requires
            base + size <= usize::MAX,
        ensures
            m.spec_base() == base,
            m.spec_len() == size,
            m.contents() == Seq::new(size as nat, |i: int| 0u8),
            m.mem() == Map::new(|a: int| base <= a < base + size, |a: int| 0u8),
    {
        let mut bytes: Vec<u8> = Vec::with_capacity(size);
        let mut i: usize = 0;
        while i < size
            invariant
                i <= size,
                bytes@ == Seq::new(i as nat, |k: int| 0u8),
            decreases size - i,
        {
            bytes.push(0u8);
            i = i + 1;
        }
        let m = GuestMemory { base, bytes };
        assert(m.mem() =~= Map::new(|a: int| base <= a < base + size, |a: int| 0u8));
        m
    }

    /// A region whose contents are `bytes`, starting at `base`.
    pub fn from_bytes(base: usize, bytes: Vec<u8>) -> (m: Self)
        requires
            base + bytes@.len() <= usize::MAX,
        ensures
            m.spec_base() == base,
            m.contents() == bytes@,
    {
        GuestMemory { base, bytes }
    }

    /// The first guest physical address of the region.
    pub fn base(&self) -> (b: usize)
        ensures
            b == self.spec_base(),
    {
        self.base
    }

    /// The size of the region in bytes.
    pub fn len(&self) -> (n: usize)
        ensures
            n == self.spec_len(),
    {
        self.bytes.len()
    }

    /// The region's contents.
    pub fn as_slice(&self) -> (s: &[u8])
        ensures
            s@ == self.contents(),
    {
        self.bytes.as_slice()
    }
}

impl GuestMemoryAccess for GuestMemory {
    open spec fn mem(&self) -> Map<int, u8> {
        Map::new(
            |a: int| self.spec_base() <= a < self.spec_base() + self.spec_len() && a <= usize::MAX,
            |a: int| self.contents()[a - self.spec_base()],
        )
    }

    fn check_range(&self, addr: usize, len: usize) -> (b: bool) {
        let ok = len == 0 || addr >= self.base && len <= self.bytes.len() && addr - self.base <= self.bytes.len()
            - len && (len == 0 || addr <= usize::MAX - (len - 1));
        proof {
            if ok {
                assert forall|i: int| 0 <= i < len implies #[trigger] self.mem().dom().contains(
                    addr + i,
                ) by {}
                assert(range_mapped(self.mem(), addr as int, len as int));
            }
            if !ok && len > 0 {
                if addr < self.base {
                    assert(!self.mem().dom().contains(addr + 0));
                } else if addr > usize::MAX - (len - 1) {
                } else {
                    assert(!self.mem().dom().contains(addr + (len - 1)));
                }
                assert(!range_mapped(self.mem(), addr as int, len as int));
            }
        }
        ok
    }

    fn read_u8(&self, addr: usize) -> (r: VirtioResult<u8>) {
        if addr >= self.base && addr - self.base < self.bytes.len() {
            Ok(self.bytes[addr - self.base])
        } else {
            Err(VirtioError::InvalidAddress)
        }
    }

    fn write_u8(&mut self, addr: usize, val: u8) -> (r: VirtioResult<()>) {
        if addr >= self.base && addr - self.base < self.bytes.len() {
            let ghost old_mem = self.mem();
            let i = addr - self.base;
            self.bytes.set(i, val);
            assert(self.mem() =~= old_mem.insert(addr as int, val));
            Ok(())
        } else {
            Err(VirtioError::InvalidAddress)
        }
    }
}

/// Reads a little-endian 16-bit value from guest memory.
pub fn read_u16<M: GuestMemoryAccess>(m: &M, addr: usize) -> (r: VirtioResult<u16>)
    ensures
        match r {
            Ok(v) => range_mapped(m.mem(), addr as int, 2) && v == mem_u16(m.mem(), addr as int),
            Err(e) => !range_mapped(m.mem(), addr as int, 2) && e == VirtioError::InvalidAddress,
        },
{
    if !m.check_range(addr, 2) {
        return Err(VirtioError::InvalidAddress);
    }
    assert(m.mem().dom().contains(addr + 0));
    assert(m.mem().dom().contains(addr + 1));
    let b0 = m.read_u8(addr).unwrap();
    let b1 = m.read_u8(addr + 1).unwrap();
    Ok(b0 as u16 + b1 as u16 * 0x100)
}

/// Reads a little-endian 32-bit value from guest memory.
pub fn read_u32<M: GuestMemoryAccess>(m: &M, addr: usize) -> (r: VirtioResult<u32>)
    ensures
        match r {
            Ok(v) => range_mapped(m.mem(), addr as int, 4) && v == mem_u32(m.mem(), addr as int),
            Err(e) => !range_mapped(m.mem(), addr as int, 4) && e == VirtioError::InvalidAddress,
        },
{
    if !m.check_range(addr, 4) {
        return Err(VirtioError::InvalidAddress);
    }
    assert(m.mem().dom().contains(addr + 0));
    assert(m.mem().dom().contains(addr + 1));
    assert(m.mem().dom().contains(addr + 2));
    assert(m.mem().dom().contains(addr + 3));
    let b0 = m.read_u8(addr).unwrap();
    let b1 = m.read_u8(addr + 1).unwrap();
    let b2 = m.read_u8(addr + 2).unwrap();
    let b3 = m.read_u8(addr + 3).unwrap();
    let lo = b0 as u32 + b1 as u32 * 0x100;
    let hi = b2 as u32 + b3 as u32 * 0x100;
    Ok(lo + hi * 0x1_0000)
}

/// Reads a little-endian 64-bit value from guest memory.
pub fn read_u64<M: GuestMemoryAccess>(m: &M, addr: usize) -> (r: VirtioResult<u64>)
    ensures
        match r {
            Ok(v) => range_mapped(m.mem(), addr as int, 8) && v == mem_u64(m.mem(), addr as int),
            Err(e) => !range_mapped(m.mem(), addr as int, 8) && e == VirtioError::InvalidAddress,
        },
{
    if !m.check_range(addr, 8) {
        return Err(VirtioError::InvalidAddress);
    }
    assert(m.mem().dom().contains(addr + 0));
    assert(m.mem().dom().contains(addr + 4));
    assert(range_mapped(m.mem(), addr as int, 4));
    assert(range_mapped(m.mem(), addr + 4, 4)) by {
        assert forall|i: int| 0 <= i < 4 implies #[trigger] m.mem().dom().contains(addr + 4 + i) by {
            assert(m.mem().dom().contains(addr + (4 + i)));
        }
    }
    let lo = read_u32(m, addr).unwrap();
    let hi = read_u32(m, addr + 4).unwrap();
    let ghost b = bytes_at(m.mem(), addr as int, 8);
    assert(b.subrange(0, 4) =~= bytes_at(m.mem(), addr as int, 4));
    assert(b.subrange(4, 8) =~= bytes_at(m.mem(), addr + 4, 4));
    Ok(lo as u64 + hi as u64 * 0x1_0000_0000)
}

/// Writes `data` into guest memory from `addr` on; nothing is written unless
/// the whole range is backed.
pub fn write_bytes<M: GuestMemoryAccess>(m: &mut M, addr: usize, data: &[u8]) -> (r: VirtioResult<()>)
    ensures
        match r {
            Ok(_) => range_mapped(old(m).mem(), addr as int, data@.len() as int) && final(m).mem()
                == store_bytes(old(m).mem(), addr as int, data@),
            Err(e) => !range_mapped(old(m).mem(), addr as int, data@.len() as int) && final(m).mem()
                == old(m).mem() && e == VirtioError::InvalidAddress,
        },
{
    if !m.check_range(addr, data.len()) {
        return Err(VirtioError::InvalidAddress);
    }
    let ghost m0 = m.mem();
    let mut i: usize = 0;
    while i < data.len()
        invariant
            i <= data@.len(),
            range_mapped(m0, addr as int, data@.len() as int),
            m.mem() == store_bytes(m0, addr as int, data@.subrange(0, i as int)),
        decreases data@.len() - i,
    {
        assert(m0.dom().contains(addr + i));
        let ghost before = m.mem();
        let res = m.write_u8(addr + i, data[i]);
        assert(res is Ok);
        assert(m.mem() =~= store_bytes(m0, addr as int, data@.subrange(0, i + 1)));
        i = i + 1;
    }
    assert(data@.subrange(0, data@.len() as int) =~= data@);
    Ok(())
}

/// Reads `len` bytes of guest memory from `addr` on.
pub fn read_bytes<M: GuestMemoryAccess>(m: &M, addr: usize, len: usize) -> (r: VirtioResult<Vec<u8>>)
    ensures
        match r {
            Ok(v) => range_mapped(m.mem(), addr as int, len as int) && v@ == bytes_at(
                m.mem(),
                addr as int,
                len as nat,
            ),
            Err(e) => !range_mapped(m.mem(), addr as int, len as int) && e
                == VirtioError::InvalidAddress,
        },
{
    if !m.check_range(addr, len) {
        return Err(VirtioError::InvalidAddress);
    }
    let mut v: Vec<u8> = Vec::with_capacity(len);
    let mut i: usize = 0;
    while i < len
        invariant
            i <= len,
            range_mapped(m.mem(), addr as int, len as int),
            v@ == bytes_at(m.mem(), addr as int, i as nat),
        decreases len - i,
    {
        assert(m.mem().dom().contains(addr + i));
        let b = m.read_u8(addr + i).unwrap();
        v.push(b);
        assert(v@ =~= bytes_at(m.mem(), addr as int, (i + 1) as nat));
        i = i + 1;
    }
    Ok(v)
}

/// Writes a little-endian 16-bit value into guest memory.
pub fn write_u16<M: GuestMemoryAccess>(m: &mut M, addr: usize, val: u16) -> (r: VirtioResult<()>)
    ensures
        match r {
            Ok(_) => range_mapped(old(m).mem(), addr as int, 2) && final(m).mem() == store_bytes(
                old(m).mem(),
                addr as int,
                le16_bytes(val),
            ),
            Err(e) => !range_mapped(old(m).mem(), addr as int, 2) && final(m).mem() == old(m).mem()
                && e == VirtioError::InvalidAddress,
        },
{
    let b = [(val % 0x100) as u8, (val / 0x100) as u8];
    assert(b@ =~= le16_bytes(val));
    write_bytes(m, addr, &b)
}

/// Writes a little-endian 32-bit value into guest memory.
pub fn write_u32<M: GuestMemoryAccess>(m: &mut M, addr: usize, val: u32) -> (r: VirtioResult<()>)
    ensures
        match r {
            Ok(_) => range_mapped(old(m).mem(), addr as int, 4) && final(m).mem() == store_bytes(
                old(m).mem(),
                addr as int,
                le32_bytes(val),
            ),
            Err(e) => !range_mapped(old(m).mem(), addr as int, 4) && final(m).mem() == old(m).mem()
                && e == VirtioError::InvalidAddress,
        },
{
    let lo = (val % 0x1_0000) as u16;
    let hi = (val / 0x1_0000) as u16;
    let b = [(lo % 0x100) as u8, (lo / 0x100) as u8, (hi % 0x100) as u8, (hi / 0x100) as u8];
    assert(b@ =~= le32_bytes(val));
    write_bytes(m, addr, &b)
}

/// Writes a little-endian 64-bit value into guest memory.
pub fn write_u64<M: GuestMemoryAccess>(m: &mut M, addr: usize, val: u64) -> (r: VirtioResult<()>)
    ensures
        match r {
            Ok(_) => range_mapped(old(m).mem(), addr as int, 8) && final(m).mem() == store_bytes(
                old(m).mem(),
                addr as int,
                le64_bytes(val),
            ),
            Err(e) => !range_mapped(old(m).mem(), addr as int, 8) && final(m).mem() == old(m).mem()
                && e == VirtioError::InvalidAddress,
        },
{
    let l = (val % 0x1_0000_0000) as u32;
    let h = (val / 0x1_0000_0000) as u32;
    let l0 = (l % 0x1_0000) as u16;
    let l1 = (l / 0x1_0000) as u16;
    let h0 = (h % 0x1_0000) as u16;
    let h1 = (h / 0x1_0000) as u16;
    let b = [
        (l0 % 0x100) as u8,
        (l0 / 0x100) as u8,
        (l1 % 0x100) as u8,
        (l1 / 0x100) as u8,
        (h0 % 0x100) as u8,
        (h0 / 0x100) as u8,
        (h1 % 0x100) as u8,
        (h1 / 0x100) as u8,
    ];
    assert(b@ =~= le64_bytes(val));
    write_bytes(m, addr, &b)
}

/// What a store leaves in memory: the stored bytes over the stored range,
/// the old bytes elsewhere, and the same backed addresses.
pub proof fn lemma_store_bytes_read_back(m: Map<int, u8>, addr: int, bytes: Seq<u8>)
    requires
        range_mapped(m, addr, bytes.len() as int),
    ensures
        bytes_at(store_bytes(m, addr, bytes), addr, bytes.len()) == bytes,
        store_bytes(m, addr, bytes).dom() == m.dom(),
        forall|a: int|
            #![trigger store_bytes(m, addr, bytes)[a]]
            m.dom().contains(a) && !(addr <= a < addr + bytes.len()) ==> store_bytes(m, addr, bytes)[a] == m[a],
{
    assert(bytes_at(store_bytes(m, addr, bytes), addr, bytes.len()) =~= bytes) by {
        assert forall|i: int| 0 <= i < bytes.len() implies store_bytes(m, addr, bytes)[addr + i]
            == bytes[i] by {
            assert(m.dom().contains(addr + i));
        }
    }
    assert(store_bytes(m, addr, bytes).dom() =~= m.dom());
}

/// A 16-bit value written to guest memory reads back unchanged.
pub proof fn lemma_u16_write_read(m: Map<int, u8>, addr: int, v: u16)
    requires
        range_mapped(m, addr, 2),
    ensures
        mem_u16(store_bytes(m, addr, le16_bytes(v)), addr) == v,
{
    lemma_store_bytes_read_back(m, addr, le16_bytes(v));
    let s = store_bytes(m, addr, le16_bytes(v));
    assert(bytes_at(s, addr, 2)[0] == s[addr + 0]);
    assert(bytes_at(s, addr, 2)[1] == s[addr + 1]);
    lemma_le16_round_trip(v);
}

/// A 32-bit value written to guest memory reads back unchanged.
pub proof fn lemma_u32_write_read(m: Map<int, u8>, addr: int, v: u32)
    requires
        range_mapped(m, addr, 4),
    ensures
        mem_u32(store_bytes(m, addr, le32_bytes(v)), addr) == v,
{
    lemma_le32_round_trip(v);
    lemma_store_bytes_read_back(m, addr, le32_bytes(v));
}

/// A 64-bit value written to guest memory reads back unchanged.
pub proof fn lemma_u64_write_read(m: Map<int, u8>, addr: int, v: u64)
    requires
        range_mapped(m, addr, 8),
    ensures
        mem_u64(store_bytes(m, addr, le64_bytes(v)), addr) == v,
{
    lemma_le64_round_trip(v);
    lemma_store_bytes_read_back(m, addr, le64_bytes(v));
}

} // verus!
