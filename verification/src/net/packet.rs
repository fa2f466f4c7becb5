//! Network packets: the VirtIO network header that precedes each frame, and
//! the buffers that hold header and frame together.

use crate::error::{VirtioError, VirtioResult};
use crate::flags::set_flag8;
use crate::memory::{le16, le16_bytes};
use crate::net::constants::{
    VIRTIO_NET_HDR_F_DATA_VALID, VIRTIO_NET_HDR_F_NEEDS_CSUM, VIRTIO_NET_HDR_GSO_NONE,
    VIRTIO_NET_HDR_SIZE, VIRTIO_NET_MAX_PACKET_SIZE, VIRTIO_NET_MIN_PACKET_SIZE,
};
use vstd::prelude::*;

verus! {

/// VirtIO network packet header: flags, GSO type, then four 16-bit
/// little-endian fields, ten bytes in all.
#[derive(Debug, Clone, Copy, PartialEq, Eq, Structural)]
pub struct VirtioNetHeader {
    /// Flags
    pub flags: u8,
    /// GSO type
    pub gso_type: u8,
    /// Header length
    pub hdr_len: u16,
    /// GSO size
    pub gso_size: u16,
    /// Checksum start
    pub csum_start: u16,
    /// Checksum offset
    pub csum_offset: u16,
}

/// The header that the first ten bytes of `b` encode.
pub open spec fn header_from_bytes(b: Seq<u8>) -> VirtioNetHeader {
    VirtioNetHeader {
        flags: b[0],
        gso_type: b[1],
        hdr_len: le16(b[2], b[3]),
        gso_size: le16(b[4], b[5]),
        csum_start: le16(b[6], b[7]),
        csum_offset: le16(b[8], b[9]),
    }
}

/// Whether a packet of `len` bytes (header included) is well formed: it
/// holds a header, and a frame that is empty or between the smallest and
/// the largest Ethernet frame.
pub open spec fn packet_len_valid(len: int) -> bool {
    &&& len >= VIRTIO_NET_HDR_SIZE
    &&& len - VIRTIO_NET_HDR_SIZE <= VIRTIO_NET_MAX_PACKET_SIZE
    &&& (len - VIRTIO_NET_HDR_SIZE == 0 || len - VIRTIO_NET_HDR_SIZE >= VIRTIO_NET_MIN_PACKET_SIZE)
}

impl VirtioNetHeader {
    /// The header as bytes.
    pub open spec fn spec_bytes(&self) -> Seq<u8> {
        seq![self.flags, self.gso_type] + le16_bytes(self.hdr_len) + le16_bytes(self.gso_size)
            + le16_bytes(self.csum_start) + le16_bytes(self.csum_offset)
    }

    /// The header of a plain packet: no flags, no GSO, a ten-byte header.
    pub open spec fn spec_new() -> Self {
        VirtioNetHeader {
            flags: 0,
            gso_type: VIRTIO_NET_HDR_GSO_NONE,
            hdr_len: VIRTIO_NET_HDR_SIZE as u16,
            gso_size: 0,
            csum_start: 0,
            csum_offset: 0,
        }
    }

    /// The header of a plain packet (see `spec_new`).
    pub fn new() -> (h: Self)
        ensures
            h == Self::spec_new(),
    {
        Self {
            flags: 0,
            gso_type: VIRTIO_NET_HDR_GSO_NONE,
            hdr_len: VIRTIO_NET_HDR_SIZE as u16,
            gso_size: 0,
            csum_start: 0,
            csum_offset: 0,
        }
    }

    /// Whether the packet needs a checksum.
    pub fn needs_checksum(&self) -> (b: bool)
        ensures
            b == (self.flags & VIRTIO_NET_HDR_F_NEEDS_CSUM != 0),
    {
        (self.flags & VIRTIO_NET_HDR_F_NEEDS_CSUM) != 0
    }

    /// Sets or clears the needs-checksum flag, keeping the other flags.
    pub fn set_needs_checksum(&mut self, needs: bool)
        ensures
            final(self).flags & VIRTIO_NET_HDR_F_NEEDS_CSUM == (if needs {
                VIRTIO_NET_HDR_F_NEEDS_CSUM
            } else {
                0u8
            }),
            final(self).flags & !VIRTIO_NET_HDR_F_NEEDS_CSUM == old(self).flags & !VIRTIO_NET_HDR_F_NEEDS_CSUM,
            *final(self) == (VirtioNetHeader { flags: final(self).flags, ..*old(self) }),
    {
        self.flags = set_flag8(self.flags, VIRTIO_NET_HDR_F_NEEDS_CSUM, needs);
    }

    /// Whether the packet's data is valid.
    pub fn data_valid(&self) -> (b: bool)
        ensures
            b == (self.flags & VIRTIO_NET_HDR_F_DATA_VALID != 0),
    {
        (self.flags & VIRTIO_NET_HDR_F_DATA_VALID) != 0
    }

    /// Sets or clears the data-valid flag, keeping the other flags.
    pub fn set_data_valid(&mut self, valid: bool)
        ensures
            final(self).flags & VIRTIO_NET_HDR_F_DATA_VALID == (if valid {
                VIRTIO_NET_HDR_F_DATA_VALID
            } else {
                0u8
            }),
            final(self).flags & !VIRTIO_NET_HDR_F_DATA_VALID == old(self).flags & !VIRTIO_NET_HDR_F_DATA_VALID,
            *final(self) == (VirtioNetHeader { flags: final(self).flags, ..*old(self) }),
    {
        self.flags = set_flag8(self.flags, VIRTIO_NET_HDR_F_DATA_VALID, valid);
    }

    /// The header as bytes (see `spec_bytes`).
    pub fn as_bytes(&self) -> (b: Vec<u8>)
        ensures
            b@ == self.spec_bytes(),
    {
        let mut b: Vec<u8> = Vec::with_capacity(VIRTIO_NET_HDR_SIZE);
        b.push(self.flags);
        b.push(self.gso_type);
        b.push((self.hdr_len % 0x100) as u8);
        b.push((self.hdr_len / 0x100) as u8);
        b.push((self.gso_size % 0x100) as u8);
        b.push((self.gso_size / 0x100) as u8);
        b.push((self.csum_start % 0x100) as u8);
        b.push((self.csum_start / 0x100) as u8);
        b.push((self.csum_offset % 0x100) as u8);
        b.push((self.csum_offset / 0x100) as u8);
        proof {
            assert(b@ =~= self.spec_bytes());
        }
        b
    }

    /// The header at the start of `bytes`; refused (`InvalidRequest`) when
    /// fewer than ten bytes are given.
    pub fn from_bytes(bytes: &[u8]) -> (r: VirtioResult<Self>)
        ensures
            r == (if bytes@.len() < VIRTIO_NET_HDR_SIZE {
                Err(VirtioError::InvalidRequest)
            } else {
                Ok(header_from_bytes(bytes@))
            }),
    {
        if bytes.len() < VIRTIO_NET_HDR_SIZE {
            return Err(VirtioError::InvalidRequest);
        }
        Ok(
            Self {
                flags: bytes[0],
                gso_type: bytes[1],
                hdr_len: (bytes[2] as u16) + (bytes[3] as u16) * 0x100,
                gso_size: (bytes[4] as u16) + (bytes[5] as u16) * 0x100,
                csum_start: (bytes[6] as u16) + (bytes[7] as u16) * 0x100,
                csum_offset: (bytes[8] as u16) + (bytes[9] as u16) * 0x100,
            },
        )
    }
}

impl Default for VirtioNetHeader {
    /// The header of a plain packet.
    fn default() -> (h: Self)
        ensures
            h == Self::spec_new(),
    {
        Self::new()
    }
}

/// Decoding the bytes of a header gives the header back.
pub proof fn lemma_header_round_trip(h: VirtioNetHeader)
    ensures
        h.spec_bytes().len() == VIRTIO_NET_HDR_SIZE,
        header_from_bytes(h.spec_bytes()) == h,
{
    crate::memory::lemma_le16_round_trip(h.hdr_len);
    crate::memory::lemma_le16_round_trip(h.gso_size);
    crate::memory::lemma_le16_round_trip(h.csum_start);
    crate::memory::lemma_le16_round_trip(h.csum_offset);
    let b = h.spec_bytes();
    assert(b[2] == le16_bytes(h.hdr_len)[0] && b[3] == le16_bytes(h.hdr_len)[1]);
    assert(b[4] == le16_bytes(h.gso_size)[0] && b[5] == le16_bytes(h.gso_size)[1]);
    assert(b[6] == le16_bytes(h.csum_start)[0] && b[7] == le16_bytes(h.csum_start)[1]);
    assert(b[8] == le16_bytes(h.csum_offset)[0] && b[9] == le16_bytes(h.csum_offset)[1]);
}

/// A network packet buffer: the VirtIO header followed by the Ethernet frame.
pub struct PacketBuffer {
    /// Packet data including header
    data: Vec<u8>,
}

impl View for PacketBuffer {
    type V = Seq<u8>;

    closed spec fn view(&self) -> Seq<u8> {
        self.data@
    }
}

impl PacketBuffer {
    /// An empty buffer.
    pub fn new() -> (p: Self)
        ensures
            p@ == Seq::<u8>::empty(),
    {
        Self { data: Vec::new() }
    }

    /// An empty buffer with room for `capacity` bytes.
    pub fn with_capacity(capacity: usize) -> (p: Self)
        ensures
            p@ == Seq::<u8>::empty(),
    {
        Self { data: Vec::with_capacity(capacity) }
    }

    /// A buffer holding `data`.
    pub fn from_data(data: Vec<u8>) -> (p: Self)
        ensures
            p@ == data@,
    {
        Self { data }
    }

    /// The packet's bytes.
    pub fn data(&self) -> (s: &[u8])
        ensures
            s@ == self@,
    {
        self.data.as_slice()
    }

    /// The packet's bytes, to change in place.
    pub fn data_mut(&mut self) -> (v: &mut Vec<u8>)
        ensures
            v@ == old(self)@,
            final(self)@ == final(v)@,
    {
        &mut self.data
    }

    /// The packet's length.
    pub fn len(&self) -> (n: usize)
        ensures
            n == self@.len(),
    {
        self.data.len()
    }

    /// Whether the packet is empty.
    pub fn is_empty(&self) -> (b: bool)
        ensures
            b == (self@.len() == 0),
    {
        self.data.len() == 0
    }

    /// Empties the packet.
    pub fn clear(&mut self)
        ensures
            final(self)@ == Seq::<u8>::empty(),
    {
        self.data.clear();
    }

    /// Makes room for `additional` more bytes; the contents stay.
    pub fn reserve(&mut self, additional: usize)
        ensures
            final(self)@ == old(self)@,
    {
        self.data.reserve(additional);
    }

    /// Appends `data` to the packet.
    pub fn extend_from_slice(&mut self, data: &[u8])
        ensures
            final(self)@ == old(self)@ + data@,
    {
        let mut i: usize = 0;
        let ghost d0 = self@;
        while i < data.len()
            invariant
                i <= data@.len(),
                self@ == d0 + data@.subrange(0, i as int),
            decreases data@.len() - i,
        {
            self.data.push(data[i]);
            i = i + 1;
            proof {
                assert(self@ =~= d0 + data@.subrange(0, i as int));
            }
        }
        proof {
            assert(data@.subrange(0, data@.len() as int) =~= data@);
        }
    }

    /// The VirtIO header at the start of the packet; refused
    /// (`InvalidRequest`) when the packet is shorter than a header.
    pub fn get_virtio_header(&self) -> (r: VirtioResult<VirtioNetHeader>)
        ensures
            r == (if self@.len() < VIRTIO_NET_HDR_SIZE {
                Err(VirtioError::InvalidRequest)
            } else {
                Ok(header_from_bytes(self@))
            }),
    {
        if self.data.len() < VIRTIO_NET_HDR_SIZE {
            return Err(VirtioError::InvalidRequest);
        }
        let head = vstd::slice::slice_subrange(self.data.as_slice(), 0, VIRTIO_NET_HDR_SIZE);
        VirtioNetHeader::from_bytes(head)
    }

    /// Writes `header` over the first ten bytes, growing a shorter packet
    /// with zeros first.
    pub fn set_virtio_header(&mut self, header: &VirtioNetHeader)
        ensures
            final(self)@ == header.spec_bytes() + (if old(self)@.len() > VIRTIO_NET_HDR_SIZE {
                old(self)@.subrange(VIRTIO_NET_HDR_SIZE as int, old(self)@.len() as int)
            } else {
                Seq::<u8>::empty()
            }),
    {
        let ghost d0 = self@;
        while self.data.len() < VIRTIO_NET_HDR_SIZE
            invariant
                d0.len() <= VIRTIO_NET_HDR_SIZE ==> self@.len() <= VIRTIO_NET_HDR_SIZE,
                d0.len() >= VIRTIO_NET_HDR_SIZE ==> self@ == d0,
                self@.len() >= d0.len(),
            decreases VIRTIO_NET_HDR_SIZE - self.data@.len(),
        {
            self.data.push(0u8);
        }
        let bytes = header.as_bytes();
        let mut i: usize = 0;
        let ghost d1 = self@;
        while i < VIRTIO_NET_HDR_SIZE
            invariant
                i <= VIRTIO_NET_HDR_SIZE,
                bytes@ == header.spec_bytes(),
                bytes@.len() == VIRTIO_NET_HDR_SIZE,
                d1.len() >= VIRTIO_NET_HDR_SIZE,
                self@.len() == d1.len(),
                forall|k: int| 0 <= k < i ==> self@[k] == bytes@[k],
                forall|k: int| i <= k < d1.len() ==> self@[k] == d1[k],
            decreases VIRTIO_NET_HDR_SIZE - i,
        {
            self.data.set(i, bytes[i]);
            i = i + 1;
        }
        proof {
            if d0.len() > VIRTIO_NET_HDR_SIZE {
                assert(d1 == d0);
            } else {
                assert(d1.len() == VIRTIO_NET_HDR_SIZE);
            }
            assert(self@ =~= header.spec_bytes() + (if d0.len() > VIRTIO_NET_HDR_SIZE {
                d0.subrange(VIRTIO_NET_HDR_SIZE as int, d0.len() as int)
            } else {
                Seq::<u8>::empty()
            }));
        }
    }

    /// The Ethernet frame: the bytes after the header (none if there are none).
    pub fn ethernet_payload(&self) -> (s: &[u8])
        ensures
            s@ == (if self@.len() > VIRTIO_NET_HDR_SIZE {
                self@.subrange(VIRTIO_NET_HDR_SIZE as int, self@.len() as int)
            } else {
                Seq::<u8>::empty()
            }),
    {
        if self.data.len() > VIRTIO_NET_HDR_SIZE {
            vstd::slice::slice_subrange(self.data.as_slice(), VIRTIO_NET_HDR_SIZE, self.data.len())
        } else {
            vstd::slice::slice_subrange(self.data.as_slice(), 0, 0)
        }
    }

    /// The Ethernet frame, to change in place.
    pub fn ethernet_payload_mut(&mut self) -> (s: &mut [u8])
        ensures
            old(self)@.len() > VIRTIO_NET_HDR_SIZE ==> {
                &&& s@ == old(self)@.subrange(VIRTIO_NET_HDR_SIZE as int, old(self)@.len() as int)
                &&& final(self)@ == old(self)@.subrange(0, VIRTIO_NET_HDR_SIZE as int) + final(s)@
            },
            old(self)@.len() <= VIRTIO_NET_HDR_SIZE ==> s@.len() == 0 && final(self)@ == old(self)@.subrange(
                0,
                old(self)@.len() as int,
            ) + final(s)@,
    {
        let n = self.data.len();
        let at = if n > VIRTIO_NET_HDR_SIZE {
            VIRTIO_NET_HDR_SIZE
        } else {
            n
        };
        let (_head, tail) = self.data.as_mut_slice().split_at_mut(at);
        tail
    }

    /// Checks the packet's length (see `packet_len_valid`); refused with
    /// `InvalidRequest` otherwise.
    pub fn validate(&self) -> (r: VirtioResult<()>)
        ensures
            r == (if packet_len_valid(self@.len() as int) {
                Ok(())
            } else {
                Err(VirtioError::InvalidRequest)
            }),
    {
        if self.data.len() < VIRTIO_NET_HDR_SIZE {
            return Err(VirtioError::InvalidRequest);
        }
        let ethernet_len = self.data.len() - VIRTIO_NET_HDR_SIZE;
        if ethernet_len > VIRTIO_NET_MAX_PACKET_SIZE {
            return Err(VirtioError::InvalidRequest);
        }
        if ethernet_len > 0 && ethernet_len < VIRTIO_NET_MIN_PACKET_SIZE {
            return Err(VirtioError::InvalidRequest);
        }
        Ok(())
    }
}

impl Default for PacketBuffer {
    /// An empty buffer.
    fn default() -> (p: Self)
        ensures
            p@ == Seq::<u8>::empty(),
    {
        Self::new()
    }
}

/// A network packet.
pub struct NetPacket {
    /// Packet buffer
    buffer: PacketBuffer,
}

impl View for NetPacket {
    type V = Seq<u8>;

    closed spec fn view(&self) -> Seq<u8> {
        self.buffer@
    }
}

impl NetPacket {
    /// An empty packet.
    pub fn new() -> (p: Self)
        ensures
            p@ == Seq::<u8>::empty(),
    {
        Self { buffer: PacketBuffer::new() }
    }

    /// A packet holding `data`.
    pub fn from_raw(data: Vec<u8>) -> (p: Self)
        ensures
            p@ == data@,
    {
        Self { buffer: PacketBuffer::from_data(data) }
    }

    /// The packet's buffer.
    pub fn buffer(&self) -> (b: &PacketBuffer)
        ensures
            b@ == self@,
    {
        &self.buffer
    }

    /// The packet's buffer, to change in place.
    pub fn buffer_mut(&mut self) -> (b: &mut PacketBuffer)
        ensures
            b@ == old(self)@,
            final(self)@ == final(b)@,
    {
        &mut self.buffer
    }

    /// Readies the packet for transmission: gives a packet shorter than a
    /// header a plain header, then validates it.
    pub fn prepare_for_tx(&mut self) -> (r: VirtioResult<()>)
        ensures
            final(self)@ == (if old(self)@.len() < VIRTIO_NET_HDR_SIZE {
                VirtioNetHeader::spec_new().spec_bytes()
            } else {
                old(self)@
            }),
            r == (if packet_len_valid(final(self)@.len() as int) {
                Ok(())
            } else {
                Err(VirtioError::InvalidRequest)
            }),
    {
        if self.buffer.len() < VIRTIO_NET_HDR_SIZE {
            let header = VirtioNetHeader::new();
            self.buffer.set_virtio_header(&header);
        }
        self.buffer.validate()
    }

    /// Readies the packet for reception of `ethernet_data`: a plain header
    /// followed by the frame, then validated.
    pub fn prepare_for_rx(&mut self, ethernet_data: &[u8]) -> (r: VirtioResult<()>)
        ensures
            final(self)@ == VirtioNetHeader::spec_new().spec_bytes() + ethernet_data@,
            r == (if packet_len_valid(final(self)@.len() as int) {
                Ok(())
            } else {
                Err(VirtioError::InvalidRequest)
            }),
    {
        self.buffer.clear();
        let header = VirtioNetHeader::new();
        self.buffer.set_virtio_header(&header);
        self.buffer.extend_from_slice(ethernet_data);
        self.buffer.validate()
    }
}

impl Default for NetPacket {
    /// An empty packet.
    fn default() -> (p: Self)
        ensures
            p@ == Seq::<u8>::empty(),
    {
        Self::new()
    }
}

} // verus!
