//! Network backends: the interface through which the network device
//! reaches the host's network, a TAP interface, and a loopback in memory.

use crate::config::{decimal, push_decimal};
use crate::error::{VirtioError, VirtioResult};
use crate::net::constants::{ETHERNET_HEADER_SIZE, VIRTIO_NET_DEFAULT_MTU};
use std::collections::VecDeque;
use vstd::prelude::*;

verus! {

/// A network backend: sends and receives Ethernet frames for the device.
pub trait NetworkBackend: Send + Sync {
    /// Sends a frame to the network.
    fn send_packet(&mut self, packet: &[u8]) -> (r: VirtioResult<()>);

    /// Receives a frame into `buffer`; returns its length (0 when none is waiting).
    fn receive_packet(&mut self, buffer: &mut [u8]) -> (r: VirtioResult<usize>)
        ensures
            r is Ok ==> r->Ok_0 <= old(buffer)@.len(),
            final(buffer)@.len() == old(buffer)@.len(),
    ;

    /// The interface's MAC address, as a value.
    spec fn spec_mac_address(&self) -> Seq<u8>;

    /// The interface's MAC address.
    fn get_mac_address(&self) -> (mac: [u8; 6])
        ensures
            mac@ == self.spec_mac_address(),
    ;

    /// Changes the interface's MAC address.
    fn set_mac_address(&self, mac: [u8; 6]) -> (r: VirtioResult<()>);

    /// Whether the link is up.
    fn is_link_up(&self) -> (b: bool);

    /// Brings the link up or down.
    fn set_link_up(&self, up: bool) -> (r: VirtioResult<()>);

    /// The interface's MTU.
    fn get_mtu(&self) -> (mtu: u16);

    /// Changes the interface's MTU.
    fn set_mtu(&self, mtu: u16) -> (r: VirtioResult<()>);

    /// Whether the backend can run in promiscuous mode; by default not.
    fn supports_promiscuous(&self) -> (b: bool)
        default_ensures
            !b,
    {
        false
    }

    /// Switches promiscuous mode; by default switching it on is refused
    /// (`NotSupported`) where the backend does not support it.
    fn set_promiscuous(&self, enabled: bool) -> (r: VirtioResult<()>)
        default_ensures
            !enabled ==> r == Ok::<(), VirtioError>(()),
            r is Err ==> enabled && r == Err::<(), VirtioError>(VirtioError::NotSupported),
    {
        if enabled && !self.supports_promiscuous() {
            return Err(VirtioError::NotSupported);
        }
        Ok(())
    }

    /// Whether frames are waiting; by default never.
    fn has_pending_packets(&self) -> (b: bool)
        default_ensures
            !b,
    {
        false
    }

    /// (frames sent, frames received, bytes sent, bytes received); by
    /// default not counted.
    fn get_statistics(&self) -> (s: (u64, u64, u64, u64))
        default_ensures
            s == (0u64, 0u64, 0u64, 0u64),
    {
        (0, 0, 0, 0)
    }

    /// Clears the statistics.
    fn reset_statistics(&mut self) -> (r: VirtioResult<()>)
        default_ensures
            r is Ok,
    {
        Ok(())
    }
}

/// The MAC address a backend of device `device_index` gets: 52:54:00:12:34
/// and then 0x56 plus the index (modulo 256).
pub open spec fn backend_mac(device_index: usize) -> Seq<u8> {
    seq![0x52u8, 0x54, 0x00, 0x12, 0x34, ((0x56 + device_index % 0x100) % 0x100) as u8]
}

/// Builds the MAC address of device `device_index`.
fn make_mac(device_index: usize) -> (mac: [u8; 6])
    ensures
        mac@ == backend_mac(device_index),
{
    let low = (device_index % 0x100) as u8;
    let mac = [0x52, 0x54, 0x00, 0x12, 0x34, low.wrapping_add(0x56)];
    assert(mac@ =~= backend_mac(device_index));
    mac
}

/// Whether a frame of `len` bytes fits an MTU of `mtu`.
pub open spec fn fits_mtu(len: int, mtu: u16) -> bool {
    len <= mtu + ETHERNET_HEADER_SIZE
}

/// The MTU bounds a frame's payload, not its Ethernet header: a frame of a
/// 14-byte header and a payload of `payload` bytes fits an MTU of `mtu`
/// exactly when the payload does, so a full-size frame (`mtu + 14` bytes) is
/// accepted and one byte more is refused.
pub proof fn lemma_mtu_bounds_payload(payload: int, mtu: u16)
    requires
        0 <= payload,
    ensures
        fits_mtu(14 + payload, mtu) <==> payload <= mtu,
        fits_mtu(mtu + 14, mtu),
        !fits_mtu(mtu + 15, mtu),
{
}

/// A backend that stands for a TAP interface on the host: frames are
/// accepted once the link is up, none ever arrive.
pub struct TapNetworkBackend {
    /// Device index
    device_index: usize,
    /// TAP interface name
    interface_name: String,
    /// MAC address
    mac_address: [u8; 6],
    /// Link status
    link_up: bool,
    /// MTU size
    mtu: u16,
}

impl TapNetworkBackend {
    /// Whether the link is up.
    pub closed spec fn spec_link_up(&self) -> bool {
        self.link_up
    }

    /// The interface name.
    pub closed spec fn spec_interface_name(&self) -> Seq<char> {
        self.interface_name@
    }

    /// The MAC address.
    pub closed spec fn spec_mac(&self) -> Seq<u8> {
        self.mac_address@
    }

    /// The MTU.
    pub closed spec fn spec_mtu(&self) -> u16 {
        self.mtu
    }

    /// The backend of device `device_index`: interface `tap{index}`, its MAC
    /// address, the default MTU, the link down until initialised.
    pub fn new(device_index: usize) -> (r: VirtioResult<Self>)
        ensures
            r is Ok,
            r->Ok_0.spec_interface_name() == "tap"@ + decimal(device_index as nat),
            r->Ok_0.spec_mac() == backend_mac(device_index),
            r->Ok_0.spec_mtu() == VIRTIO_NET_DEFAULT_MTU,
            !r->Ok_0.spec_link_up(),
    {
        let mut interface_name = String::from_str("tap");
        push_decimal(&mut interface_name, device_index);
        let mac_address = make_mac(device_index);
        Ok(Self { device_index, interface_name, mac_address, link_up: false, mtu: VIRTIO_NET_DEFAULT_MTU })
    }

    /// The interface name.
    pub fn interface_name(&self) -> (s: &str)
        ensures
            s@ == self.spec_interface_name(),
    {
        self.interface_name.as_str()
    }

    /// Sets the interface up; from now on the link is up.
    pub fn initialize(&mut self) -> (r: VirtioResult<()>)
        ensures
            r is Ok,
            final(self).spec_link_up(),
            final(self).spec_interface_name() == old(self).spec_interface_name(),
            final(self).spec_mac() == old(self).spec_mac(),
            final(self).spec_mtu() == old(self).spec_mtu(),
    {
        self.link_up = true;
        Ok(())
    }
}

impl NetworkBackend for TapNetworkBackend {
    closed spec fn spec_mac_address(&self) -> Seq<u8> {
        self.mac_address@
    }

    fn send_packet(&mut self, packet: &[u8]) -> (r: VirtioResult<()>)
        ensures
            r == (if !old(self).spec_link_up() {
                Err(VirtioError::DeviceNotReady)
            } else if !fits_mtu(packet@.len() as int, old(self).spec_mtu()) {
                Err(VirtioError::InvalidRequest)
            } else {
                Ok(())
            }),
            *final(self) == *old(self),
    {
        if !self.link_up {
            return Err(VirtioError::DeviceNotReady);
        }
        if packet.len() > self.mtu as usize + ETHERNET_HEADER_SIZE {
            return Err(VirtioError::InvalidRequest);
        }
        Ok(())
    }

    fn receive_packet(&mut self, buffer: &mut [u8]) -> (r: VirtioResult<usize>)
        ensures
            r == Ok::<usize, VirtioError>(0),
            final(buffer)@ == old(buffer)@,
            *final(self) == *old(self),
    {
        Ok(0)
    }

    fn get_mac_address(&self) -> (mac: [u8; 6])
        ensures
            mac@ == self.spec_mac(),
    {
        self.mac_address
    }

    fn set_mac_address(&self, mac: [u8; 6]) -> (r: VirtioResult<()>)
        ensures
            r is Ok,
    {
        Ok(())
    }

    fn is_link_up(&self) -> (b: bool)
        ensures
            b == self.spec_link_up(),
    {
        self.link_up
    }

    fn set_link_up(&self, up: bool) -> (r: VirtioResult<()>)
        ensures
            r is Ok,
    {
        Ok(())
    }

    fn get_mtu(&self) -> (mtu: u16)
        ensures
            mtu == self.spec_mtu(),
    {
        self.mtu
    }

    fn set_mtu(&self, mtu: u16) -> (r: VirtioResult<()>)
        ensures
            r == (if mtu < 68 || mtu > 9000 {
                Err(VirtioError::InvalidRequest)
            } else {
                Ok(())
            }),
    {
        if mtu < 68 || mtu > 9000 {
            return Err(VirtioError::InvalidRequest);
        }
        Ok(())
    }

    fn supports_promiscuous(&self) -> (b: bool)
        ensures
            b,
    {
        true
    }

    fn set_promiscuous(&self, enabled: bool) -> (r: VirtioResult<()>)
        ensures
            r is Ok,
    {
        Ok(())
    }

    fn has_pending_packets(&self) -> (b: bool)
        ensures
            !b,
    {
        false
    }
}

/// Statistics of the memory backend.
#[derive(Debug, Default)]
struct NetworkStats {
    packets_sent: u64,
    packets_received: u64,
    bytes_sent: u64,
    bytes_received: u64,
}

/// A frame with its destination and source MAC addresses swapped.
pub open spec fn swap_macs(p: Seq<u8>) -> Seq<u8> {
    p.subrange(6, 12) + p.subrange(0, 6) + p.subrange(12, p.len() as int)
}

/// A network backend in memory for tests and simulation: a sent frame comes
/// back, with its MAC addresses swapped, as the next frame received.
pub struct MemoryNetworkBackend {
    /// Device index
    device_index: usize,
    /// MAC address
    mac_address: [u8; 6],
    /// Link status
    link_up: bool,
    /// MTU size
    mtu: u16,
    /// The frames waiting to be received
    packet_queue: VecDeque<Vec<u8>>,
    /// Statistics
    stats: NetworkStats,
}

impl MemoryNetworkBackend {
    /// The frames waiting to be received, oldest first.
    pub closed spec fn queued(&self) -> Seq<Seq<u8>> {
        self.packet_queue@.map_values(|p: Vec<u8>| p@)
    }

    /// The MAC address.
    pub closed spec fn spec_mac(&self) -> Seq<u8> {
        self.mac_address@
    }

    /// Whether the link is up.
    pub closed spec fn spec_link_up(&self) -> bool {
        self.link_up
    }

    /// The MTU.
    pub closed spec fn spec_mtu(&self) -> u16 {
        self.mtu
    }

    /// (frames sent, frames received, bytes sent, bytes received).
    pub closed spec fn spec_stats(&self) -> (u64, u64, u64, u64) {
        (self.stats.packets_sent, self.stats.packets_received, self.stats.bytes_sent, self.stats.bytes_received)
    }

    /// The backend of device `device_index`: its MAC address, the link up,
    /// the default MTU, no frames waiting, statistics at 0.
    pub fn new(device_index: usize) -> (b: Self)
        ensures
            b.spec_mac() == backend_mac(device_index),
            b.spec_link_up(),
            b.spec_mtu() == VIRTIO_NET_DEFAULT_MTU,
            b.queued() == Seq::<Seq<u8>>::empty(),
            b.spec_stats() == (0u64, 0u64, 0u64, 0u64),
    {
        let mac_address = make_mac(device_index);
        let b = Self {
            device_index,
            mac_address,
            link_up: true,
            mtu: VIRTIO_NET_DEFAULT_MTU,
            packet_queue: VecDeque::new(),
            stats: NetworkStats { packets_sent: 0, packets_received: 0, bytes_sent: 0, bytes_received: 0 },
        };
        assert(b.queued() =~= Seq::<Seq<u8>>::empty());
        b
    }

    /// Queues a frame to be received.
    pub fn inject_packet(&mut self, packet: Vec<u8>)
        ensures
            final(self).queued() == old(self).queued().push(packet@),
            final(self).spec_mac() == old(self).spec_mac(),
            final(self).spec_link_up() == old(self).spec_link_up(),
            final(self).spec_mtu() == old(self).spec_mtu(),
            final(self).spec_stats() == old(self).spec_stats(),
    {
        self.packet_queue.push_back(packet);
        assert(self.queued() =~= old(self).queued().push(packet@));
    }

    /// The number of frames waiting.
    pub fn packet_count(&self) -> (n: usize)
        ensures
            n == self.queued().len(),
    {
        self.packet_queue.len()
    }

    /// Drops every waiting frame.
    pub fn clear_packets(&mut self)
        ensures
            final(self).queued() == Seq::<Seq<u8>>::empty(),
            final(self).spec_mac() == old(self).spec_mac(),
            final(self).spec_link_up() == old(self).spec_link_up(),
            final(self).spec_mtu() == old(self).spec_mtu(),
            final(self).spec_stats() == old(self).spec_stats(),
    {
        self.packet_queue.clear();
        assert(self.queued() =~= Seq::<Seq<u8>>::empty());
    }
}

impl NetworkBackend for MemoryNetworkBackend {
    closed spec fn spec_mac_address(&self) -> Seq<u8> {
        self.mac_address@
    }

    fn send_packet(&mut self, packet: &[u8]) -> (r: VirtioResult<()>)
        ensures
            r == (if !old(self).spec_link_up() {
                Err(VirtioError::DeviceNotReady)
            } else if !fits_mtu(packet@.len() as int, old(self).spec_mtu()) {
                Err(VirtioError::InvalidRequest)
            } else {
                Ok(())
            }),
            final(self).queued() == (if r is Ok && packet@.len() >= ETHERNET_HEADER_SIZE {
                old(self).queued().push(swap_macs(packet@))
            } else {
                old(self).queued()
            }),
            final(self).spec_mac() == old(self).spec_mac(),
            final(self).spec_link_up() == old(self).spec_link_up(),
            final(self).spec_mtu() == old(self).spec_mtu(),
    {
        if !self.link_up {
            return Err(VirtioError::DeviceNotReady);
        }
        if packet.len() > self.mtu as usize + ETHERNET_HEADER_SIZE {
            return Err(VirtioError::InvalidRequest);
        }
        self.stats.packets_sent = self.stats.packets_sent.wrapping_add(1);
        self.stats.bytes_sent = self.stats.bytes_sent.wrapping_add(packet.len() as u64);
        if packet.len() >= ETHERNET_HEADER_SIZE {
            let mut loopback_packet: Vec<u8> = Vec::new();
            let mut k: usize = 0;
            while k < packet.len()
                invariant
                    k <= packet@.len(),
                    loopback_packet@ == packet@.subrange(0, k as int),
                decreases packet@.len() - k,
            {
                loopback_packet.push(packet[k]);
                k = k + 1;
                proof {
                    assert(loopback_packet@ =~= packet@.subrange(0, k as int));
                }
            }
            let ghost p = packet@;
            let mut i: usize = 0;
            while i < 6
                invariant
                    i <= 6,
                    p == packet@,
                    p.len() >= 12,
                    loopback_packet@.len() == p.len(),
                    forall|j: int| 0 <= j < i ==> #[trigger] loopback_packet@[j] == p[j + 6] && loopback_packet@[
                        j + 6] == p[j],
                    forall|j: int| i <= j < 6 ==> #[trigger] loopback_packet@[j] == p[j] && loopback_packet@[j
                        + 6] == p[j + 6],
                    forall|j: int| 12 <= j < p.len() ==> loopback_packet@[j] == p[j],
                decreases 6 - i,
            {
                let a = loopback_packet[i];
                let b = loopback_packet[i + 6];
                loopback_packet.set(i, b);
                loopback_packet.set(i + 6, a);
                i = i + 1;
            }
            proof {
                assert forall|k: int| 0 <= k < p.len() implies loopback_packet@[k] == #[trigger] swap_macs(p)[k] by {
                    if 6 <= k < 12 {
                        let j = k - 6;
                        assert(loopback_packet@[j] == p[j + 6]);
                    }
                }
                assert(loopback_packet@ =~= swap_macs(p));
            }
            self.inject_packet(loopback_packet);
        }
        Ok(())
    }

    fn receive_packet(&mut self, buffer: &mut [u8]) -> (r: VirtioResult<usize>)
        ensures
            !old(self).spec_link_up() || old(self).queued().len() == 0 ==> r == Ok::<usize, VirtioError>(0)
                && final(self).queued() == old(self).queued() && final(buffer)@ == old(buffer)@,
            old(self).spec_link_up() && old(self).queued().len() > 0 ==> {
                let p = old(self).queued()[0];
                let n = if p.len() < old(buffer)@.len() {
                    p.len()
                } else {
                    old(buffer)@.len()
                };
                &&& r == Ok::<usize, VirtioError>(n as usize)
                &&& final(self).queued() == old(self).queued().drop_first()
                &&& final(buffer)@ == p.subrange(0, n as int) + old(buffer)@.subrange(
                    n as int,
                    old(buffer)@.len() as int,
                )
            },
            final(self).spec_mac() == old(self).spec_mac(),
            final(self).spec_link_up() == old(self).spec_link_up(),
            final(self).spec_mtu() == old(self).spec_mtu(),
    {
        if !self.link_up {
            return Ok(0);
        }
        let ghost q0 = self.queued();
        match self.packet_queue.pop_front() {
            Some(packet) => {
                proof {
                    assert(self.queued() =~= q0.drop_first());
                }
                let len = if packet.len() < buffer.len() {
                    packet.len()
                } else {
                    buffer.len()
                };
                let ghost b0 = buffer@;
                let mut i: usize = 0;
                while i < len
                    invariant
                        i <= len,
                        len <= packet@.len(),
                        len <= b0.len(),
                        buffer@.len() == b0.len(),
                        forall|k: int| 0 <= k < i ==> buffer@[k] == packet@[k],
                        forall|k: int| i <= k < b0.len() ==> buffer@[k] == b0[k],
                    decreases len - i,
                {
                    buffer[i] = packet[i];
                    i = i + 1;
                }
                proof {
                    assert(buffer@ =~= packet@.subrange(0, len as int) + b0.subrange(len as int, b0.len() as int));
                }
                self.stats.packets_received = self.stats.packets_received.wrapping_add(1);
                self.stats.bytes_received = self.stats.bytes_received.wrapping_add(len as u64);
                Ok(len)
            },
            None => Ok(0),
        }
    }

    fn get_mac_address(&self) -> (mac: [u8; 6])
        ensures
            mac@ == self.spec_mac(),
    {
        self.mac_address
    }

    fn set_mac_address(&self, _mac: [u8; 6]) -> (r: VirtioResult<()>)
        ensures
            r == Err::<(), VirtioError>(VirtioError::NotSupported),
    {
        Err(VirtioError::NotSupported)
    }

    fn is_link_up(&self) -> (b: bool)
        ensures
            b == self.spec_link_up(),
    {
        self.link_up
    }

    fn set_link_up(&self, _up: bool) -> (r: VirtioResult<()>)
        ensures
            r is Ok,
    {
        Ok(())
    }

    fn get_mtu(&self) -> (mtu: u16)
        ensures
            mtu == self.spec_mtu(),
    {
        self.mtu
    }

    fn set_mtu(&self, mtu: u16) -> (r: VirtioResult<()>)
        ensures
            r == (if mtu < 68 || mtu > 9000 {
                Err(VirtioError::InvalidRequest)
            } else {
                Ok(())
            }),
    {
        if mtu < 68 || mtu > 9000 {
            return Err(VirtioError::InvalidRequest);
        }
        Ok(())
    }

    fn has_pending_packets(&self) -> (b: bool)
        ensures
            b == (self.queued().len() > 0),
    {
        self.packet_queue.len() > 0
    }

    fn get_statistics(&self) -> (s: (u64, u64, u64, u64))
        ensures
            s == self.spec_stats(),
    {
        (self.stats.packets_sent, self.stats.packets_received, self.stats.bytes_sent, self.stats.bytes_received)
    }

    fn reset_statistics(&mut self) -> (r: VirtioResult<()>)
        ensures
            r is Ok,
            final(self).spec_stats() == (0u64, 0u64, 0u64, 0u64),
            final(self).queued() == old(self).queued(),
    {
        self.stats = NetworkStats { packets_sent: 0, packets_received: 0, bytes_sent: 0, bytes_received: 0 };
        Ok(())
    }
}

/// A frame sent on the memory backend comes back, MAC addresses swapped,
/// from the next receive into a buffer large enough for it.
pub proof fn lemma_loopback_swaps_back(p: Seq<u8>)
    requires
        p.len() >= ETHERNET_HEADER_SIZE,
    ensures
        swap_macs(swap_macs(p)) == p,
        swap_macs(p).len() == p.len(),
{
    assert(swap_macs(swap_macs(p)) =~= p);
}

/// The backend a network device gets when none is given: the memory
/// backend of its device index.
pub fn create_default_backend(device_index: usize) -> (r: VirtioResult<MemoryNetworkBackend>)
    ensures
        r is Ok,
        r->Ok_0.spec_mac() == backend_mac(device_index),
        r->Ok_0.spec_mac_address() == backend_mac(device_index),
        r->Ok_0.spec_link_up(),
        r->Ok_0.queued() == Seq::<Seq<u8>>::empty(),
{
    Ok(MemoryNetworkBackend::new(device_index))
}

} // verus!
