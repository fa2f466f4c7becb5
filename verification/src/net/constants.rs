//! Constants of the VirtIO network device (VirtIO 1.1, section 5.1).

use vstd::prelude::*;

verus! {

/// Feature: checksum offload to the device.
pub const VIRTIO_NET_F_CSUM: u64 = 0x1;

/// Feature: checksum offload to the guest.
pub const VIRTIO_NET_F_GUEST_CSUM: u64 = 0x2;

/// Feature: the device has a MAC address.
pub const VIRTIO_NET_F_MAC: u64 = 0x20;

/// Feature: the guest takes TSO over IPv4.
pub const VIRTIO_NET_F_GUEST_TSO4: u64 = 0x80;

/// Feature: the guest takes TSO over IPv6.
pub const VIRTIO_NET_F_GUEST_TSO6: u64 = 0x100;

/// Feature: the guest takes UFO.
pub const VIRTIO_NET_F_GUEST_UFO: u64 = 0x400;

/// Feature: the device takes TSO over IPv4.
pub const VIRTIO_NET_F_HOST_TSO4: u64 = 0x800;

/// Feature: the device takes TSO over IPv6.
pub const VIRTIO_NET_F_HOST_TSO6: u64 = 0x1000;

/// Feature: the device takes UFO.
pub const VIRTIO_NET_F_HOST_UFO: u64 = 0x4000;

/// Feature: the configuration has a status field.
pub const VIRTIO_NET_F_STATUS: u64 = 0x1_0000;

/// Feature: the device has a control queue.
pub const VIRTIO_NET_F_CTRL_VQ: u64 = 0x2_0000;

/// Feature: the device has several queue pairs.
pub const VIRTIO_NET_F_MQ: u64 = 0x40_0000;

/// The network features for basic operation.
pub const VIRTIO_NET_FEATURES: u64 = VIRTIO_NET_F_MAC | VIRTIO_NET_F_STATUS;

/// Configuration space: MAC address (6 bytes).
pub const VIRTIO_NET_CFG_MAC: u64 = 0x00;

/// Configuration space: status (2 bytes).
pub const VIRTIO_NET_CFG_STATUS: u64 = 0x06;

/// Configuration space: maximum virtqueue pairs (2 bytes).
pub const VIRTIO_NET_CFG_MAX_VQ_PAIRS: u64 = 0x08;

/// Configuration space: MTU (2 bytes).
pub const VIRTIO_NET_CFG_MTU: u64 = 0x0a;

/// Status: the link is up.
pub const VIRTIO_NET_S_LINK_UP: u16 = 1;

/// Status: the driver should announce itself.
pub const VIRTIO_NET_S_ANNOUNCE: u16 = 2;

/// The size of the network packet header.
pub const VIRTIO_NET_HDR_SIZE: usize = 10;

/// Header flag: the packet needs a checksum.
pub const VIRTIO_NET_HDR_F_NEEDS_CSUM: u8 = 1;

/// Header flag: the data's checksum is valid.
pub const VIRTIO_NET_HDR_F_DATA_VALID: u8 = 2;

/// Header GSO type: none.
pub const VIRTIO_NET_HDR_GSO_NONE: u8 = 0;

/// Header GSO type: TCP over IPv4.
pub const VIRTIO_NET_HDR_GSO_TCPV4: u8 = 1;

/// Header GSO type: UDP.
pub const VIRTIO_NET_HDR_GSO_UDP: u8 = 3;

/// Header GSO type: TCP over IPv6.
pub const VIRTIO_NET_HDR_GSO_TCPV6: u8 = 4;

/// Receive queue index.
pub const VIRTIO_NET_RX_QUEUE: u16 = 0;

/// Transmit queue index.
pub const VIRTIO_NET_TX_QUEUE: u16 = 1;

/// Control queue index.
pub const VIRTIO_NET_CTRL_QUEUE: u16 = 2;

/// Default number of queue pairs.
pub const VIRTIO_NET_DEFAULT_QUEUE_PAIRS: u16 = 1;

/// Maximum number of queue pairs.
pub const VIRTIO_NET_MAX_QUEUE_PAIRS: u16 = 8;

/// Default MTU.
pub const VIRTIO_NET_DEFAULT_MTU: u16 = 1500;

/// Largest Ethernet frame (MTU, Ethernet header and VLAN tag).
pub const VIRTIO_NET_MAX_PACKET_SIZE: usize = 1518;

/// Smallest Ethernet frame.
pub const VIRTIO_NET_MIN_PACKET_SIZE: usize = 60;

/// The size of an Ethernet header.
pub const ETHERNET_HEADER_SIZE: usize = 14;

/// The size of a MAC address.
pub const MAC_ADDRESS_SIZE: usize = 6;

/// The size of the network configuration space.
pub const VIRTIO_NET_CONFIG_SIZE: usize = 12;

} // verus!
