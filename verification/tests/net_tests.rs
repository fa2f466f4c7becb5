use axvirtio::error::VirtioError;
use axvirtio::memory::GuestMemory;
use axvirtio::net::backend::{create_default_backend, MemoryNetworkBackend, NetworkBackend, TapNetworkBackend};
use axvirtio::net::config::VirtioNetConfig;
use axvirtio::net::device::VirtioNetDevice;
use axvirtio::net::packet::{NetPacket, PacketBuffer, VirtioNetHeader};
use axvirtio::transport::AccessWidth;

#[test]
fn test_net_config_layout_and_access() {
    let mut c = VirtioNetConfig::default();
    assert_eq!(c.as_bytes(), vec![0x52, 0x54, 0x00, 0x12, 0x34, 0x56, 1, 0, 1, 0, 0xdc, 0x05]);
    assert_eq!(VirtioNetConfig::size(), 12);
    assert_eq!(c.read_config(0, 4), 0x1200_5452);
    assert_eq!(c.read_config(4, 2), 0x5634);
    assert_eq!(c.read_config(6, 2), 1);
    assert_eq!(c.read_config(10, 2), 1500);
    assert_eq!(c.read_config(10, 4), 0);
    assert_eq!(c.read_config(5, 1), 0x56);
    assert_eq!(c.read_config(0, 3), 0);
    c.write_config(10, 2, 9000);
    assert_eq!(c.mtu, 9000);
    assert_eq!(c.read_config(10, 2), 9000);
    c.write_config(0, 4, 0xddcc_bbaa);
    assert_eq!(c.mac, [0xaa, 0xbb, 0xcc, 0xdd, 0x34, 0x56]);
    c.write_config(11, 4, 1);
    assert_eq!(c.mtu, 9000);
}

#[test]
fn test_net_config_status_bits() {
    let mut c = VirtioNetConfig::new([1, 2, 3, 4, 5, 6]);
    assert!(c.is_link_up());
    assert!(!c.should_announce());
    c.set_announce(true);
    assert!(c.should_announce());
    assert!(c.is_link_up());
    c.set_link_up(false);
    assert!(!c.is_link_up());
    assert!(c.should_announce());
    assert_eq!(c.status, 2);
}

#[test]
fn test_net_header_bytes_round_trip() {
    let mut h = VirtioNetHeader::new();
    assert_eq!(h.hdr_len, 10);
    assert!(!h.needs_checksum());
    h.set_needs_checksum(true);
    h.set_data_valid(true);
    assert!(h.needs_checksum() && h.data_valid());
    h.csum_start = 0x1234;
    let bytes = h.as_bytes();
    assert_eq!(bytes, vec![3, 0, 10, 0, 0, 0, 0x34, 0x12, 0, 0]);
    assert_eq!(VirtioNetHeader::from_bytes(&bytes), Ok(h));
    assert_eq!(VirtioNetHeader::from_bytes(&bytes[..9]), Err(VirtioError::InvalidRequest));
    h.set_needs_checksum(false);
    assert!(!h.needs_checksum() && h.data_valid());
    assert_eq!(VirtioNetHeader::default(), VirtioNetHeader::new());
}

#[test]
fn test_packet_buffer_operations() {
    let mut p = PacketBuffer::new();
    assert!(p.is_empty());
    assert_eq!(p.get_virtio_header(), Err(VirtioError::InvalidRequest));
    assert_eq!(p.validate(), Err(VirtioError::InvalidRequest));
    p.set_virtio_header(&VirtioNetHeader::new());
    assert_eq!(p.len(), 10);
    assert_eq!(p.validate(), Ok(()));
    assert!(p.ethernet_payload().is_empty());
    p.extend_from_slice(&[9u8; 30]);
    assert_eq!(p.validate(), Err(VirtioError::InvalidRequest));
    p.extend_from_slice(&[9u8; 30]);
    assert_eq!(p.validate(), Ok(()));
    assert_eq!(p.ethernet_payload().len(), 60);
    p.ethernet_payload_mut()[0] = 7;
    assert_eq!(p.data()[10], 7);
    p.data_mut().push(1);
    assert_eq!(p.len(), 71);
    p.reserve(100);
    assert_eq!(p.len(), 71);
    assert_eq!(p.get_virtio_header(), Ok(VirtioNetHeader::new()));
    p.clear();
    assert!(p.is_empty());
    let big = PacketBuffer::from_data(vec![0u8; 10 + 1519]);
    assert_eq!(big.validate(), Err(VirtioError::InvalidRequest));
    assert!(PacketBuffer::with_capacity(64).is_empty());
    assert!(PacketBuffer::default().is_empty());
}

#[test]
fn test_net_packet_preparation() {
    let mut p = NetPacket::new();
    assert_eq!(p.prepare_for_tx(), Ok(()));
    assert_eq!(p.buffer().len(), 10);
    let mut q = NetPacket::default();
    assert_eq!(q.prepare_for_rx(&[1u8; 64]), Ok(()));
    assert_eq!(q.buffer().len(), 74);
    assert_eq!(q.buffer().ethernet_payload(), &[1u8; 64][..]);
    assert_eq!(q.prepare_for_rx(&[1u8; 20]), Err(VirtioError::InvalidRequest));
    let mut r = NetPacket::from_raw(vec![0u8; 12]);
    assert_eq!(r.prepare_for_tx(), Err(VirtioError::InvalidRequest));
    r.buffer_mut().clear();
    assert!(r.buffer().is_empty());
}

#[test]
fn test_memory_network_backend_loopback() {
    let mut b = MemoryNetworkBackend::new(1);
    assert_eq!(b.get_mac_address(), [0x52, 0x54, 0x00, 0x12, 0x34, 0x57]);
    assert!(b.is_link_up());
    let mut frame = vec![0u8; 20];
    for (i, x) in frame.iter_mut().enumerate() {
        *x = i as u8;
    }
    assert_eq!(b.send_packet(&frame), Ok(()));
    assert_eq!(b.packet_count(), 1);
    assert!(b.has_pending_packets());
    let mut buf = [0u8; 32];
    assert_eq!(b.receive_packet(&mut buf), Ok(20));
    assert_eq!(&buf[..6], &frame[6..12]);
    assert_eq!(&buf[6..12], &frame[..6]);
    assert_eq!(&buf[12..20], &frame[12..20]);
    assert_eq!(b.receive_packet(&mut buf), Ok(0));
    assert_eq!(b.get_statistics(), (1, 1, 20, 20));
    assert_eq!(b.reset_statistics(), Ok(()));
    assert_eq!(b.get_statistics(), (0, 0, 0, 0));
    assert_eq!(b.send_packet(&[0u8; 1600]), Err(VirtioError::InvalidRequest));
    assert_eq!(b.send_packet(&[0u8; 4]), Ok(()));
    assert_eq!(b.packet_count(), 0);
    b.inject_packet(vec![5u8; 3]);
    let mut small = [0u8; 2];
    assert_eq!(b.receive_packet(&mut small), Ok(2));
    b.inject_packet(vec![5u8; 3]);
    b.clear_packets();
    assert_eq!(b.packet_count(), 0);
    assert_eq!(b.set_mtu(10), Err(VirtioError::InvalidRequest));
    assert_eq!(b.set_mtu(1500), Ok(()));
    assert_eq!(b.set_mac_address([0; 6]), Err(VirtioError::NotSupported));
    assert_eq!(b.set_promiscuous(true), Err(VirtioError::NotSupported));
    assert_eq!(b.set_promiscuous(false), Ok(()));
    assert!(create_default_backend(0).is_ok());
}

#[test]
fn test_tap_network_backend() {
    let mut t = TapNetworkBackend::new(3).unwrap();
    assert_eq!(t.interface_name(), "tap3");
    assert_eq!(t.get_mac_address()[5], 0x59);
    assert!(!t.is_link_up());
    assert_eq!(t.send_packet(&[0u8; 60]), Err(VirtioError::DeviceNotReady));
    assert_eq!(t.initialize(), Ok(()));
    assert!(t.is_link_up());
    assert_eq!(t.send_packet(&[0u8; 60]), Ok(()));
    assert_eq!(t.send_packet(&[0u8; 1515]), Err(VirtioError::InvalidRequest));
    let mut buf = [0u8; 8];
    assert_eq!(t.receive_packet(&mut buf), Ok(0));
    assert_eq!(t.get_mtu(), 1500);
    assert_eq!(t.set_mtu(9001), Err(VirtioError::InvalidRequest));
    assert!(t.supports_promiscuous());
    assert_eq!(t.set_promiscuous(true), Ok(()));
    assert!(!t.has_pending_packets());
    assert_eq!(t.get_statistics(), (0, 0, 0, 0));
}

#[test]
fn test_net_device_registers() {
    let mut mem = GuestMemory::new(0, 0x1000);
    let mut dev = VirtioNetDevice::new(1).unwrap();
    let base = 0x0a00_0200usize;
    assert!(dev.is_enabled());
    assert!(dev.is_address_in_range(base));
    assert_eq!(dev.mmio_read(base, AccessWidth::Dword), Ok(0x7472_6976));
    assert_eq!(dev.mmio_read(base + 0x008, AccessWidth::Dword), Ok(1));
    // configuration space: the MAC address and status
    assert_eq!(dev.mmio_read(base + 0x100, AccessWidth::Dword), Ok(0x1200_5452));
    assert_eq!(dev.mmio_read(base + 0x104, AccessWidth::Dword), Ok(0x0001_5734));
    // an unknown register reads 0, a write to it is ignored
    assert_eq!(dev.mmio_read(base + 0x0f0, AccessWidth::Dword), Ok(0));
    assert_eq!(dev.mmio_write(&mut mem, base + 0x0f0, AccessWidth::Dword, 5), Ok(()));
    // the ring address registers are not handled by the network device
    assert_eq!(dev.mmio_write(&mut mem, base + 0x080, AccessWidth::Dword, 0x100), Ok(()));
    assert_eq!(dev.regs.queues[0].desc_table_addr, 0);
    dev.mmio_write(&mut mem, base + 0x038, AccessWidth::Dword, 16).unwrap();
    assert_eq!(dev.mmio_read(base + 0x038, AccessWidth::Dword), Ok(16));
    dev.mmio_write(&mut mem, base + 0x070, AccessWidth::Dword, 0x0f).unwrap();
    assert_eq!(dev.mmio_read(base + 0x070, AccessWidth::Dword), Ok(0x0f));
    dev.mmio_write(&mut mem, base + 0x050, AccessWidth::Dword, 0).unwrap();
    dev.mmio_write(&mut mem, base + 0x070, AccessWidth::Dword, 0).unwrap();
    assert_eq!(dev.mmio_read(base + 0x070, AccessWidth::Dword), Ok(0));
    // another device's window reads 0
    assert_eq!(dev.mmio_read(base + 0x200, AccessWidth::Dword), Ok(0));
}
