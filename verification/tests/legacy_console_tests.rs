use axvirtio::console::device::VirtioConsoleDevice;
use axvirtio::console::host::{
    check_console_size, create_default_backend, ConsoleBackend, FileConsoleBackend, SocketConsoleBackend,
};
use axvirtio::error::{VirtioError, VirtioResult};
use axvirtio::memory::{read_u16, read_u32, write_u16, write_u32, write_u64, GuestMemory};
use axvirtio::transport::AccessWidth;
use std::sync::Mutex;

#[test]
fn test_file_console_backend() {
    let mut b = FileConsoleBackend::new(2).unwrap();
    assert_eq!(b.output_path(), "/tmp/virtio-console-2.out");
    assert_eq!(b.input_path(), "/tmp/virtio-console-2.in");
    assert_eq!(b.write(b"x"), Err(VirtioError::DeviceNotReady));
    assert!(!b.is_ready());
    b.initialize().unwrap();
    assert!(b.is_ready());
    assert_eq!(b.write(b"xyz"), Ok(3));
    let mut buf = [0u8; 4];
    assert_eq!(b.read(&mut buf), Ok(0));
    assert_eq!(b.get_size(), (80, 25));
    assert_eq!(b.set_size(0, 10), Err(VirtioError::InvalidRequest));
    assert_eq!(b.set_size(10, 10), Ok(()));
    assert!(b.supports_emergency_write());
    assert_eq!(b.emergency_write(b'!'), Ok(()));
    assert_eq!(b.open_port(0), Ok(()));
    assert_eq!(b.open_port(1), Err(VirtioError::NotSupported));
    assert_eq!(b.close_port(2), Err(VirtioError::NotSupported));
    assert!(b.is_port_open(0));
    assert!(!b.is_port_open(1));
    assert_eq!(b.max_ports(), 1);
    assert!(!b.supports_multiport());
    assert_eq!(b.get_statistics(), (0, 0));
}

#[test]
fn test_socket_console_backend() {
    let mut b = SocketConsoleBackend::new(7).unwrap();
    assert_eq!(b.socket_path(), "/tmp/virtio-console-7.sock");
    assert_eq!(b.write(b"x"), Err(VirtioError::DeviceNotReady));
    b.initialize().unwrap();
    assert_eq!(b.write(b"xy"), Ok(2));
    assert!(!b.has_input());
    assert_eq!(b.flush(), Ok(()));
    assert_eq!(b.reset(), Ok(()));
    assert_eq!(create_default_backend(7).unwrap().socket_path(), "/tmp/virtio-console-7.sock");
}

/// A host backend that records output and hands out queued input.
struct Recorder {
    output: Mutex<Vec<u8>>,
    input: Mutex<Vec<u8>>,
}

impl ConsoleBackend for Recorder {
    fn write(&self, data: &[u8]) -> VirtioResult<usize> {
        self.output.lock().unwrap().extend_from_slice(data);
        Ok(data.len())
    }

    fn read(&self, buffer: &mut [u8]) -> VirtioResult<usize> {
        let mut input = self.input.lock().unwrap();
        let n = input.len().min(buffer.len());
        buffer[..n].copy_from_slice(&input[..n]);
        input.drain(..n);
        Ok(n)
    }
}

const BASE: usize = 0x0a00_0000;

fn put_desc(mem: &mut GuestMemory, table: usize, index: usize, addr: u64, len: u32, flags: u16, next: u16) {
    let at = table + index * 16;
    write_u64(mem, at, addr).unwrap();
    write_u32(mem, at + 8, len).unwrap();
    write_u16(mem, at + 12, flags).unwrap();
    write_u16(mem, at + 14, next).unwrap();
}

fn legacy_device(mem: &mut GuestMemory, input: &[u8]) -> VirtioConsoleDevice<Recorder> {
    let backend = Recorder { output: Mutex::new(Vec::new()), input: Mutex::new(input.to_vec()) };
    let mut dev = VirtioConsoleDevice::with_backend(0, 0, 0x200, backend).unwrap();
    for (sel, d, a, u) in [(0usize, 0x1000usize, 0x2000usize, 0x3000usize), (1, 0x8000, 0x9000, 0xa000)] {
        dev.mmio_write(mem, BASE + 0x030, AccessWidth::Dword, sel).unwrap();
        dev.mmio_write(mem, BASE + 0x038, AccessWidth::Dword, 8).unwrap();
        dev.mmio_write(mem, BASE + 0x080, AccessWidth::Dword, d).unwrap();
        dev.mmio_write(mem, BASE + 0x090, AccessWidth::Dword, a).unwrap();
        dev.mmio_write(mem, BASE + 0x0a0, AccessWidth::Dword, u).unwrap();
        dev.mmio_write(mem, BASE + 0x044, AccessWidth::Dword, 1).unwrap();
    }
    dev.mmio_write(mem, BASE + 0x070, AccessWidth::Dword, 0x07).unwrap();
    dev
}

#[test]
fn test_legacy_console_transmit_and_receive() {
    let mut mem = GuestMemory::new(0, 0x10000);
    let mut dev = legacy_device(&mut mem, b"input!");
    assert_eq!(dev.mmio_read(BASE + 0x008, AccessWidth::Dword), Ok(3));
    assert_eq!(dev.mmio_read(BASE + 0x100, AccessWidth::Dword), Ok(80));
    assert_eq!(dev.mmio_read(BASE + 0x102, AccessWidth::Dword), Ok(24));

    axvirtio::memory::write_bytes(&mut mem, 0x5000, b"out").unwrap();
    put_desc(&mut mem, 0x8000, 0, 0x5000, 3, 0, 0);
    write_u16(&mut mem, 0x9004, 0).unwrap();
    write_u16(&mut mem, 0x9002, 1).unwrap();
    dev.mmio_write(&mut mem, BASE + 0x050, AccessWidth::Dword, 1).unwrap();
    assert_eq!(dev.backend.output.lock().unwrap().as_slice(), b"out");
    assert_eq!(read_u16(&mem, 0xa002).unwrap(), 1);
    assert_eq!(read_u32(&mem, 0xa008).unwrap(), 3);

    put_desc(&mut mem, 0x1000, 0, 0x6000, 4, 2 | 1, 1);
    put_desc(&mut mem, 0x1000, 1, 0x6100, 16, 2, 0);
    write_u16(&mut mem, 0x2004, 0).unwrap();
    write_u16(&mut mem, 0x2002, 1).unwrap();
    dev.mmio_write(&mut mem, BASE + 0x050, AccessWidth::Dword, 0).unwrap();
    assert_eq!(&mem.as_slice()[0x6000..0x6004], b"inpu");
    assert_eq!(&mem.as_slice()[0x6100..0x6102], b"t!");
    assert_eq!(read_u16(&mem, 0x3002).unwrap(), 1);
    assert_eq!(read_u32(&mem, 0x3008).unwrap(), 6);
    assert_eq!(dev.mmio_read(BASE + 0x060, AccessWidth::Dword), Ok(1));
}

#[test]
fn test_legacy_console_registers() {
    let mut mem = GuestMemory::new(0, 0x1000);
    let mut dev = VirtioConsoleDevice::new(0, 1, 0x200).unwrap();
    let base = 0x0a00_0200;
    assert!(dev.is_enabled());
    assert!(dev.is_address_in_range(base));
    assert!(!dev.is_address_in_range(base + 0x200));
    assert_eq!(dev.mmio_read(base, AccessWidth::Dword), Ok(0x7472_6976));
    assert_eq!(dev.mmio_read(base + 0x0f0, AccessWidth::Dword), Ok(0));
    assert_eq!(dev.mmio_write(&mut mem, base + 0x0f0, AccessWidth::Dword, 1), Ok(()));
    dev.mmio_write(&mut mem, base + 0x100, AccessWidth::Dword, 132).unwrap();
    assert_eq!(dev.mmio_read(base + 0x100, AccessWidth::Dword), Ok(132));
    dev.mmio_write(&mut mem, base + 0x070, AccessWidth::Dword, 0x07).unwrap();
    dev.mmio_write(&mut mem, base + 0x070, AccessWidth::Dword, 0).unwrap();
    assert_eq!(dev.mmio_read(base + 0x070, AccessWidth::Dword), Ok(0));
}

#[test]
fn test_console_size_needs_both_dimensions() {
    assert_eq!(check_console_size(80, 25), Ok(()));
    assert_eq!(check_console_size(0, 25), Err(VirtioError::InvalidRequest));
    assert_eq!(check_console_size(80, 0), Err(VirtioError::InvalidRequest));
}

#[test]
fn test_legacy_console_deliver_rx_input_fills_chain() {
    let mut mem = GuestMemory::new(0, 0x10000);
    let mut dev = legacy_device(&mut mem, b"");
    put_desc(&mut mem, 0x1000, 0, 0x6000, 8, 2, 0);
    write_u16(&mut mem, 0x2004, 0).unwrap();
    write_u16(&mut mem, 0x2002, 1).unwrap();
    let queue = dev.regs.queues[0];
    dev.deliver_rx_input(&mut mem, &queue, b"hey");
    assert_eq!(&mem.as_slice()[0x6000..0x6003], b"hey");
    assert_eq!(read_u16(&mem, 0x3002).unwrap(), 1);
    assert_eq!(read_u32(&mem, 0x3004).unwrap(), 0);
    assert_eq!(read_u32(&mem, 0x3008).unwrap(), 3);
}

#[test]
fn test_legacy_console_transmit_stops_at_unmapped_buffer() {
    let mut mem = GuestMemory::new(0, 0x10000);
    let mut dev = legacy_device(&mut mem, b"");
    axvirtio::memory::write_bytes(&mut mem, 0x5000, b"ab").unwrap();
    put_desc(&mut mem, 0x8000, 0, 0x5000, 2, 1, 1);
    put_desc(&mut mem, 0x8000, 1, 0x2_0000, 4, 0, 0);
    write_u16(&mut mem, 0x9004, 0).unwrap();
    write_u16(&mut mem, 0x9002, 1).unwrap();
    dev.mmio_write(&mut mem, BASE + 0x050, AccessWidth::Dword, 1).unwrap();
    // the first buffer was sent, the second is not mapped: the chain is
    // returned with no bytes
    assert_eq!(dev.backend.output.lock().unwrap().as_slice(), b"ab");
    assert_eq!(read_u16(&mem, 0xa002).unwrap(), 1);
    assert_eq!(read_u32(&mem, 0xa008).unwrap(), 0);
}

#[test]
fn test_legacy_console_access_outside_window() {
    let mut mem = GuestMemory::new(0, 0x1000);
    let mut dev = VirtioConsoleDevice::new(0, 1, 0x200).unwrap();
    assert_eq!(dev.mmio_read(0x0a00_01fc, AccessWidth::Dword), Ok(0));
    assert_eq!(dev.mmio_read(0x0a00_0400, AccessWidth::Dword), Ok(0));
    dev.mmio_write(&mut mem, 0x0a00_0070, AccessWidth::Dword, 0x0f).unwrap();
    assert_eq!(dev.mmio_read(0x0a00_0270, AccessWidth::Dword), Ok(0));
}

#[test]
fn test_legacy_console_driver_features_both_halves() {
    let mut mem = GuestMemory::new(0, 0x1000);
    let mut dev = VirtioConsoleDevice::new(0x0a00_0000, 0, 0x200).unwrap();
    let b = 0x0a00_0000;
    dev.mmio_write(&mut mem, b + 0x024, AccessWidth::Dword, 0).unwrap();
    dev.mmio_write(&mut mem, b + 0x020, AccessWidth::Dword, 0x1).unwrap();
    dev.mmio_write(&mut mem, b + 0x024, AccessWidth::Dword, 1).unwrap();
    dev.mmio_write(&mut mem, b + 0x020, AccessWidth::Dword, 0x2).unwrap();
    assert_eq!(dev.mmio_read(b + 0x020, AccessWidth::Dword), Ok(2));
    dev.mmio_write(&mut mem, b + 0x024, AccessWidth::Dword, 0).unwrap();
    assert_eq!(dev.mmio_read(b + 0x020, AccessWidth::Dword), Ok(1));
    assert_eq!(dev.regs.driver_features, 0x0000_0002_0000_0001);
}
