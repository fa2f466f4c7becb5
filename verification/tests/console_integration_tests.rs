use axvirtio::console::backend::{ConsoleBackend, NullConsoleBackend};
use axvirtio::console::config::VirtioConsoleConfig;
use axvirtio::console::mmio::VirtioMmioConsoleDevice;
use axvirtio::device_type::VirtioDeviceType;
use axvirtio::error::VirtioResult;
use axvirtio::memory::{read_u16, read_u32, write_u16, write_u32, write_u64, GuestMemory};
use axvirtio::transport::AccessWidth;
use std::sync::Mutex;

fn create_test_device() -> VirtioMmioConsoleDevice<NullConsoleBackend, GuestMemory> {
    let base_ipa = 0x1000_0000usize;
    let length = 0x1000;
    let backend = NullConsoleBackend;
    let config = VirtioConsoleConfig {
        cols: 80,
        rows: 25,
        max_nr_ports: 1,
        emerg_wr: 0,
        disable_interrupts: false,
    };
    let accessor = GuestMemory::new(0, 0x10000);
    VirtioMmioConsoleDevice::new(base_ipa, length, backend, config, accessor).unwrap()
}

#[test]
fn test_device_creation() {
    let device = create_test_device();
    assert_eq!(device.base_ipa(), 0x1000_0000);
    assert_eq!(device.length(), 0x1000);
    assert!(!device.is_device_ready());
}

#[test]
fn test_mmio_read_magic_value() {
    let device = create_test_device();
    let result = device.mmio_read(0x1000_0000usize, AccessWidth::Dword);
    assert!(result.is_ok());
    assert_eq!(result.unwrap(), 0x7472_6976);
}

#[test]
fn test_mmio_read_version() {
    let device = create_test_device();
    let result = device.mmio_read(0x1000_0004usize, AccessWidth::Dword);
    assert!(result.is_ok());
    assert_eq!(result.unwrap(), 2);
}

#[test]
fn test_mmio_read_device_id() {
    let device = create_test_device();
    let result = device.mmio_read(0x1000_0008usize, AccessWidth::Dword);
    assert!(result.is_ok());
    assert_eq!(result.unwrap(), VirtioDeviceType::Console.to_device_id() as usize);
}

#[test]
fn test_device_initialization_sequence() {
    let mut device = create_test_device();
    let base = 0x1000_0000usize;

    let _ = device.mmio_write(base + 0x070, AccessWidth::Dword, 0x01);
    let _ = device.mmio_write(base + 0x070, AccessWidth::Dword, 0x02);

    let _ = device.mmio_write(base + 0x014, AccessWidth::Dword, 0);
    let features = device.mmio_read(base + 0x010, AccessWidth::Dword);
    assert!(features.is_ok());

    let _ = device.mmio_write(base + 0x020, AccessWidth::Dword, 0);
    let _ = device.mmio_write(base + 0x024, AccessWidth::Dword, features.unwrap() as usize);

    let _ = device.mmio_write(base + 0x070, AccessWidth::Dword, 0x08);

    let status = device.mmio_read(base + 0x070, AccessWidth::Dword);
    assert!(status.is_ok());
    assert_eq!(status.unwrap() & 0x08, 0x08);

    let _ = device.mmio_write(base + 0x070, AccessWidth::Dword, 0x04);
    assert!(device.is_device_ready());
}

#[test]
fn test_queue_configuration() {
    let mut device = create_test_device();
    let base = 0x1000_0000usize;

    let _ = device.mmio_write(base + 0x070, AccessWidth::Dword, 0x04);
    let _ = device.mmio_write(base + 0x030, AccessWidth::Dword, 0);
    let _ = device.mmio_write(base + 0x038, AccessWidth::Dword, 8);

    let queue_num = device.mmio_read(base + 0x038, AccessWidth::Dword);
    assert!(queue_num.is_ok());
    assert_eq!(queue_num.unwrap(), 8);

    let _ = device.mmio_write(base + 0x044, AccessWidth::Dword, 1);

    let queue_ready = device.mmio_read(base + 0x044, AccessWidth::Dword);
    assert!(queue_ready.is_ok());
    assert_eq!(queue_ready.unwrap(), 1);
}

#[test]
fn test_device_reset() {
    let mut device = create_test_device();
    let base = 0x1000_0000usize;
    let _ = device.mmio_write(base + 0x070, AccessWidth::Dword, 0x04);
    assert!(device.is_device_ready());
    let _ = device.mmio_write(base + 0x070, AccessWidth::Dword, 0);
    assert!(!device.is_device_ready());
}

#[test]
fn integration_test_test_config_space_read() {
    let device = create_test_device();
    let base = 0x1000_0000usize;

    let cols = device.mmio_read(base + 0x100, AccessWidth::Dword);
    assert!(cols.is_ok());
    assert_eq!(cols.unwrap(), 80);

    let rows = device.mmio_read(base + 0x102, AccessWidth::Dword);
    assert!(rows.is_ok());
    assert_eq!(rows.unwrap(), 25);
}

#[test]
fn test_interrupt_status() {
    let device = create_test_device();
    let base = 0x1000_0000usize;
    let status = device.mmio_read(base + 0x060, AccessWidth::Dword);
    assert!(status.is_ok());
    assert_eq!(status.unwrap(), 0);
    assert_eq!(device.get_interrupt_status(), 0);
}

#[test]
fn test_invalid_register_access() {
    let mut device = create_test_device();
    let base = 0x1000_0000usize;
    let result = device.mmio_write(base + 0x0fd, AccessWidth::Dword, 0xDEADBEEF);
    assert!(result.is_err());
}

#[test]
fn test_queue_notify_before_ready() {
    let mut device = create_test_device();
    let base = 0x1000_0000usize;
    let _ = device.mmio_write(base + 0x050, AccessWidth::Dword, 1);
    assert!(!device.is_device_ready());
}

#[test]
fn test_max_queue_size() {
    let device = create_test_device();
    let base = 0x1000_0000usize;
    let max_size = device.mmio_read(base + 0x034, AccessWidth::Dword);
    assert!(max_size.is_ok());
    assert!(max_size.unwrap() > 0);
}

/// A backend that records what it is given and hands out queued input.
struct RecordingBackend {
    output: Mutex<Vec<u8>>,
    input: Mutex<Vec<u8>>,
}

impl ConsoleBackend for RecordingBackend {
    fn read(&self, buffer: &mut [u8]) -> VirtioResult<usize> {
        let mut input = self.input.lock().unwrap();
        let n = input.len().min(buffer.len());
        buffer[..n].copy_from_slice(&input[..n]);
        input.drain(..n);
        Ok(n)
    }

    fn write(&self, buffer: &[u8]) -> VirtioResult<usize> {
        self.output.lock().unwrap().extend_from_slice(buffer);
        Ok(buffer.len())
    }

    fn has_pending_input(&self) -> bool {
        !self.input.lock().unwrap().is_empty()
    }
}

const BASE: usize = 0x1000_0000;

fn put_desc(mem: &mut GuestMemory, index: usize, addr: u64, len: u32, flags: u16, next: u16) {
    let at = 0x1000 + index * 16;
    write_u64(mem, at, addr).unwrap();
    write_u32(mem, at + 8, len).unwrap();
    write_u16(mem, at + 12, flags).unwrap();
    write_u16(mem, at + 14, next).unwrap();
}

fn recording_device(input: &[u8]) -> VirtioMmioConsoleDevice<RecordingBackend, GuestMemory> {
    let backend = RecordingBackend { output: Mutex::new(Vec::new()), input: Mutex::new(input.to_vec()) };
    let mut dev = VirtioMmioConsoleDevice::new(
        BASE,
        0x200,
        backend,
        VirtioConsoleConfig::default(),
        GuestMemory::new(0, 0x10000),
    )
    .unwrap();
    // receive queue: rings at 0x1000/0x2000/0x3000, transmit queue at 0x8000/0x9000/0xa000
    for (sel, d, a, u) in [(0usize, 0x1000usize, 0x2000usize, 0x3000usize), (1, 0x8000, 0x9000, 0xa000)] {
        dev.mmio_write(BASE + 0x030, AccessWidth::Dword, sel).unwrap();
        dev.mmio_write(BASE + 0x038, AccessWidth::Dword, 8).unwrap();
        dev.mmio_write(BASE + 0x080, AccessWidth::Dword, d).unwrap();
        dev.mmio_write(BASE + 0x090, AccessWidth::Dword, a).unwrap();
        dev.mmio_write(BASE + 0x0a0, AccessWidth::Dword, u).unwrap();
        dev.mmio_write(BASE + 0x044, AccessWidth::Dword, 1).unwrap();
    }
    dev.mmio_write(BASE + 0x070, AccessWidth::Dword, 0x0f).unwrap();
    dev
}

#[test]
fn test_transmit_reaches_backend() {
    let mut dev = recording_device(b"");
    let text = b"hello, host";
    axvirtio::memory::write_bytes(&mut dev.memory, 0x5000, text).unwrap();
    let at = 0x8000;
    write_u64(&mut dev.memory, at, 0x5000).unwrap();
    write_u32(&mut dev.memory, at + 8, text.len() as u32).unwrap();
    write_u16(&mut dev.memory, at + 12, 0).unwrap();
    write_u16(&mut dev.memory, 0x9004, 0).unwrap();
    write_u16(&mut dev.memory, 0x9002, 1).unwrap();
    dev.mmio_write(BASE + 0x050, AccessWidth::Dword, 1).unwrap();
    assert_eq!(dev.backend.output.lock().unwrap().as_slice(), text);
    assert_eq!(read_u16(&dev.memory, 0xa002).unwrap(), 1);
    assert_eq!(read_u32(&dev.memory, 0xa008).unwrap(), text.len() as u32);
    assert_eq!(dev.get_interrupt_status(), 1);
}

#[test]
fn test_push_input_fills_receive_buffer() {
    let mut dev = recording_device(b"");
    put_desc(&mut dev.memory, 0, 0x5000, 4, 2 | 1, 1);
    put_desc(&mut dev.memory, 1, 0x6000, 16, 2, 0);
    write_u16(&mut dev.memory, 0x2004, 0).unwrap();
    write_u16(&mut dev.memory, 0x2002, 1).unwrap();
    assert_eq!(dev.push_input(b"abcdefg"), Ok(7));
    assert_eq!(&dev.memory.as_slice()[0x5000..0x5004], b"abcd");
    assert_eq!(&dev.memory.as_slice()[0x6000..0x6003], b"efg");
    assert_eq!(read_u16(&dev.memory, 0x3002).unwrap(), 1);
    assert_eq!(read_u32(&dev.memory, 0x3008).unwrap(), 7);
    // no more buffers offered
    assert_eq!(dev.push_input(b"x"), Ok(0));
}

#[test]
fn test_forward_backend_input() {
    let mut dev = recording_device(b"typed");
    put_desc(&mut dev.memory, 0, 0x5000, 64, 2, 0);
    write_u16(&mut dev.memory, 0x2004, 0).unwrap();
    write_u16(&mut dev.memory, 0x2002, 1).unwrap();
    assert_eq!(dev.forward_backend_input(), 5);
    assert_eq!(&dev.memory.as_slice()[0x5000..0x5005], b"typed");
}

#[test]
fn test_feature_negotiation_refuses_unoffered_feature() {
    let mut device = create_test_device();
    // the driver accepts EVENT_IDX, which the console does not offer
    device.mmio_write(BASE + 0x024, AccessWidth::Dword, 0).unwrap();
    device.mmio_write(BASE + 0x020, AccessWidth::Dword, 1 << 29).unwrap();
    device.mmio_write(BASE + 0x070, AccessWidth::Dword, 0x0b).unwrap();
    let status = device.mmio_read(BASE + 0x070, AccessWidth::Dword).unwrap();
    assert_eq!(status & 0x08, 0);
    assert_eq!(status & 0x80, 0x80);
}

#[test]
fn test_emergency_write_and_config_space() {
    let mut dev = recording_device(b"");
    dev.mmio_write(BASE + 0x108, AccessWidth::Dword, 0x41).unwrap();
    assert_eq!(dev.backend.output.lock().unwrap().as_slice(), b"A");
    assert_eq!(dev.mmio_read(BASE + 0x108, AccessWidth::Dword).unwrap(), 0x41);
    assert_eq!(dev.mmio_read(BASE + 0x104, AccessWidth::Dword).unwrap(), 1);
    assert_eq!(dev.mmio_read(BASE + 0x10c, AccessWidth::Dword).unwrap(), 0);
}

#[test]
fn test_access_outside_window_reads_zero_and_is_ignored() {
    let mut device = create_test_device();
    // at the end of the window and below its start: reads give 0
    assert_eq!(device.mmio_read(0x1000_1000, AccessWidth::Dword).unwrap(), 0);
    assert_eq!(device.mmio_read(0x0fff_fffc, AccessWidth::Dword).unwrap(), 0);
    // writes there change nothing
    device.mmio_write(0x1000_1070, AccessWidth::Dword, 0x0f).unwrap();
    device.mmio_write(0x0fff_fff0, AccessWidth::Dword, 0x0f).unwrap();
    assert_eq!(device.mmio_read(0x1000_0070, AccessWidth::Dword).unwrap(), 0);
    assert_eq!(device.mmio_read(0x1000_0000, AccessWidth::Dword).unwrap(), 0x7472_6976);
}

#[test]
fn test_console_config() {
    let c = VirtioConsoleConfig::with_size(120, 40);
    assert_eq!((c.cols, c.rows, c.max_nr_ports, c.emerg_wr), (120, 40, 1, 0));
    assert!(!c.is_polling_mode());
    let mut p = VirtioConsoleConfig::with_polling_mode(100, 30);
    assert!(p.is_polling_mode());
    assert_eq!(p.read(0x02, 2), 30);
    p.write(0x00, 0x1_0050, 2);
    assert_eq!(p.read(0x00, 2), 0x50);
    p.write(0x04, 3, 4);
    assert_eq!(p.read(0x04, 4), 3);
    assert_eq!(p.read(0x0c, 4), 0);
    assert_eq!(VirtioConsoleConfig::size(), 12);
}

#[test]
fn test_transmit_passes_over_unmapped_and_writable_buffers() {
    let mut dev = recording_device(b"");
    axvirtio::memory::write_bytes(&mut dev.memory, 0x5000, b"ab").unwrap();
    axvirtio::memory::write_bytes(&mut dev.memory, 0x5100, b"zz").unwrap();
    axvirtio::memory::write_bytes(&mut dev.memory, 0x5200, b"cd").unwrap();
    let table = 0x8000;
    for (i, (addr, len, flags, next)) in
        [(0x5000u64, 2u32, 1u16, 1u16), (0x2_0000, 4, 1, 2), (0x5100, 2, 2 | 1, 3), (0x5200, 2, 0, 0)]
            .into_iter()
            .enumerate()
    {
        let at = table + i * 16;
        write_u64(&mut dev.memory, at, addr).unwrap();
        write_u32(&mut dev.memory, at + 8, len).unwrap();
        write_u16(&mut dev.memory, at + 12, flags).unwrap();
        write_u16(&mut dev.memory, at + 14, next).unwrap();
    }
    write_u16(&mut dev.memory, 0x9004, 0).unwrap();
    write_u16(&mut dev.memory, 0x9002, 1).unwrap();
    dev.mmio_write(BASE + 0x050, AccessWidth::Dword, 1).unwrap();
    // the unmapped buffer and the device-writable one are passed over
    assert_eq!(dev.backend.output.lock().unwrap().as_slice(), b"abcd");
    assert_eq!(read_u16(&dev.memory, 0xa002).unwrap(), 1);
    assert_eq!(read_u32(&dev.memory, 0xa008).unwrap(), 4);
}
