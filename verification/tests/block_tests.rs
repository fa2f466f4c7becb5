use axvirtio::block::backend::{create_default_backend, BlockBackend, MemoryBackend};
use axvirtio::block::config::VirtioBlockConfig;
use axvirtio::block::device::VirtioMmioDevice;
use axvirtio::block::request::{BlockRequest, BlockRequestType};
use axvirtio::error::VirtioError;
use axvirtio::memory::{read_u16, read_u32, write_u16, write_u32, write_u64, GuestMemory};
use axvirtio::transport::AccessWidth;

#[test]
fn tests_test_config_space_read() {
    let device = VirtioMmioDevice::new(0).unwrap();
    let base_addr = 0x0a00_0000usize;

    let result = device.mmio_read(base_addr + 0x100, AccessWidth::Dword);
    assert!(result.is_ok());
    let capacity_low = result.unwrap();

    let result = device.mmio_read(base_addr + 0x104, AccessWidth::Dword);
    assert!(result.is_ok());
    let capacity_high = result.unwrap();

    let full_capacity = (capacity_high as u64) << 32 | (capacity_low as u64);
    assert_eq!(full_capacity, 2048);

    let result = device.mmio_read(base_addr + 0x108, AccessWidth::Dword);
    assert!(result.is_ok());
    assert_eq!(result.unwrap(), 65536);

    let result = device.mmio_read(base_addr + 0x10c, AccessWidth::Dword);
    assert!(result.is_ok());
    assert_eq!(result.unwrap(), 128);

    let result = device.mmio_read(base_addr + 0x110, AccessWidth::Dword);
    assert!(result.is_ok());
    assert_eq!(result.unwrap(), 0);

    let result = device.mmio_read(base_addr + 0x114, AccessWidth::Dword);
    assert!(result.is_ok());
    assert_eq!(result.unwrap(), 512);

    let result = device.mmio_read(base_addr + 0x118, AccessWidth::Dword);
    assert!(result.is_ok());
    assert_eq!(result.unwrap(), 0);
}

#[test]
fn test_config_space_out_of_range() {
    let device = VirtioMmioDevice::new(0).unwrap();
    let base_addr = 0x0a00_0000usize;
    let result = device.mmio_read(base_addr + 0x200, AccessWidth::Dword);
    assert!(result.is_ok());
    assert_eq!(result.unwrap(), 0);
}

#[test]
fn test_device_index_addressing() {
    let device = VirtioMmioDevice::new(1).unwrap();
    let base_addr = 0x0a00_0200usize;
    let result = device.mmio_read(base_addr + 0x100, AccessWidth::Dword);
    assert!(result.is_ok());

    let result = device.mmio_read(0x0a00_0000 + 0x100, AccessWidth::Dword);
    assert!(result.is_ok());
    assert_eq!(result.unwrap(), 0);
}

#[test]
fn test_disabled_device() {
    let device = VirtioMmioDevice::new(32).unwrap();
    let result = device.mmio_read(0x0a00_0000 + 0x100, AccessWidth::Dword);
    assert!(result.is_ok());
    assert_eq!(result.unwrap(), 0);
}

const BASE: usize = 0x0a00_0000;

fn put_desc(mem: &mut GuestMemory, index: usize, addr: u64, len: u32, flags: u16, next: u16) {
    let at = 0x1000 + index * 16;
    write_u64(mem, at, addr).unwrap();
    write_u32(mem, at + 8, len).unwrap();
    write_u16(mem, at + 12, flags).unwrap();
    write_u16(mem, at + 14, next).unwrap();
}

fn configured_device(mem: &mut GuestMemory) -> VirtioMmioDevice<MemoryBackend> {
    let mut dev = VirtioMmioDevice::new(0).unwrap();
    let w = |dev: &mut VirtioMmioDevice<MemoryBackend>, mem: &mut GuestMemory, off: usize, v: usize| {
        dev.mmio_write(mem, BASE + off, AccessWidth::Dword, v).unwrap();
    };
    w(&mut dev, mem, 0x070, 1);
    w(&mut dev, mem, 0x070, 3);
    w(&mut dev, mem, 0x030, 0);
    w(&mut dev, mem, 0x038, 8);
    w(&mut dev, mem, 0x080, 0x1000);
    w(&mut dev, mem, 0x084, 0);
    w(&mut dev, mem, 0x090, 0x2000);
    w(&mut dev, mem, 0x094, 0);
    w(&mut dev, mem, 0x0a0, 0x3000);
    w(&mut dev, mem, 0x0a4, 0);
    w(&mut dev, mem, 0x044, 1);
    w(&mut dev, mem, 0x070, 0x0f);
    dev
}

#[test]
fn test_block_write_then_read_round_trip() {
    let mut mem = GuestMemory::new(0, 0x10000);
    let mut dev = configured_device(&mut mem);
    assert!(dev.is_device_ready());
    assert_eq!(dev.mmio_read(BASE + 0x038, AccessWidth::Dword).unwrap(), 8);
    assert_eq!(dev.mmio_read(BASE + 0x044, AccessWidth::Dword).unwrap(), 1);

    // A write of one sector at sector 2.
    write_u32(&mut mem, 0x4000, 1).unwrap();
    write_u64(&mut mem, 0x4008, 2).unwrap();
    for i in 0..512usize {
        write_u16(&mut mem, 0x5000 + i - (i % 2), (i / 2) as u16).unwrap();
    }
    put_desc(&mut mem, 0, 0x4000, 16, 1, 1);
    put_desc(&mut mem, 1, 0x5000, 512, 1, 2);
    put_desc(&mut mem, 2, 0x6000, 1, 2, 0);
    write_u16(&mut mem, 0x2004, 0).unwrap();
    write_u16(&mut mem, 0x2002, 1).unwrap();
    dev.mmio_write(&mut mem, BASE + 0x050, AccessWidth::Dword, 0).unwrap();

    assert_eq!(mem.as_slice()[0x6000], 0);
    assert_eq!(read_u16(&mem, 0x3002).unwrap(), 1);
    assert_eq!(read_u32(&mem, 0x3004).unwrap(), 0);
    assert_eq!(read_u32(&mem, 0x3008).unwrap(), 512);
    assert_eq!(dev.mmio_read(BASE + 0x060, AccessWidth::Dword).unwrap(), 1);

    // A read of the same sector into another buffer.
    write_u32(&mut mem, 0x4100, 0).unwrap();
    write_u64(&mut mem, 0x4108, 2).unwrap();
    put_desc(&mut mem, 3, 0x4100, 16, 1, 4);
    put_desc(&mut mem, 4, 0x7000, 512, 1 | 2, 5);
    put_desc(&mut mem, 5, 0x6001, 1, 2, 0);
    write_u16(&mut mem, 0x2006, 3).unwrap();
    write_u16(&mut mem, 0x2002, 2).unwrap();
    mem_status_reset(&mut mem);
    dev.mmio_write(&mut mem, BASE + 0x050, AccessWidth::Dword, 0).unwrap();

    assert_eq!(mem.as_slice()[0x6001], 0);
    assert_eq!(&mem.as_slice()[0x7000..0x7200], &mem.as_slice()[0x5000..0x5200]);
    assert_eq!(read_u16(&mem, 0x3002).unwrap(), 2);
    assert_eq!(read_u32(&mem, 0x300c).unwrap(), 3);

    // Acknowledging the interrupt clears it.
    dev.mmio_write(&mut mem, BASE + 0x064, AccessWidth::Dword, 1).unwrap();
    assert_eq!(dev.mmio_read(BASE + 0x060, AccessWidth::Dword).unwrap(), 0);
}

fn mem_status_reset(mem: &mut GuestMemory) {
    axvirtio::memory::write_bytes(mem, 0x6001, &[0xff]).unwrap();
}

#[test]
fn test_block_read_beyond_capacity_reports_ioerr() {
    let mut mem = GuestMemory::new(0, 0x10000);
    let mut dev = configured_device(&mut mem);
    write_u32(&mut mem, 0x4000, 0).unwrap();
    write_u64(&mut mem, 0x4008, 2048).unwrap();
    put_desc(&mut mem, 0, 0x4000, 16, 1, 1);
    put_desc(&mut mem, 1, 0x5000, 512, 1 | 2, 2);
    put_desc(&mut mem, 2, 0x6000, 1, 2, 0);
    write_u16(&mut mem, 0x2004, 0).unwrap();
    write_u16(&mut mem, 0x2002, 1).unwrap();
    dev.mmio_write(&mut mem, BASE + 0x050, AccessWidth::Dword, 0).unwrap();
    assert_eq!(mem.as_slice()[0x6000], 1);
    assert_eq!(read_u16(&mem, 0x3002).unwrap(), 1);
}

#[test]
fn test_block_notify_before_driver_ok_is_ignored() {
    let mut mem = GuestMemory::new(0, 0x10000);
    let mut dev = VirtioMmioDevice::new(0).unwrap();
    dev.mmio_write(&mut mem, BASE + 0x050, AccessWidth::Dword, 0).unwrap();
    assert_eq!(dev.get_status(), 0);
    assert_eq!(dev.mmio_read(BASE + 0x060, AccessWidth::Dword).unwrap(), 0);
}

#[test]
fn test_block_mmio_registers() {
    let mut mem = GuestMemory::new(0, 0x10000);
    let mut dev = VirtioMmioDevice::new(0).unwrap();
    assert_eq!(dev.mmio_read(BASE, AccessWidth::Dword).unwrap(), 0x7472_6976);
    assert_eq!(dev.mmio_read(BASE + 0x004, AccessWidth::Dword).unwrap(), 2);
    assert_eq!(dev.mmio_read(BASE + 0x008, AccessWidth::Dword).unwrap(), 2);
    assert_eq!(dev.mmio_read(BASE + 0x00c, AccessWidth::Dword).unwrap(), 0x1AF4);
    assert_eq!(dev.mmio_read(BASE + 0x010, AccessWidth::Dword).unwrap(), 0x2000_0000);
    dev.mmio_write(&mut mem, BASE + 0x014, AccessWidth::Dword, 1).unwrap();
    assert_eq!(dev.mmio_read(BASE + 0x010, AccessWidth::Dword).unwrap(), 1);
    dev.mmio_write(&mut mem, BASE + 0x014, AccessWidth::Dword, 2).unwrap();
    assert_eq!(dev.mmio_read(BASE + 0x010, AccessWidth::Dword).unwrap(), 0);
    assert_eq!(dev.mmio_read(BASE + 0x034, AccessWidth::Dword).unwrap(), 256);
    assert_eq!(
        dev.mmio_read(BASE + 0x000, AccessWidth::Byte),
        Err(VirtioError::InvalidAccessWidth)
    );
    assert_eq!(dev.mmio_read(BASE + 0x0f0, AccessWidth::Dword), Err(VirtioError::InvalidRegister));
    assert_eq!(
        dev.mmio_write(&mut mem, BASE + 0x0f0, AccessWidth::Dword, 1),
        Err(VirtioError::InvalidRegister)
    );
    // Driver features: written through the selector, read back through it.
    dev.mmio_write(&mut mem, BASE + 0x024, AccessWidth::Dword, 1).unwrap();
    dev.mmio_write(&mut mem, BASE + 0x020, AccessWidth::Dword, 0xabcd).unwrap();
    assert_eq!(dev.mmio_read(BASE + 0x020, AccessWidth::Dword).unwrap(), 0xabcd);
    dev.mmio_write(&mut mem, BASE + 0x024, AccessWidth::Dword, 0).unwrap();
    assert_eq!(dev.mmio_read(BASE + 0x020, AccessWidth::Dword).unwrap(), 0x2000_0000);
    // Queue selector beyond the queues is ignored.
    dev.mmio_write(&mut mem, BASE + 0x030, AccessWidth::Dword, 3).unwrap();
    assert_eq!(dev.get_selected_queue(), Some(0));
    // A status write of 0 resets the device.
    dev.mmio_write(&mut mem, BASE + 0x070, AccessWidth::Dword, 7).unwrap();
    assert_eq!(dev.get_status(), 7);
    dev.mmio_write(&mut mem, BASE + 0x070, AccessWidth::Dword, 0).unwrap();
    assert_eq!(dev.get_status(), 0);
    assert_eq!(dev.mmio_read(BASE + 0x020, AccessWidth::Dword).unwrap(), 0);
    assert!(dev.get_queue(0).is_some());
    assert!(dev.get_queue(1).is_none());
}

#[test]
fn test_block_address_range() {
    let dev = VirtioMmioDevice::new(2).unwrap();
    assert!(dev.is_enabled());
    assert!(dev.is_address_in_range(0x0a00_0400));
    assert!(dev.is_address_in_range(0x0a00_05ff));
    assert!(!dev.is_address_in_range(0x0a00_0600));
    assert!(!dev.is_address_in_range(0x0a00_03ff));
    let off = VirtioMmioDevice::new(40).unwrap();
    assert!(!off.is_enabled());
    assert!(!off.is_address_in_range(0x0a00_5000));
}

#[test]
fn test_memory_backend_rules() {
    assert_eq!(MemoryBackend::new(0, false, 0).err(), Some(VirtioError::InvalidConfig));
    let mut b = MemoryBackend::new(4, false, 0).unwrap();
    let data = [7u8; 512];
    assert_eq!(b.write(1, &data), Ok(512));
    let mut out = [0u8; 1024];
    assert_eq!(b.read(0, &mut out), Ok(1024));
    assert_eq!(&out[..512], &[0u8; 512][..]);
    assert_eq!(&out[512..], &data[..]);
    let mut odd = [0u8; 100];
    assert_eq!(b.read(0, &mut odd), Err(VirtioError::InvalidBufferSize));
    assert_eq!(b.read(4, &mut out[..512]), Err(VirtioError::InvalidSector));
    assert_eq!(b.write(3, &[0u8; 1024]), Err(VirtioError::InvalidSector));
    assert_eq!(b.flush(), Ok(()));
    let mut ro = MemoryBackend::new(4, true, 0).unwrap();
    assert_eq!(ro.write(0, &data), Err(VirtioError::BackendError));
    assert!(create_default_backend(0).is_ok());
}

#[test]
fn test_block_request_type_codes() {
    assert_eq!(BlockRequestType::from(0u32), BlockRequestType::Read);
    assert_eq!(BlockRequestType::from(1u32), BlockRequestType::Write);
    assert_eq!(BlockRequestType::from(4u32), BlockRequestType::Flush);
    assert_eq!(BlockRequestType::from(99u32), BlockRequestType::Read);
    assert_eq!(u32::from(BlockRequestType::Flush), 4);
    assert_eq!(u32::from(BlockRequestType::Write), 1);
}

#[test]
fn test_block_request_execute_flush_and_size() {
    let mut mem = GuestMemory::new(0, 0x1000);
    let mut backend = MemoryBackend::new(8, false, 0).unwrap();
    let req = BlockRequest::new_virtio(BlockRequestType::Flush, 0, vec![], 0x10);
    assert_eq!(req.size(), 0);
    let res = req.execute(&mut backend, &mut mem);
    assert_eq!(res.status, 0);
    assert_eq!(mem.as_slice()[0x10], 0);
    let req = BlockRequest::new_virtio(
        BlockRequestType::Read,
        0,
        vec![(0x100, 512, true), (0x400, 100, false)],
        0x20,
    );
    assert_eq!(req.size(), 612);
    // 612 bytes are no whole number of sectors: the backend refuses the read.
    let res = req.execute(&mut backend, &mut mem);
    assert_eq!(res.status, 1);
    assert_eq!(mem.as_slice()[0x20], 1);
}

#[test]
fn test_block_config_default() {
    let c = VirtioBlockConfig::default();
    assert_eq!(c.capacity, 2048);
    assert_eq!(c.read(0x00), 2048);
    assert_eq!(c.read(0x04), 0);
    assert_eq!(c.read(0x14), 512);
    assert_eq!(c.read(0x40), 0);
    let g = VirtioBlockConfig { cylinders: 0x1234, heads: 0x56, sectors: 0x78, ..c };
    assert_eq!(g.read(0x10), 0x7856_1234);
}

#[test]
fn test_memory_backend_boot_image() {
    let image = [0xEBu8, 0x58, 0x90, 0x4D];
    // a disk of 34 sectors or more starts with the image
    let big = MemoryBackend::with_image(34, false, 0, &image).unwrap();
    let mut out = [0xFFu8; 512];
    assert_eq!(big.read(0, &mut out), Ok(512));
    assert_eq!(&out[..4], &image[..]);
    assert_eq!(&out[4..], &[0u8; 508][..]);
    // a smaller disk is all zeros
    let small = MemoryBackend::with_image(33, false, 0, &image).unwrap();
    assert_eq!(small.read(0, &mut out), Ok(512));
    assert_eq!(out, [0u8; 512]);
    assert_eq!(MemoryBackend::with_image(0, false, 0, &image).err(), Some(VirtioError::InvalidConfig));
}

#[test]
fn test_complete_read_scatters_into_writable_buffers() {
    let mut mem = GuestMemory::new(0, 0x1000);
    let req = BlockRequest::new_virtio(
        BlockRequestType::Read,
        0,
        vec![(0x100, 2, true), (0x200, 4, false), (0x300, 3, true)],
        0x400,
    );
    let data = [1u8, 2, 3, 4, 5];
    assert_eq!(req.complete_read(&mut mem, &data), 0);
    assert_eq!(&mem.as_slice()[0x100..0x102], &[1, 2]);
    assert_eq!(&mem.as_slice()[0x300..0x303], &[3, 4, 5]);
    assert_eq!(&mem.as_slice()[0x200..0x204], &[0, 0, 0, 0]);
    // a buffer that runs past the data stops the copy with IOERR
    let short = [9u8; 3];
    let mut mem2 = GuestMemory::new(0, 0x1000);
    assert_eq!(req.complete_read(&mut mem2, &short), 1);
    assert_eq!(&mem2.as_slice()[0x100..0x102], &[9, 9]);
    assert_eq!(&mem2.as_slice()[0x300..0x303], &[0, 0, 0]);
}
