use axvirtio::device_type::VirtioDeviceType;
use axvirtio::memory::{read_u16, read_u32, write_u16, write_u32, write_u64, GuestMemory};
use axvirtio::queue::{
    AvailableRing, DescriptorTable, UsedRing, VirtioQueue, VirtqAvail, VirtqDesc, VirtqUsed,
    VirtqUsedElem,
};

#[test]
fn test_used_ring_functionality() {
    let base_addr = 0x1000usize;
    let queue_size = 16;
    let used_ring = UsedRing::new(base_addr, queue_size);

    assert_eq!(used_ring.get_used_idx(), 0);
    assert!(used_ring.is_valid());
    assert_eq!(used_ring.header_addr(), base_addr);
    assert_eq!(used_ring.ring_addr(), base_addr + core::mem::size_of::<VirtqUsed>());

    let entry_addr = used_ring.ring_entry_addr(0);
    assert!(entry_addr.is_some());
    let entry_addr = used_ring.ring_entry_addr(queue_size);
    assert!(entry_addr.is_none());

    let expected_size = core::mem::size_of::<VirtqUsed>()
        + (queue_size as usize * core::mem::size_of::<VirtqUsedElem>())
        + 2;
    assert_eq!(used_ring.total_size(), expected_size);
}

#[test]
fn test_virtio_queue_used_ring_integration() {
    let mut queue = VirtioQueue::new(0, 16);
    assert!(queue.get_used_ring().is_none());

    let used_addr = 0x3000usize;
    let _ = queue.set_used_ring_addr(used_addr);

    assert!(queue.get_used_ring().is_some());
    let used_ring = queue.get_used_ring().unwrap();
    assert_eq!(used_ring.base_addr, used_addr);
    assert_eq!(used_ring.size, 16);

    queue.reset();
    assert!(queue.get_used_ring().is_none());
}

#[test]
fn test_virtq_used_elem() {
    let elem = VirtqUsedElem::new(42, 1024);
    assert_eq!(elem.id(), 42);
    assert_eq!(elem.len(), 1024);
}

#[test]
fn test_descriptor_table_functionality() {
    let base_addr = 0x2000usize;
    let table_size = 16;
    let desc_table = DescriptorTable::new(base_addr, table_size);

    assert!(desc_table.is_valid());
    assert_eq!(desc_table.base_addr, base_addr);
    assert_eq!(desc_table.size, table_size);

    let desc_addr = desc_table.desc_addr(0);
    assert!(desc_addr.is_some());
    assert_eq!(desc_addr.unwrap(), base_addr);

    let desc_addr = desc_table.desc_addr(1);
    assert!(desc_addr.is_some());
    assert_eq!(desc_addr.unwrap(), base_addr + core::mem::size_of::<VirtqDesc>());

    let desc_addr = desc_table.desc_addr(table_size);
    assert!(desc_addr.is_none());

    let expected_size = table_size as usize * core::mem::size_of::<VirtqDesc>();
    assert_eq!(desc_table.total_size(), expected_size);
}

#[test]
fn test_available_ring_functionality() {
    let base_addr = 0x4000usize;
    let ring_size = 16;
    let avail_ring = AvailableRing::new(base_addr, ring_size);

    assert!(avail_ring.is_valid());
    assert_eq!(avail_ring.base_addr, base_addr);
    assert_eq!(avail_ring.size, ring_size);
    assert_eq!(avail_ring.last_avail_idx, 0);

    assert_eq!(avail_ring.header_addr(), base_addr);
    assert_eq!(avail_ring.ring_addr(), base_addr + core::mem::size_of::<VirtqAvail>());

    let entry_addr = avail_ring.ring_entry_addr(0);
    assert!(entry_addr.is_some());
    let entry_addr = avail_ring.ring_entry_addr(ring_size);
    assert!(entry_addr.is_none());

    let expected_size = core::mem::size_of::<VirtqAvail>() + (ring_size as usize * 2) + 2;
    assert_eq!(avail_ring.total_size(), expected_size);
}

#[test]
fn test_virtio_queue_full_integration() {
    let mut queue = VirtioQueue::new(0, 16);

    assert!(queue.get_desc_table().is_none());
    assert!(queue.get_avail_ring().is_none());
    assert!(queue.get_used_ring().is_none());

    let desc_addr = 0x1000usize;
    let _ = queue.set_desc_table_addr(desc_addr);
    assert!(queue.get_desc_table().is_some());
    let desc_table = queue.get_desc_table().unwrap();
    assert_eq!(desc_table.base_addr, desc_addr);

    let avail_addr = 0x2000usize;
    let _ = queue.set_avail_ring_addr(avail_addr);
    assert!(queue.get_avail_ring().is_some());
    let avail_ring = queue.get_avail_ring().unwrap();
    assert_eq!(avail_ring.base_addr, avail_addr);

    let used_addr = 0x3000usize;
    let _ = queue.set_used_ring_addr(used_addr);
    assert!(queue.get_used_ring().is_some());
    let used_ring = queue.get_used_ring().unwrap();
    assert_eq!(used_ring.base_addr, used_addr);

    queue.reset();
    assert!(queue.get_desc_table().is_none());
    assert!(queue.get_avail_ring().is_none());
    assert!(queue.get_used_ring().is_none());
}

#[test]
fn test_virtq_desc_flags() {
    let mut desc = VirtqDesc { addr: 0x1000, len: 512, flags: 0, next: 0 };

    assert!(!desc.has_next());
    assert!(!desc.is_write_only());
    assert!(!desc.is_indirect());

    desc.set_next(true);
    assert!(desc.has_next());

    desc.set_write_only(true);
    assert!(desc.is_write_only());

    desc.set_indirect(true);
    assert!(desc.is_indirect());

    desc.set_next(false);
    assert!(!desc.has_next());

    desc.set_write_only(false);
    assert!(!desc.is_write_only());

    desc.set_indirect(false);
    assert!(!desc.is_indirect());
}

/// Writes descriptor `index` of the table at `table`.
fn put_desc(mem: &mut GuestMemory, table: usize, index: usize, addr: u64, len: u32, flags: u16, next: u16) {
    let at = table + index * 16;
    write_u64(mem, at, addr).unwrap();
    write_u32(mem, at + 8, len).unwrap();
    write_u16(mem, at + 12, flags).unwrap();
    write_u16(mem, at + 14, next).unwrap();
}

#[test]
fn test_follow_chain_and_data_buffers() {
    let mut mem = GuestMemory::new(0, 0x10000);
    let table = DescriptorTable::new(0x1000, 8);
    put_desc(&mut mem, 0x1000, 0, 0x4000, 16, 1, 1);
    put_desc(&mut mem, 0x1000, 1, 0x5000, 512, 1 | 2, 2);
    put_desc(&mut mem, 0x1000, 2, 0x6000, 1, 2, 0);

    let chain = table.follow_chain(&mem, 0).unwrap();
    assert_eq!(chain.len(), 3);
    assert_eq!(chain[1].addr, 0x5000);
    assert_eq!(table.chain_length(&mem, 0).unwrap(), 16 + 512 + 1);

    let block = table.get_data_buffers(&mem, 0, VirtioDeviceType::Block).unwrap();
    assert_eq!(block, vec![(0x5000usize, 512usize, true)]);
    let console = table.get_data_buffers(&mem, 0, VirtioDeviceType::Console).unwrap();
    assert_eq!(console.len(), 3);
    assert_eq!(table.get_status_addr(&mem, 0).unwrap(), 0x6000);
}

#[test]
fn test_follow_chain_refuses_index_beyond_table() {
    let mut mem = GuestMemory::new(0, 0x10000);
    let table = DescriptorTable::new(0x1000, 4);
    put_desc(&mut mem, 0x1000, 0, 0x4000, 16, 1, 9);
    assert!(table.follow_chain(&mem, 0).is_err());
    assert!(table.follow_chain(&mem, 4).is_err());
}

#[test]
fn test_follow_chain_stops_on_a_loop() {
    let mut mem = GuestMemory::new(0, 0x10000);
    let table = DescriptorTable::new(0x1000, 4);
    put_desc(&mut mem, 0x1000, 0, 0x4000, 16, 1, 1);
    put_desc(&mut mem, 0x1000, 1, 0x4000, 16, 1, 0);
    assert!(table.follow_chain(&mem, 0).is_err());
}

#[test]
fn test_add_used_publishes_element_and_index() {
    let mut mem = GuestMemory::new(0, 0x10000);
    let mut queue = VirtioQueue::new(0, 8);
    queue.set_desc_table_addr(0x1000).unwrap();
    queue.set_avail_ring_addr(0x2000).unwrap();
    queue.set_used_ring_addr(0x3000).unwrap();
    queue.set_ready(&mut mem, true);

    queue.add_used(&mut mem, 5, 77).unwrap();
    assert_eq!(read_u16(&mem, 0x3002).unwrap(), 1);
    assert_eq!(read_u32(&mem, 0x3004).unwrap(), 5);
    assert_eq!(read_u32(&mem, 0x3008).unwrap(), 77);

    queue.add_used(&mut mem, 6, 1).unwrap();
    assert_eq!(read_u16(&mem, 0x3002).unwrap(), 2);
    assert_eq!(read_u32(&mem, 0x300c).unwrap(), 6);
}

#[test]
fn test_add_used_on_queue_not_ready() {
    let mut mem = GuestMemory::new(0, 0x10000);
    let mut queue = VirtioQueue::new(0, 8);
    assert!(queue.add_used(&mut mem, 0, 0).is_err());
}

#[test]
fn test_set_size_rules() {
    let mut queue = VirtioQueue::new(0, 16);
    assert!(queue.set_size(8).is_ok());
    assert_eq!(queue.size, 8);
    assert!(queue.set_size(6).is_err());
    assert!(queue.set_size(0).is_err());
    assert!(queue.set_size(32).is_err());
    assert_eq!(queue.size, 8);
}

#[test]
fn test_ring_address_set_once() {
    let mut queue = VirtioQueue::new(0, 16);
    assert!(queue.set_desc_table_addr(0x1000).is_ok());
    assert!(queue.set_desc_table_addr(0x2000).is_err());
    assert_eq!(queue.desc_table_addr, 0x1000);
}

#[test]
fn test_read_avail_entry_and_last_avail() {
    let mut mem = GuestMemory::new(0, 0x10000);
    let mut queue = VirtioQueue::new(0, 8);
    queue.set_desc_table_addr(0x1000).unwrap();
    queue.set_avail_ring_addr(0x2000).unwrap();
    queue.set_used_ring_addr(0x3000).unwrap();
    write_u16(&mut mem, 0x2000 + 4 + 2 * 3, 7).unwrap();
    write_u16(&mut mem, 0x2002, 4).unwrap();
    assert_eq!(queue.read_avail_entry(&mem, 3).unwrap(), 7);
    assert_eq!(queue.read_avail_idx(&mem).unwrap(), 4);
    queue.update_last_avail_idx(4);
    assert_eq!(queue.get_last_avail_idx(), 4);
}

#[test]
fn test_should_notify_without_event_idx() {
    let mut mem = GuestMemory::new(0, 0x10000);
    let mut queue = VirtioQueue::new(0, 8);
    queue.set_desc_table_addr(0x1000).unwrap();
    queue.set_avail_ring_addr(0x2000).unwrap();
    queue.set_used_ring_addr(0x3000).unwrap();
    assert!(queue.should_notify(&mem).unwrap());
    write_u16(&mut mem, 0x2000, 1).unwrap();
    assert!(!queue.should_notify(&mem).unwrap());
}

#[test]
fn test_should_notify_with_event_idx() {
    let mut mem = GuestMemory::new(0, 0x10000);
    let mut queue = VirtioQueue::new(0, 8);
    queue.set_desc_table_addr(0x1000).unwrap();
    queue.set_avail_ring_addr(0x2000).unwrap();
    queue.set_used_ring_addr(0x3000).unwrap();
    queue.set_event_idx_enabled(true);
    queue.set_ready(&mut mem, true);
    // used_event sits after the 8 ring entries of the available ring
    write_u16(&mut mem, 0x2000 + 4 + 16, 0).unwrap();
    queue.add_used(&mut mem, 0, 0).unwrap();
    // first notification is always due
    assert!(queue.should_notify(&mem).unwrap());
    // no new used buffer: none due
    assert!(!queue.should_notify(&mem).unwrap());
    queue.add_used(&mut mem, 1, 0).unwrap();
    // the driver asked for index 0, already passed: none due
    assert!(!queue.should_notify(&mem).unwrap());
    write_u16(&mut mem, 0x2000 + 4 + 16, 2).unwrap();
    queue.add_used(&mut mem, 2, 0).unwrap();
    // the used index moved from 2 to 3 across used_event 2: due
    assert!(queue.should_notify(&mem).unwrap());
}

#[test]
fn test_write_status_byte() {
    let mut mem = GuestMemory::new(0, 0x10000);
    let mut queue = VirtioQueue::new(0, 8);
    queue.set_desc_table_addr(0x1000).unwrap();
    put_desc(&mut mem, 0x1000, 0, 0x4000, 16, 1, 1);
    put_desc(&mut mem, 0x1000, 1, 0x6000, 1, 2, 0);
    queue.write_status_byte(&mut mem, 0, 9).unwrap();
    assert_eq!(mem.as_slice()[0x6000], 9);
}
