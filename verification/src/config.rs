//! Per-device MMIO placement and identity: where a device's register window
//! lies, which device it is, and the host paths and names derived from its index.

use crate::constants::{
    DEFAULT_QUEUE_SIZE, VIRTIO_DEVICE_ID_BLOCK, VIRTIO_DEVICE_ID_CONSOLE, VIRTIO_DEVICE_ID_NET,
    VIRTIO_F_RING_EVENT_IDX, VIRTIO_F_VERSION_1, VIRTIO_MAX_DEVICES, VIRTIO_MMIO_BASE,
    VIRTIO_MMIO_DEVICE_SIZE, VIRTIO_MMIO_TOTAL_SIZE, VIRTIO_VENDOR_ID,
};
use vstd::prelude::*;
use vstd::string::StringExecFns;

verus! {

/// The decimal digit character for `d` (0 <= d < 10).
pub open spec fn digit_char(d: nat) -> char {
    if d == 0 {
        '0'
    } else if d == 1 {
        '1'
    } else if d == 2 {
        '2'
    } else if d == 3 {
        '3'
    } else if d == 4 {
        '4'
    } else if d == 5 {
        '5'
    } else if d == 6 {
        '6'
    } else if d == 7 {
        '7'
    } else if d == 8 {
        '8'
    } else {
        '9'
    }
}

/// The decimal representation of `n`, without leading zeros.
pub open spec fn decimal(n: nat) -> Seq<char>
    decreases n,
{
    if n < 10 {
        seq![digit_char(n)]
    } else {
        decimal(n / 10).push(digit_char(n % 10))
    }
}

/// The one-character string of a decimal digit.
fn digit_str(d: usize) -> (s: &'static str)
    requires
        d < 10,
    ensures
        s@ == seq![digit_char(d as nat)],
{
    proof {
        reveal_strlit("0");
        reveal_strlit("1");
        reveal_strlit("2");
        reveal_strlit("3");
        reveal_strlit("4");
        reveal_strlit("5");
        reveal_strlit("6");
        reveal_strlit("7");
        reveal_strlit("8");
        reveal_strlit("9");
    }
    match d {
        0 => "0",
        1 => "1",
        2 => "2",
        3 => "3",
        4 => "4",
        5 => "5",
        6 => "6",
        7 => "7",
        8 => "8",
        _ => "9",
    }
}

/// Appends the decimal representation of `n` to `s`.
pub fn push_decimal(s: &mut String, n: usize)
    ensures
        final(s)@ == old(s)@ + decimal(n as nat),
    decreases n,
{
    if n >= 10 {
        push_decimal(s, n / 10);
    }
    s.append(digit_str(n % 10));
    proof {
        if n >= 10 {
            assert(old(s)@ + decimal((n / 10) as nat) + seq![digit_char((n % 10) as nat)] =~= old(
                s,
            )@ + decimal(n as nat));
        } else {
            assert(decimal(n as nat) == seq![digit_char(n as nat)]);
        }
    }
}

/// Configuration of a VirtIO device and its place among the MMIO windows.
#[derive(Debug, Clone, Copy)]
pub struct VirtioConfig {
    /// Base MMIO address of the first device window
    pub base_addr: usize,
    /// Size of the MMIO window of one device
    pub mmio_size: usize,
    /// Size of all MMIO windows together
    pub total_mmio_size: usize,
    /// Device ID
    pub device_id: u32,
    /// Vendor ID (0x1AF4 for Red Hat/QEMU)
    pub vendor_id: u32,
    /// Maximum queue size
    pub max_queue_size: u16,
    /// Number of queues supported
    pub num_queues: u16,
    /// Device features supported
    pub device_features: u64,
    /// Device index (which MMIO window the device occupies)
    pub device_index: usize,
}

impl VirtioConfig {
    /// The configuration `new` builds.
    pub open spec fn spec_new(device_index: usize, device_id: u32, device_features: u64, num_queues: u16) -> Self {
        VirtioConfig {
            base_addr: VIRTIO_MMIO_BASE,
            mmio_size: VIRTIO_MMIO_DEVICE_SIZE,
            total_mmio_size: VIRTIO_MMIO_TOTAL_SIZE,
            device_id,
            vendor_id: VIRTIO_VENDOR_ID,
            max_queue_size: DEFAULT_QUEUE_SIZE,
            num_queues,
            device_features,
            device_index,
        }
    }

    /// The start of this device's MMIO window.
    pub open spec fn spec_device_mmio_addr(&self) -> int {
        self.base_addr + self.device_index * VIRTIO_MMIO_DEVICE_SIZE
    }

    /// Whether this device's window, and the range it reports, lie within
    /// the address space.
    pub open spec fn addressable(&self) -> bool {
        self.spec_device_mmio_addr() + self.mmio_size <= usize::MAX
    }

    /// Creates a configuration for the device in window `device_index`.
    pub fn new(device_index: usize, device_id: u32, device_features: u64, num_queues: u16) -> (c: Self)
        ensures
            c == Self::spec_new(device_index, device_id, device_features, num_queues),
    {
        Self {
            base_addr: VIRTIO_MMIO_BASE,
            mmio_size: VIRTIO_MMIO_DEVICE_SIZE,
            total_mmio_size: VIRTIO_MMIO_TOTAL_SIZE,
            device_id,
            vendor_id: VIRTIO_VENDOR_ID,
            max_queue_size: DEFAULT_QUEUE_SIZE,
            num_queues,
            device_features,
            device_index,
        }
    }

    /// A block device: VERSION_1 and EVENT_IDX, one queue.
    pub fn new_block_device(device_index: usize) -> (c: Self)
        ensures
            c == Self::spec_new(
                device_index,
                VIRTIO_DEVICE_ID_BLOCK,
                VIRTIO_F_VERSION_1 | VIRTIO_F_RING_EVENT_IDX,
                1,
            ),
    {
        let features = VIRTIO_F_VERSION_1 | VIRTIO_F_RING_EVENT_IDX;
        Self::new(device_index, VIRTIO_DEVICE_ID_BLOCK, features, 1)
    }

    /// A network device: VERSION_1 and EVENT_IDX, receive and transmit queues.
    pub fn new_network_device(device_index: usize) -> (c: Self)
        ensures
            c == Self::spec_new(
                device_index,
                VIRTIO_DEVICE_ID_NET,
                VIRTIO_F_VERSION_1 | VIRTIO_F_RING_EVENT_IDX,
                2,
            ),
    {
        let features = VIRTIO_F_VERSION_1 | VIRTIO_F_RING_EVENT_IDX;
        Self::new(device_index, VIRTIO_DEVICE_ID_NET, features, 2)
    }

    /// A console device: VERSION_1, input and output queues.
    pub fn new_console_device(device_index: usize) -> (c: Self)
        ensures
            c == Self::spec_new(device_index, VIRTIO_DEVICE_ID_CONSOLE, VIRTIO_F_VERSION_1, 2),
    {
        let features = VIRTIO_F_VERSION_1;
        Self::new(device_index, VIRTIO_DEVICE_ID_CONSOLE, features, 2)
    }

    /// The start of this device's MMIO window.
    pub fn get_device_mmio_addr(&self) -> (a: usize)
        requires
            self.addressable(),
        ensures
            a == self.spec_device_mmio_addr(),
    {
        let offset = self.device_index * VIRTIO_MMIO_DEVICE_SIZE;
        self.base_addr + offset
    }

    /// This device's MMIO window as (start, end).
    pub fn get_mmio_range(&self) -> (r: (usize, usize))
        requires
            self.addressable(),
        ensures
            r.0 == self.spec_device_mmio_addr(),
            r.1 == self.spec_device_mmio_addr() + self.mmio_size,
    {
        let start_addr = self.get_device_mmio_addr();
        let end_addr = start_addr + self.mmio_size;
        (start_addr, end_addr)
    }

    /// Whether the device index names one of the MMIO windows.
    pub fn is_valid_device_index(&self) -> (b: bool)
        ensures
            b == (self.device_index < VIRTIO_MAX_DEVICES),
    {
        self.device_index < VIRTIO_MAX_DEVICES
    }

    /// The host path `/guest/{prefix}_{index}.{suffix}` of this device.
    pub fn get_device_path(&self, prefix: &str, suffix: &str) -> (p: String)
        ensures
            p@ == "/guest/"@ + prefix@ + seq!['_'] + decimal(self.device_index as nat) + seq!['.']
                + suffix@,
    {
        let mut s = String::from_str("/guest/");
        s.append(prefix);
        s.append("_");
        push_decimal(&mut s, self.device_index);
        s.append(".");
        s.append(suffix);
        proof {
            reveal_strlit("_");
            reveal_strlit(".");
        }
        s
    }

    /// The disk image path of a block device: `/guest/vm_{index}.img`.
    pub fn get_disk_path(&self) -> (p: String)
        ensures
            p@ == "/guest/"@ + "vm"@ + seq!['_'] + decimal(self.device_index as nat) + seq!['.']
                + "img"@,
    {
        self.get_device_path("vm", "img")
    }

    /// The network interface of a network device: `tap{index}`.
    pub fn get_network_interface(&self) -> (p: String)
        ensures
            p@ == "tap"@ + decimal(self.device_index as nat),
    {
        let mut s = String::from_str("tap");
        push_decimal(&mut s, self.device_index);
        s
    }

    /// The console socket path of a console device: `/guest/console_{index}.sock`.
    pub fn get_console_path(&self) -> (p: String)
        ensures
            p@ == "/guest/"@ + "console"@ + seq!['_'] + decimal(self.device_index as nat) + seq![
                '.',
            ] + "sock"@,
    {
        self.get_device_path("console", "sock")
    }
}

impl Default for VirtioConfig {
    /// The block device in window 0.
    fn default() -> (c: Self)
        ensures
            c == Self::spec_new(0, VIRTIO_DEVICE_ID_BLOCK, VIRTIO_F_VERSION_1 | VIRTIO_F_RING_EVENT_IDX, 1),
    {
        Self::new_block_device(0)
    }
}

} // verus!
