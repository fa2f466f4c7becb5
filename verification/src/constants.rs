//! Constants of the VirtIO MMIO transport and of the split virtqueue
//! layout, as the VirtIO 1.1 specification gives them.

use vstd::prelude::*;

verus! {

// ---------------------------------------------------------------------------
// MMIO register offsets
// ---------------------------------------------------------------------------

/// Magic value register ("virt")
pub const VIRTIO_MMIO_MAGIC_VALUE: usize = 0x000;
/// Device version register
pub const VIRTIO_MMIO_VERSION: usize = 0x004;
/// Device ID register
pub const VIRTIO_MMIO_DEVICE_ID: usize = 0x008;
/// Vendor ID register
pub const VIRTIO_MMIO_VENDOR_ID: usize = 0x00c;
/// Device features register
pub const VIRTIO_MMIO_DEVICE_FEATURES: usize = 0x010;
/// Device features word selector
pub const VIRTIO_MMIO_DEVICE_FEATURES_SEL: usize = 0x014;
/// Driver features register
pub const VIRTIO_MMIO_DRIVER_FEATURES: usize = 0x020;
/// Driver features word selector
pub const VIRTIO_MMIO_DRIVER_FEATURES_SEL: usize = 0x024;
/// Queue selector
pub const VIRTIO_MMIO_QUEUE_SEL: usize = 0x030;
/// Maximum queue size
pub const VIRTIO_MMIO_QUEUE_NUM_MAX: usize = 0x034;
/// Queue size
pub const VIRTIO_MMIO_QUEUE_NUM: usize = 0x038;
/// Queue ready bit
pub const VIRTIO_MMIO_QUEUE_READY: usize = 0x044;
/// Queue notifier
pub const VIRTIO_MMIO_QUEUE_NOTIFY: usize = 0x050;
/// Interrupt status
pub const VIRTIO_MMIO_INTERRUPT_STATUS: usize = 0x060;
/// Interrupt acknowledge
pub const VIRTIO_MMIO_INTERRUPT_ACK: usize = 0x064;
/// Device status
pub const VIRTIO_MMIO_STATUS: usize = 0x070;
/// Descriptor table address, low 32 bits
pub const VIRTIO_MMIO_QUEUE_DESC_LOW: usize = 0x080;
/// Descriptor table address, high 32 bits
pub const VIRTIO_MMIO_QUEUE_DESC_HIGH: usize = 0x084;
/// Available ring address, low 32 bits
pub const VIRTIO_MMIO_QUEUE_AVAIL_LOW: usize = 0x090;
/// Available ring address, high 32 bits
pub const VIRTIO_MMIO_QUEUE_AVAIL_HIGH: usize = 0x094;
/// Used ring address, low 32 bits
pub const VIRTIO_MMIO_QUEUE_USED_LOW: usize = 0x0a0;
/// Used ring address, high 32 bits
pub const VIRTIO_MMIO_QUEUE_USED_HIGH: usize = 0x0a4;
/// Configuration atomicity value
pub const VIRTIO_MMIO_CONFIG_GENERATION: usize = 0x0fc;
/// Start of the device-specific configuration space
pub const VIRTIO_MMIO_CONFIG: usize = 0x100;
/// Start of the device-specific configuration space (alias)
pub const VIRTIO_MMIO_CONFIG_OFFSET: usize = 0x100;

// ---------------------------------------------------------------------------
// MMIO register values
// ---------------------------------------------------------------------------

/// The magic value: the bytes "virt" read as a little-endian word.
pub const MMIO_MAGIC_VALUE: u32 = 0x7472_6976;
/// The modern (non-legacy) MMIO transport version.
pub const MMIO_VERSION: u32 = 2;
/// The vendor ID (Red Hat / QEMU).
pub const VIRTIO_VENDOR_ID: u32 = 0x1AF4;

/// Interrupt status bit: the device used a buffer.
pub const VIRTIO_MMIO_INT_VRING: u32 = 1;
/// Interrupt status bit: the configuration changed.
pub const VIRTIO_MMIO_INT_CONFIG: u32 = 2;

// ---------------------------------------------------------------------------
// Device status bits
// ---------------------------------------------------------------------------

/// The guest found the device.
pub const VIRTIO_STATUS_ACKNOWLEDGE: u32 = 1;
/// The guest knows how to drive the device.
pub const VIRTIO_STATUS_DRIVER: u32 = 2;
/// The driver is ready.
pub const VIRTIO_STATUS_DRIVER_OK: u32 = 4;
/// Feature negotiation is complete.
pub const VIRTIO_STATUS_FEATURES_OK: u32 = 8;
/// The device needs a reset.
pub const VIRTIO_STATUS_DEVICE_NEEDS_RESET: u32 = 64;
/// The guest gave up on the device.
pub const VIRTIO_STATUS_FAILED: u32 = 128;

// ---------------------------------------------------------------------------
// Feature bits
// ---------------------------------------------------------------------------

/// The device supports the used_event / avail_event fields.
pub const VIRTIO_F_RING_EVENT_IDX: u64 = 0x2000_0000;
/// The device complies with VirtIO 1.0 or later.
pub const VIRTIO_F_VERSION_1: u64 = 0x1_0000_0000;

// ---------------------------------------------------------------------------
// Device IDs
// ---------------------------------------------------------------------------

/// Network card
pub const VIRTIO_DEVICE_ID_NET: u32 = 1;
/// Block device
pub const VIRTIO_DEVICE_ID_BLOCK: u32 = 2;
/// Console
pub const VIRTIO_DEVICE_ID_CONSOLE: u32 = 3;

// ---------------------------------------------------------------------------
// MMIO placement of the devices
// ---------------------------------------------------------------------------

/// Guest physical address of the first device's MMIO window.
pub const VIRTIO_MMIO_BASE: usize = 0x0a00_0000;
/// Size of one device's MMIO window.
pub const VIRTIO_MMIO_DEVICE_SIZE: usize = 0x200;
/// Number of MMIO windows.
pub const VIRTIO_MAX_DEVICES: usize = 32;
/// Size of all MMIO windows together.
pub const VIRTIO_MMIO_TOTAL_SIZE: usize = 0x4000;

/// Default maximum queue size.
pub const DEFAULT_QUEUE_SIZE: u16 = 256;

// ---------------------------------------------------------------------------
// Virtqueue layout and flags
// ---------------------------------------------------------------------------

/// Size in bytes of a descriptor (addr: u64, len: u32, flags: u16, next: u16).
pub const VIRTQ_DESC_SIZE: usize = 16;
/// Size in bytes of a ring header (flags: u16, idx: u16).
pub const VIRTQ_RING_HEADER_SIZE: usize = 4;
/// Size in bytes of a used element (id: u32, len: u32).
pub const VIRTQ_USED_ELEM_SIZE: usize = 8;

/// The buffer continues in the `next` field.
pub const VIRTQ_DESC_F_NEXT: u16 = 1;
/// The buffer is device write-only.
pub const VIRTQ_DESC_F_WRITE: u16 = 2;
/// The buffer holds a list of descriptors.
pub const VIRTQ_DESC_F_INDIRECT: u16 = 4;

/// The driver asks the device not to interrupt.
pub const VIRTQ_AVAIL_F_NO_INTERRUPT: u16 = 1;
/// The device asks the driver not to notify.
pub const VIRTQ_USED_F_NO_NOTIFY: u16 = 1;

} // verus!
