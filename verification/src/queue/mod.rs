//! The split virtqueue: descriptor table, available ring and used ring, and
//! the queue that a device drives through them.

pub mod available;
pub mod descriptor;
pub mod used;

pub use available::{AvailableRing, VirtqAvail};
pub use descriptor::{DescriptorTable, VirtqDesc};
pub use used::{UsedRing, VirtqUsed, VirtqUsedElem};
pub mod virtqueue;

pub use virtqueue::VirtioQueue;
