//! The VirtIO network device behind its MMIO window.

use crate::config::VirtioConfig;
use crate::constants::{
    VIRTIO_DEVICE_ID_NET, VIRTIO_F_RING_EVENT_IDX, VIRTIO_F_VERSION_1, VIRTIO_MMIO_CONFIG,
    VIRTIO_MMIO_DRIVER_FEATURES,
    VIRTIO_MMIO_QUEUE_NOTIFY, VIRTIO_MMIO_STATUS,
};
use crate::error::{VirtioError, VirtioResult};
use crate::memory::GuestMemoryAccess;
use crate::net::backend::{MemoryNetworkBackend, NetworkBackend, create_default_backend};
use crate::net::config::{VirtioNetConfig, image_read};
use crate::net::constants::{VIRTIO_NET_RX_QUEUE, VIRTIO_NET_TX_QUEUE};
use crate::queue::VirtioQueue;
use crate::regs::{MmioRegisters, RegistersView, handles_write};
use crate::transport::{AccessWidth, MmioTransport, spec_validate_access};
use vstd::prelude::*;

verus! {

/// VirtIO network MMIO device.
pub struct VirtioNetDevice<B: NetworkBackend> {
    /// Base IPA address
    pub base_ipa: usize,
    /// MMIO region length
    pub length: usize,
    /// Device configuration
    pub config: VirtioConfig,
    /// Network device configuration
    pub net_config: VirtioNetConfig,
    /// The register file; its queues are [RX, TX]
    pub regs: MmioRegisters,
    /// Network backend
    pub backend: B,
}

impl<B: NetworkBackend> VirtioNetDevice<B> {
    /// The device's invariant: a network configuration for its window, and
    /// a well-formed register file with its two queues.
    pub open spec fn wf(&self) -> bool {
        &&& self.config == VirtioConfig::spec_new(
            self.config.device_index,
            VIRTIO_DEVICE_ID_NET,
            VIRTIO_F_VERSION_1 | VIRTIO_F_RING_EVENT_IDX,
            2,
        )
        &&& self.config.addressable()
        &&& self.regs@.wf()
        &&& self.regs@.queues.len() == 2
    }

    /// Whether the device index names one of the MMIO windows.
    pub open spec fn spec_enabled(&self) -> bool {
        self.config.device_index < crate::constants::VIRTIO_MAX_DEVICES
    }

    /// Whether `addr` lies in this device's window.
    pub open spec fn spec_in_range(&self, addr: usize) -> bool {
        self.spec_enabled() && self.config.spec_device_mmio_addr() <= addr
            < self.config.spec_device_mmio_addr() + self.config.mmio_size
    }

    /// What a read at `addr` returns: 0 for an access the validation
    /// refuses or outside the window; a common register, four bytes of the
    /// configuration space, or 0 for any other offset.
    pub open spec fn spec_read(&self, addr: usize, width: AccessWidth) -> usize {
        match spec_validate_access(addr, width, self.base_ipa, self.length) {
            Err(_) | Ok(None) => 0,
            Ok(Some(off)) => if !self.spec_in_range(addr) {
                0
            } else {
                match self.regs@.read_common(off, self.config) {
                    Some(v) => v as usize,
                    None => if off >= VIRTIO_MMIO_CONFIG {
                        image_read(self.net_config.spec_bytes(), off - VIRTIO_MMIO_CONFIG, 4) as usize
                    } else {
                        0
                    },
                }
            },
        }
    }

    /// The register file after a write of `v` at register offset `off`: the
    /// common registers but the ring addresses, the status (0 resets), and
    /// nothing for any other offset.
    pub open spec fn spec_write(r: RegistersView, off: usize, val: usize) -> RegistersView {
        if handles_write(off, false) {
            r.write_common_word(off, val, false)
        } else if off == VIRTIO_MMIO_STATUS {
            if val == 0 {
                RegistersView { status: 0, ..r.reset() }
            } else {
                RegistersView { status: (val as int % 0x1_0000_0000) as u32, ..r }
            }
        } else {
            r
        }
    }

    /// Creates the network device of window `device_index` over `backend`,
    /// with the backend's MAC address.
    pub fn with_backend(device_index: usize, backend: B) -> (r: VirtioResult<Self>)
        requires
            VirtioConfig::spec_new(
                device_index,
                VIRTIO_DEVICE_ID_NET,
                VIRTIO_F_VERSION_1 | VIRTIO_F_RING_EVENT_IDX,
                2,
            ).addressable(),
        ensures
            r is Ok,
            r->Ok_0.wf(),
            r->Ok_0.config == VirtioConfig::spec_new(
                device_index,
                VIRTIO_DEVICE_ID_NET,
                VIRTIO_F_VERSION_1 | VIRTIO_F_RING_EVENT_IDX,
                2,
            ),
            r->Ok_0.base_ipa == r->Ok_0.config.spec_device_mmio_addr(),
            r->Ok_0.length == r->Ok_0.config.total_mmio_size,
            r->Ok_0.backend == backend,
            r->Ok_0.regs@.status == 0,
            r->Ok_0.net_config.status == crate::net::constants::VIRTIO_NET_S_LINK_UP,
            r->Ok_0.net_config.mac@ == backend.spec_mac_address(),
    {
        let config = VirtioConfig::new_network_device(device_index);
        let mut queues: Vec<VirtioQueue> = Vec::new();
        queues.push(VirtioQueue::new(VIRTIO_NET_RX_QUEUE, config.max_queue_size));
        queues.push(VirtioQueue::new(VIRTIO_NET_TX_QUEUE, config.max_queue_size));
        let base_ipa = config.get_device_mmio_addr();
        let length = config.total_mmio_size;
        let mac_address = backend.get_mac_address();
        let net_config = VirtioNetConfig::new(mac_address);
        let regs = MmioRegisters::new(queues, 0);
        proof {
            assert(regs@.queues[0].wf() && regs@.queues[1].wf());
        }
        Ok(Self { base_ipa, length, config, net_config, regs, backend })
    }

    /// Whether the device index names one of the MMIO windows.
    pub fn is_enabled(&self) -> (b: bool)
        ensures
            b == self.spec_enabled(),
    {
        self.config.is_valid_device_index()
    }

    /// Whether `addr` lies in this device's window.
    pub fn is_address_in_range(&self, addr: usize) -> (b: bool)
        requires
            self.wf(),
        ensures
            b == self.spec_in_range(addr),
    {
        if !self.is_enabled() {
            return false;
        }
        let (start, end) = self.config.get_mmio_range();
        addr >= start && addr < end
    }

    /// Handles an MMIO read (see `spec_read`).
    pub fn mmio_read(&self, addr: usize, width: AccessWidth) -> (r: VirtioResult<usize>)
        requires
            self.wf(),
        ensures
            r == Ok::<usize, VirtioError>(self.spec_read(addr, width)),
    {
        let offset = match MmioTransport::validate_read_access(addr, width, self.base_ipa, self.length) {
            Ok(Some(offset)) => offset,
            _ => return Ok(0),
        };
        if !self.is_address_in_range(addr) {
            return Ok(0);
        }
        let value: u32 = match self.regs.read_common(offset, &self.config) {
            Some(v) => v,
            None => {
                if offset >= VIRTIO_MMIO_CONFIG {
                    let config_offset = offset - VIRTIO_MMIO_CONFIG;
                    self.net_config.read_config(config_offset as u64, 4)
                } else {
                    0
                }
            },
        };
        Ok(value as usize)
    }

    /// Handles an MMIO write: ignored when the validation refuses it or
    /// outside the window; otherwise the register file changes as
    /// `spec_write` says (queue notifications and configuration writes
    /// change nothing).
    pub fn mmio_write<M: GuestMemoryAccess>(&mut self, mem: &mut M, addr: usize, width: AccessWidth, val: usize) -> (r:
        VirtioResult<()>)
        requires
            old(self).wf(),
        ensures
            r is Ok,
            final(self).wf(),
            final(self).config == old(self).config,
            final(self).net_config == old(self).net_config,
            final(self).backend == old(self).backend,
            final(self).base_ipa == old(self).base_ipa,
            final(self).length == old(self).length,
            match spec_validate_access(addr, width, old(self).base_ipa, old(self).length) {
                Ok(Some(off)) if old(self).spec_in_range(addr) => {
                    let v = (val as int % 0x1_0000_0000) as u32;
                    &&& final(self).regs@ == Self::spec_write(old(self).regs@, off, val)
                    &&& final(mem).mem() == (if handles_write(off, false) && !old(self).regs@.wide_feature_write(
                        off,
                        val,
                    ) {
                        old(self).regs@.write_common_memory(off, v, old(mem).mem())
                    } else {
                        old(mem).mem()
                    })
                },
                _ => final(self).regs@ == old(self).regs@ && final(mem).mem() == old(mem).mem(),
            },
    {
        let offset = match MmioTransport::validate_write_access(addr, width, self.base_ipa, self.length) {
            Ok(Some(offset)) => offset,
            _ => return Ok(()),
        };
        if !self.is_address_in_range(addr) {
            return Ok(());
        }
        let word = val;
        let val = (val as u64 % 0x1_0000_0000) as u32;
        if MmioRegisters::handles(offset, false) {
            if offset == VIRTIO_MMIO_DRIVER_FEATURES && self.regs.driver_features_sel == 0 && word as u64
                >= 0x1_0000_0000 {
                let features = (self.regs.driver_features & 0xFFFF_FFFF_0000_0000u64) | (word as u64);
                self.regs.set_driver_features(features);
            } else {
                self.regs.write_common(mem, offset, val, false);
            }
        } else if offset == VIRTIO_MMIO_QUEUE_NOTIFY {
            self.handle_queue_notify((val % 0x1_0000) as u16);
        } else if offset == VIRTIO_MMIO_STATUS {
            self.regs.set_status(val);
            if word == 0 {
                self.reset_device();
            }
        }
        Ok(())
    }

    /// Handles a queue notification: receive and transmit processing are
    /// not implemented, so nothing changes.
    fn handle_queue_notify(&self, queue_index: u16) {
        if queue_index == VIRTIO_NET_RX_QUEUE {
            self.handle_rx_queue();
        } else if queue_index == VIRTIO_NET_TX_QUEUE {
            self.handle_tx_queue();
        }
    }

    /// Receive processing: not implemented.
    fn handle_rx_queue(&self) {
    }

    /// Transmit processing: not implemented.
    fn handle_tx_queue(&self) {
    }

    /// Resets the device (see `RegistersView::reset`).
    fn reset_device(&mut self)
        requires
            old(self).wf(),
        ensures
            final(self).wf(),
            final(self).regs@ == old(self).regs@.reset(),
            final(self).config == old(self).config,
            final(self).net_config == old(self).net_config,
            final(self).backend == old(self).backend,
            final(self).base_ipa == old(self).base_ipa,
            final(self).length == old(self).length,
    {
        self.regs.reset();
    }
}

impl VirtioNetDevice<MemoryNetworkBackend> {
    /// Creates the network device of window `device_index` over the
    /// default backend of that index.
    pub fn new(device_index: usize) -> (r: VirtioResult<Self>)
        requires
            VirtioConfig::spec_new(
                device_index,
                VIRTIO_DEVICE_ID_NET,
                VIRTIO_F_VERSION_1 | VIRTIO_F_RING_EVENT_IDX,
                2,
            ).addressable(),
        ensures
            r is Ok,
            r->Ok_0.wf(),
            r->Ok_0.config == VirtioConfig::spec_new(
                device_index,
                VIRTIO_DEVICE_ID_NET,
                VIRTIO_F_VERSION_1 | VIRTIO_F_RING_EVENT_IDX,
                2,
            ),
            r->Ok_0.net_config.mac@ == crate::net::backend::backend_mac(device_index),
    {
        let backend = create_default_backend(device_index)?;
        Self::with_backend(device_index, backend)
    }
}

} // verus!
