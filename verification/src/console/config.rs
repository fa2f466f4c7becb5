//! The configuration space of the VirtIO console device.

use crate::console::constants::{
    DEFAULT_CONSOLE_COLS, DEFAULT_CONSOLE_ROWS, DEFAULT_MAX_NR_PORTS, VIRTIO_CONSOLE_CFG_COLS,
    VIRTIO_CONSOLE_CFG_EMERG_WR, VIRTIO_CONSOLE_CFG_MAX_NR_PORTS, VIRTIO_CONSOLE_CFG_ROWS,
};
use vstd::prelude::*;

verus! {

/// VirtIO console device configuration: `cols: u16`, `rows: u16`,
/// `max_nr_ports: u32`, `emerg_wr: u32`, in this order, and whether the
/// device runs without interrupts.
#[derive(Debug, Clone, Copy, PartialEq, Eq, Structural)]
pub struct VirtioConsoleConfig {
    /// Terminal width in columns (2 bytes at offset 0x00)
    pub cols: u16,
    /// Terminal height in rows (2 bytes at offset 0x02)
    pub rows: u16,
    /// Maximum number of ports (4 bytes at offset 0x04)
    pub max_nr_ports: u32,
    /// Emergency write value (4 bytes at offset 0x08)
    pub emerg_wr: u32,
    /// Disable interrupts for polling mode operation
    pub disable_interrupts: bool,
}

impl VirtioConsoleConfig {
    /// The default configuration: 80 columns, 25 rows, one port, interrupts on.
    pub open spec fn spec_default() -> Self {
        VirtioConsoleConfig {
            cols: DEFAULT_CONSOLE_COLS,
            rows: DEFAULT_CONSOLE_ROWS,
            max_nr_ports: DEFAULT_MAX_NR_PORTS,
            emerg_wr: 0,
            disable_interrupts: false,
        }
    }

    /// The value a read at `offset` gives: the field that starts there, 0 elsewhere.
    pub open spec fn spec_read(self, offset: u64) -> u64 {
        if offset == VIRTIO_CONSOLE_CFG_COLS {
            self.cols as u64
        } else if offset == VIRTIO_CONSOLE_CFG_ROWS {
            self.rows as u64
        } else if offset == VIRTIO_CONSOLE_CFG_MAX_NR_PORTS {
            self.max_nr_ports as u64
        } else if offset == VIRTIO_CONSOLE_CFG_EMERG_WR {
            self.emerg_wr as u64
        } else {
            0
        }
    }

    /// The configuration after a write of `value` at `offset`: the field that
    /// starts there takes the value's low bytes; other offsets change nothing.
    pub open spec fn spec_write(self, offset: u64, value: u64) -> Self {
        if offset == VIRTIO_CONSOLE_CFG_COLS {
            VirtioConsoleConfig { cols: (value % 0x1_0000) as u16, ..self }
        } else if offset == VIRTIO_CONSOLE_CFG_ROWS {
            VirtioConsoleConfig { rows: (value % 0x1_0000) as u16, ..self }
        } else if offset == VIRTIO_CONSOLE_CFG_MAX_NR_PORTS {
            VirtioConsoleConfig { max_nr_ports: (value % 0x1_0000_0000) as u32, ..self }
        } else if offset == VIRTIO_CONSOLE_CFG_EMERG_WR {
            VirtioConsoleConfig { emerg_wr: (value % 0x1_0000_0000) as u32, ..self }
        } else {
            self
        }
    }

    /// A configuration of the given size, otherwise the default.
    pub fn with_size(cols: u16, rows: u16) -> (c: Self)
        ensures
            c == (VirtioConsoleConfig { cols, rows, ..Self::spec_default() }),
    {
        Self { cols, rows, ..Self::default() }
    }

    /// A configuration of the given size with interrupts disabled, for a
    /// driver that polls the used ring.
    pub fn with_polling_mode(cols: u16, rows: u16) -> (c: Self)
        ensures
            c == (VirtioConsoleConfig { cols, rows, disable_interrupts: true, ..Self::spec_default() }),
    {
        Self { cols, rows, disable_interrupts: true, ..Self::default() }
    }

    /// Whether interrupts are disabled.
    pub fn is_polling_mode(&self) -> (b: bool)
        ensures
            b == self.disable_interrupts,
    {
        self.disable_interrupts
    }

    /// Reads the configuration field at `offset` (see `spec_read`).
    pub fn read(&self, offset: u64, _width: u32) -> (v: u64)
        ensures
            v == self.spec_read(offset),
    {
        match offset {
            VIRTIO_CONSOLE_CFG_COLS => self.cols as u64,
            VIRTIO_CONSOLE_CFG_ROWS => self.rows as u64,
            VIRTIO_CONSOLE_CFG_MAX_NR_PORTS => self.max_nr_ports as u64,
            VIRTIO_CONSOLE_CFG_EMERG_WR => self.emerg_wr as u64,
            _ => 0,
        }
    }

    /// Writes the configuration field at `offset` (see `spec_write`).
    pub fn write(&mut self, offset: u64, value: u64, _width: u32)
        ensures
            *final(self) == old(self).spec_write(offset, value),
    {
        match offset {
            VIRTIO_CONSOLE_CFG_COLS => self.cols = (value % 0x1_0000) as u16,
            VIRTIO_CONSOLE_CFG_ROWS => self.rows = (value % 0x1_0000) as u16,
            VIRTIO_CONSOLE_CFG_MAX_NR_PORTS => self.max_nr_ports = (value % 0x1_0000_0000) as u32,
            VIRTIO_CONSOLE_CFG_EMERG_WR => self.emerg_wr = (value % 0x1_0000_0000) as u32,
            _ => {},
        }
    }

    /// The size of the configuration space in bytes.
    pub fn size() -> (n: usize)
        ensures
            n == 12,
    {
        12
    }
}

impl Default for VirtioConsoleConfig {
    /// 80 columns, 25 rows, one port, interrupts on.
    fn default() -> (c: Self)
        ensures
            c == Self::spec_default(),
    {
        Self {
            cols: DEFAULT_CONSOLE_COLS,
            rows: DEFAULT_CONSOLE_ROWS,
            max_nr_ports: DEFAULT_MAX_NR_PORTS,
            emerg_wr: 0,
            disable_interrupts: false,
        }
    }
}

/// Writing a configuration field and reading it back gives the value's low
/// bytes (two for the size fields, four for the others).
pub proof fn lemma_config_write_read(c: VirtioConsoleConfig, offset: u64, value: u64)
    ensures
        offset == VIRTIO_CONSOLE_CFG_COLS || offset == VIRTIO_CONSOLE_CFG_ROWS ==> c.spec_write(
            offset,
            value,
        ).spec_read(offset) == value % 0x1_0000,
        offset == VIRTIO_CONSOLE_CFG_MAX_NR_PORTS || offset == VIRTIO_CONSOLE_CFG_EMERG_WR
            ==> c.spec_write(offset, value).spec_read(offset) == value % 0x1_0000_0000,
{
}

} // verus!
