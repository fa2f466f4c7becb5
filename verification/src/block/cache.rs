//! A write-back cache of one sector, for backends that keep the disk in a
//! host file, and the decisions such a backend takes around it on each read
//! and write. The backend performs the file I/O the decisions call for.

use crate::block::constants::SECTOR_SIZE;
use vstd::prelude::*;

verus! {

/// A cache of a single 512-byte sector with write-back support.
pub struct SectorCache {
    /// Cached data
    data: [u8; 512],
    /// The sector that is cached
    sector_num: u64,
    /// Whether the cache holds a sector
    valid: bool,
    /// Whether the cached data is newer than the disk's
    dirty: bool,
}

/// What a read of the file backend does, given its cache.
#[derive(Debug, Clone, Copy, PartialEq, Eq, Structural)]
pub enum ReadAction {
    /// Serve the sector from the cache.
    ServeFromCache,
    /// Write the dirty cached sector to the file, then serve it from the cache.
    FlushThenServeFromCache,
    /// Write the dirty cached sector to the file, then read from the file.
    FlushThenReadFile,
    /// Read from the file.
    ReadFile,
}

/// What a write of the file backend does, given its cache.
#[derive(Debug, Clone, Copy, PartialEq, Eq, Structural)]
pub enum WriteAction {
    /// Keep the sector in the cache (write-back).
    Cache,
    /// Write the dirty cached sector (another one) to the file, then keep
    /// the new sector in the cache.
    FlushThenCache,
    /// Write the data to the file (the cache no longer holds any of its sectors).
    WriteFile,
}

impl SectorCache {
    /// The cached data.
    pub closed spec fn spec_data(&self) -> Seq<u8> {
        self.data@
    }

    /// The cached sector.
    pub closed spec fn spec_sector(&self) -> u64 {
        self.sector_num
    }

    /// Whether the cache holds a sector.
    pub closed spec fn spec_valid(&self) -> bool {
        self.valid
    }

    /// Whether the cached data is newer than the disk's.
    pub closed spec fn spec_dirty(&self) -> bool {
        self.dirty
    }

    /// Whether the cache holds `sector`.
    pub open spec fn spec_hit(&self, sector: u64) -> bool {
        self.spec_valid() && self.spec_sector() == sector
    }

    /// An empty cache.
    pub fn new() -> (c: Self)
        ensures
            !c.spec_valid(),
            !c.spec_dirty(),
            c.spec_data() == Seq::new(512, |i: int| 0u8),
            c.spec_sector() == 0,
    {
        let c = Self { data: [0u8; 512], sector_num: 0, valid: false, dirty: false };
        assert(c.spec_data() =~= Seq::new(512, |i: int| 0u8));
        c
    }

    /// Forgets the cached sector.
    pub fn invalidate(&mut self)
        ensures
            !final(self).spec_valid(),
            !final(self).spec_dirty(),
            final(self).spec_data() == old(self).spec_data(),
            final(self).spec_sector() == old(self).spec_sector(),
    {
        self.valid = false;
        self.dirty = false;
    }

    /// Whether the cache holds `sector`.
    pub fn is_hit(&self, sector: u64) -> (b: bool)
        ensures
            b == self.spec_hit(sector),
    {
        self.valid && self.sector_num == sector
    }

    /// Whether the cached data is newer than the disk's.
    pub fn is_dirty(&self) -> (b: bool)
        ensures
            b == self.spec_dirty(),
    {
        self.dirty
    }

    /// Whether the cache holds a sector.
    pub fn is_valid(&self) -> (b: bool)
        ensures
            b == self.spec_valid(),
    {
        self.valid
    }

    /// Copies the first sector of `data` into the cache as `sector`.
    fn fill(&mut self, sector: u64, data: &[u8])
        requires
            data@.len() >= 512,
        ensures
            final(self).spec_data() == data@.subrange(0, 512),
            final(self).spec_sector() == sector,
            final(self).spec_valid() == old(self).spec_valid(),
            final(self).spec_dirty() == old(self).spec_dirty(),
    {
        let mut i: usize = 0;
        while i < 512
            invariant
                i <= 512,
                data@.len() >= 512,
                self.data@.len() == 512,
                forall|k: int| 0 <= k < i ==> self.data@[k] == data@[k],
                self.valid == old(self).valid,
                self.dirty == old(self).dirty,
            decreases 512 - i,
        {
            self.data[i] = data[i];
            i = i + 1;
        }
        self.sector_num = sector;
        assert(self.data@ =~= data@.subrange(0, 512));
    }

    /// Caches `sector`, just read from the disk: clean. A buffer shorter than
    /// a sector changes nothing.
    pub fn update_read(&mut self, sector: u64, data: &[u8])
        ensures
            data@.len() >= 512 ==> final(self).spec_data() == data@.subrange(0, 512) && final(self).spec_sector()
                == sector && final(self).spec_valid() && !final(self).spec_dirty(),
            data@.len() < 512 ==> *final(self) == *old(self),
    {
        if data.len() >= SECTOR_SIZE as usize {
            self.fill(sector, data);
            self.valid = true;
            self.dirty = false;
        }
    }

    /// Caches `sector`, just written by the guest: dirty. A buffer shorter
    /// than a sector changes nothing.
    pub fn update_write(&mut self, sector: u64, data: &[u8])
        ensures
            data@.len() >= 512 ==> final(self).spec_data() == data@.subrange(0, 512) && final(self).spec_sector()
                == sector && final(self).spec_valid() && final(self).spec_dirty(),
            data@.len() < 512 ==> *final(self) == *old(self),
    {
        if data.len() >= SECTOR_SIZE as usize {
            self.fill(sector, data);
            self.valid = true;
            self.dirty = true;
        }
    }

    /// The cached data.
    pub fn get_data(&self) -> (d: &[u8])
        ensures
            d@ == self.spec_data(),
    {
        self.data.as_slice()
    }

    /// Marks the cached data as written to the disk.
    pub fn mark_clean(&mut self)
        ensures
            !final(self).spec_dirty(),
            final(self).spec_valid() == old(self).spec_valid(),
            final(self).spec_data() == old(self).spec_data(),
            final(self).spec_sector() == old(self).spec_sector(),
    {
        self.dirty = false;
    }

    /// The cached sector.
    pub fn get_sector(&self) -> (s: u64)
        ensures
            s == self.spec_sector(),
    {
        self.sector_num
    }

    /// Whether the cache holds data the disk does not have yet.
    pub fn needs_flush(&self) -> (b: bool)
        ensures
            b == (self.spec_valid() && self.spec_dirty()),
    {
        self.valid && self.dirty
    }

    /// What a read of `len` bytes at `sector` does: a single sector that the
    /// cache holds is served from it (after writing it to the file if
    /// dirty); anything else is read from the file, after a dirty cached
    /// sector has been written out when the read is of a single sector.
    pub fn read_action(&self, sector: u64, len: usize) -> (a: ReadAction)
        ensures
            a == (if len == 512 {
                if self.spec_hit(sector) {
                    if self.spec_dirty() {
                        ReadAction::FlushThenServeFromCache
                    } else {
                        ReadAction::ServeFromCache
                    }
                } else if self.spec_valid() && self.spec_dirty() {
                    ReadAction::FlushThenReadFile
                } else {
                    ReadAction::ReadFile
                }
            } else {
                ReadAction::ReadFile
            }),
    {
        if len == SECTOR_SIZE as usize {
            if self.is_hit(sector) {
                if self.dirty {
                    ReadAction::FlushThenServeFromCache
                } else {
                    ReadAction::ServeFromCache
                }
            } else if self.valid && self.dirty {
                ReadAction::FlushThenReadFile
            } else {
                ReadAction::ReadFile
            }
        } else {
            ReadAction::ReadFile
        }
    }

    /// What a write of `len` bytes at `sector` does: a single sector goes to
    /// the cache (after a dirty cached sector of another number has been
    /// written out); a longer write goes to the file, and the cache forgets
    /// its sector if the write covers it.
    pub fn write_action(&mut self, sector: u64, len: usize) -> (a: WriteAction)
        requires
            sector + len / 512 <= u64::MAX,
        ensures
            len == 512 ==> *final(self) == *old(self) && a == (if old(self).spec_valid() && old(self).spec_dirty()
                && !old(self).spec_hit(sector) {
                WriteAction::FlushThenCache
            } else {
                WriteAction::Cache
            }),
            len != 512 ==> a == WriteAction::WriteFile && (if old(self).spec_valid() && sector
                <= old(self).spec_sector() < sector + len / 512 {
                !final(self).spec_valid() && !final(self).spec_dirty()
            } else {
                *final(self) == *old(self)
            }) && final(self).spec_data() == old(self).spec_data() && final(self).spec_sector()
                == old(self).spec_sector(),
    {
        if len == SECTOR_SIZE as usize {
            if self.valid && self.dirty && !self.is_hit(sector) {
                return WriteAction::FlushThenCache;
            }
            return WriteAction::Cache;
        }
        let sectors_written = (len / SECTOR_SIZE as usize) as u64;
        let mut i: u64 = 0;
        while i < sectors_written
            invariant
                i <= sectors_written,
                sector + sectors_written <= u64::MAX,
                sectors_written == len / 512,
                len != 512,
                *self == *old(self),
                !(self.spec_valid() && sector <= self.spec_sector() < sector + i),
            decreases sectors_written - i,
        {
            if self.is_hit(sector + i) {
                self.invalidate();
                return WriteAction::WriteFile;
            }
            i = i + 1;
        }
        WriteAction::WriteFile
    }
}

} // verus!
