//! Storage backends of the block device: the interface a backend offers
//! the device, and a backend that keeps the disk in memory.

use crate::block::constants::{DEFAULT_CAPACITY_SECTORS, SECTOR_SIZE_U64};
use crate::error::{VirtioError, VirtioResult};
use crate::memory::left_open;
use vstd::prelude::*;

verus! {

/// `contents` with `data` written over it from byte `at` on.
pub open spec fn splice(contents: Seq<u8>, at: int, data: Seq<u8>) -> Seq<u8> {
    contents.subrange(0, at) + data + contents.subrange(at + data.len(), contents.len() as int)
}

/// A block storage backend: a disk of bytes addressed in 512-byte sectors.
pub trait BlockBackend {
    /// The disk's contents, byte by byte. A backend may give its own; one
    /// that does not (over a host file or device, say) leaves them
    /// unspecified: they stand for the bytes stored there, which nothing here
    /// fixes.
    open spec fn contents(&self) -> Seq<u8> {
        (choose|f: spec_fn(&Self) -> Seq<u8>| #[trigger] left_open(f))(self)
    }

    /// Whether a read of `len` bytes from sector `sector` on may end in
    /// `r`. A backend may give its own relation, which every read it takes
    /// meets; by default any outcome may follow. It is a relation, not a
    /// record of calls: where it allows an outcome whatever the arguments,
    /// it says nothing of what the device asked for.
    open spec fn spec_read_result(&self, sector: u64, len: nat, r: VirtioResult<usize>) -> bool {
        true
    }

    /// Whether a write of `data` from sector `sector` on may end in `r`,
    /// as `spec_read_result` is for reads.
    open spec fn spec_write_result(&self, sector: u64, data: Seq<u8>, r: VirtioResult<usize>) -> bool {
        true
    }

    /// Whether a flush may end in `r`, as `spec_read_result` is for reads.
    open spec fn spec_flush_result(&self, r: VirtioResult<()>) -> bool {
        true
    }

    /// Reads `buffer.len()` bytes from sector `sector` on into `buffer`.
    /// On success all of the buffer was read, from within the disk.
    fn read(&self, sector: u64, buffer: &mut [u8]) -> (r: VirtioResult<usize>)
        ensures
            final(buffer)@.len() == old(buffer)@.len(),
            self.spec_read_result(sector, old(buffer)@.len(), r),
            r is Ok ==> r->Ok_0 == old(buffer)@.len() && sector * 512 + old(buffer)@.len()
                <= self.contents().len() && final(buffer)@ == self.contents().subrange(
                sector * 512,
                sector * 512 + old(buffer)@.len(),
            ),
    ;

    /// Writes `buffer` to the disk from sector `sector` on. On success all of
    /// it was written, within the disk; on failure the disk is unchanged.
    fn write(&mut self, sector: u64, buffer: &[u8]) -> (r: VirtioResult<usize>)
        ensures
            old(self).spec_write_result(sector, buffer@, r),
            match r {
                Ok(n) => n == buffer@.len() && sector * 512 + buffer@.len() <= old(self).contents().len()
                    && final(self).contents() == splice(old(self).contents(), sector * 512, buffer@),
                Err(_) => final(self).contents() == old(self).contents(),
            },
    ;

    /// Makes written data durable.
    fn flush(&self) -> (r: VirtioResult<()>)
        ensures
            self.spec_flush_result(r),
    ;
}

/// A write to the disk is read back as written, and leaves every other
/// byte and the disk's size as they were.
pub proof fn lemma_write_then_read(contents: Seq<u8>, at: int, data: Seq<u8>)
    requires
        0 <= at,
        at + data.len() <= contents.len(),
    ensures
        splice(contents, at, data).len() == contents.len(),
        splice(contents, at, data).subrange(at, at + data.len()) == data,
        forall|i: int|
            0 <= i < contents.len() && !(at <= i < at + data.len()) ==> #[trigger] splice(contents, at, data)[i]
                == contents[i],
{
    assert(splice(contents, at, data).subrange(at, at + data.len()) =~= data);
}

/// The error that an access of `size` bytes at `sector` meets on a disk of
/// `capacity` sectors: a size that is no whole number of sectors, or sectors
/// beyond the end.
pub open spec fn sector_access_error(capacity: u64, sector: u64, size: usize) -> Option<VirtioError> {
    if size % 512 != 0 {
        Some(VirtioError::InvalidBufferSize)
    } else if sector + size / 512 > capacity {
        Some(VirtioError::InvalidSector)
    } else {
        None
    }
}

/// An access that `sector_access_error` accepts lies within the disk.
proof fn lemma_access_in_bounds(capacity: u64, sector: u64, size: usize)
    requires
        sector_access_error(capacity, sector, size) is None,
    ensures
        sector * 512 + size <= capacity * 512,
{
    assert(size == (size / 512) * 512);
    assert(sector * 512 + (size / 512) * 512 <= capacity * 512) by (nonlinear_arith)
        requires
            sector + size / 512 <= capacity,
    ;
}

/// Checks that `size` bytes at `sector` are whole sectors within a disk of
/// `capacity` sectors (see `sector_access_error`).
pub fn check_sector_access(capacity: u64, sector: u64, size: usize) -> (r: VirtioResult<()>)
    ensures
        match sector_access_error(capacity, sector, size) {
            Some(e) => r == Err::<(), VirtioError>(e),
            None => r is Ok,
        },
{
    let block_size: usize = 512;
    if size % block_size != 0 {
        return Err(VirtioError::InvalidBufferSize);
    }
    let sectors_needed = (size / block_size) as u64;
    if sector > capacity || sectors_needed > capacity - sector {
        return Err(VirtioError::InvalidSector);
    }
    Ok(())
}

/// Checks the settings of a disk kept in a host file: it needs a path and
/// at least one sector.
pub fn check_file_backend_config(file_path: &str, capacity_sectors: u64) -> (r: VirtioResult<()>)
    ensures
        r == (if file_path@.len() == 0 || capacity_sectors == 0 {
            Err::<(), VirtioError>(VirtioError::InvalidConfig)
        } else {
            Ok(())
        }),
{
    if file_path.is_empty() || capacity_sectors == 0 {
        return Err(VirtioError::InvalidConfig);
    }
    Ok(())
}

/// The smallest disk, in sectors, that an in-memory backend starts with a
/// boot image in.
pub const BOOT_IMAGE_MIN_SECTORS: u64 = 34;

/// A block backend that keeps the whole disk in memory.
pub struct MemoryBackend {
    /// Storage data
    data: Vec<u8>,
    /// Device capacity in sectors
    capacity: u64,
    /// Read-only flag
    read_only: bool,
}

impl MemoryBackend {
    /// The capacity in sectors.
    pub closed spec fn spec_capacity(&self) -> u64 {
        self.capacity
    }

    /// Whether writes are refused.
    pub closed spec fn spec_read_only(&self) -> bool {
        self.read_only
    }

    /// The disk holds exactly `capacity` sectors.
    pub closed spec fn wf(&self) -> bool {
        self.data@.len() == self.capacity * 512
    }

    /// A disk of `capacity_sectors` sectors with no boot image: all zeros
    /// (see `with_image`); refused (`InvalidConfig`) when the capacity is 0.
    pub fn new(capacity_sectors: u64, read_only: bool, device_index: usize) -> (r: VirtioResult<Self>)
        requires
            capacity_sectors * 512 <= usize::MAX,
        ensures
            match r {
                Ok(b) => capacity_sectors != 0 && b.wf() && b.spec_capacity() == capacity_sectors
                    && b.spec_read_only() == read_only && b.contents() == Seq::new(
                    (capacity_sectors * 512) as nat,
                    |i: int| 0u8,
                ),
                Err(e) => capacity_sectors == 0 && e == VirtioError::InvalidConfig,
            },
    {
        let none: [u8; 0] = [];
        let r = Self::with_image(capacity_sectors, read_only, device_index, &none);
        proof {
            if r is Ok {
                assert(r->Ok_0.contents() =~= Seq::new((capacity_sectors * 512) as nat, |i: int| 0u8));
            }
        }
        r
    }

    /// A disk of `capacity_sectors` sectors, refused (`InvalidConfig`) when
    /// the capacity is 0. A disk of at least `BOOT_IMAGE_MIN_SECTORS`
    /// sectors starts with the boot image `image`, the rest zeros; a smaller
    /// one is all zeros.
    pub fn with_image(capacity_sectors: u64, read_only: bool, _device_index: usize, image: &[u8]) -> (r: VirtioResult<Self>)
        requires
            capacity_sectors * 512 <= usize::MAX,
            capacity_sectors >= BOOT_IMAGE_MIN_SECTORS ==> image@.len() <= capacity_sectors * 512,
        ensures
            match r {
                Ok(b) => capacity_sectors != 0 && b.wf() && b.spec_capacity() == capacity_sectors
                    && b.spec_read_only() == read_only && b.contents() == Seq::new(
                    (capacity_sectors * 512) as nat,
                    |i: int|
                        if capacity_sectors >= BOOT_IMAGE_MIN_SECTORS && i < image@.len() {
                            image@[i]
                        } else {
                            0u8
                        },
                ),
                Err(e) => capacity_sectors == 0 && e == VirtioError::InvalidConfig,
            },
    {
        if capacity_sectors == 0 {
            return Err(VirtioError::InvalidConfig);
        }
        let capacity_bytes = (capacity_sectors * SECTOR_SIZE_U64) as usize;
        let mut data = vec![0u8; capacity_bytes];
        if capacity_sectors >= BOOT_IMAGE_MIN_SECTORS {
            let mut i: usize = 0;
            while i < image.len()
                invariant
                    i <= image@.len(),
                    image@.len() <= capacity_bytes,
                    data@.len() == capacity_bytes,
                    forall|k: int| 0 <= k < capacity_bytes ==> #[trigger] data@[k] == (if k < i {
                        image@[k]
                    } else {
                        0u8
                    }),
                decreases image@.len() - i,
            {
                data.set(i, image[i]);
                i = i + 1;
            }
        }
        let b = Self { data, capacity: capacity_sectors, read_only };
        assert(b.contents() =~= Seq::new(
            (capacity_sectors * 512) as nat,
            |i: int|
                if capacity_sectors >= BOOT_IMAGE_MIN_SECTORS && i < image@.len() {
                    image@[i]
                } else {
                    0u8
                },
        ));
        Ok(b)
    }

    /// Checks that `size` bytes at `sector` are whole sectors within the disk.
    fn validate_sector_access(&self, sector: u64, size: usize) -> (r: VirtioResult<()>)
        ensures
            match sector_access_error(self.capacity, sector, size) {
                Some(e) => r == Err::<(), VirtioError>(e),
                None => r is Ok,
            },
    {
        check_sector_access(self.capacity, sector, size)
    }
}

impl BlockBackend for MemoryBackend {
    closed spec fn contents(&self) -> Seq<u8> {
        self.data@
    }

    open spec fn spec_read_result(&self, sector: u64, len: nat, r: VirtioResult<usize>) -> bool {
        self.wf() ==> r == match sector_access_error(self.spec_capacity(), sector, len as usize) {
            Some(e) => Err::<usize, VirtioError>(e),
            None => Ok(len as usize),
        }
    }

    open spec fn spec_write_result(&self, sector: u64, data: Seq<u8>, r: VirtioResult<usize>) -> bool {
        self.wf() ==> r == (if self.spec_read_only() {
            Err(VirtioError::BackendError)
        } else {
            match sector_access_error(self.spec_capacity(), sector, data.len() as usize) {
                Some(e) => Err::<usize, VirtioError>(e),
                None => Ok(data.len() as usize),
            }
        })
    }

    open spec fn spec_flush_result(&self, r: VirtioResult<()>) -> bool {
        r is Ok
    }

    fn read(&self, sector: u64, buffer: &mut [u8]) -> (r: VirtioResult<usize>)
        ensures
            self.wf() ==> r == match sector_access_error(self.spec_capacity(), sector, old(buffer)@.len() as usize) {
                Some(e) => Err::<usize, VirtioError>(e),
                None => Ok(old(buffer)@.len() as usize),
            },
            r is Err ==> final(buffer)@ == old(buffer)@,
    {
        self.validate_sector_access(sector, buffer.len())?;
        let data_len = self.data.len();
        proof {
            lemma_access_in_bounds(self.capacity, sector, buffer@.len() as usize);
            if self.wf() {
                assert(sector * 512 <= data_len);
                assert(sector * 512 <= usize::MAX);
            }
        }
        if sector > (usize::MAX as u64) / SECTOR_SIZE_U64 {
            return Err(VirtioError::InvalidSector);
        }
        let start_byte = (sector * SECTOR_SIZE_U64) as usize;
        if start_byte > self.data.len() || buffer.len() > self.data.len() - start_byte {
            return Err(VirtioError::InvalidSector);
        }
        let n = buffer.len();
        let ghost old_buf = buffer@;
        let mut i: usize = 0;
        while i < n
            invariant
                i <= n,
                n == buffer@.len(),
                start_byte + n <= self.data@.len(),
                start_byte + n <= usize::MAX,
                forall|k: int| 0 <= k < i ==> buffer@[k] == self.data@[start_byte + k],
            decreases n - i,
        {
            buffer[i] = self.data[start_byte + i];
            i = i + 1;
        }
        assert(buffer@ =~= self.data@.subrange(start_byte as int, start_byte + n));
        Ok(n)
    }

    fn write(&mut self, sector: u64, buffer: &[u8]) -> (r: VirtioResult<usize>)
        ensures
            old(self).wf() ==> r == (if old(self).spec_read_only() {
                Err(VirtioError::BackendError)
            } else {
                match sector_access_error(old(self).spec_capacity(), sector, buffer@.len() as usize) {
                    Some(e) => Err::<usize, VirtioError>(e),
                    None => Ok(buffer@.len() as usize),
                }
            }),
            final(self).spec_capacity() == old(self).spec_capacity(),
            final(self).spec_read_only() == old(self).spec_read_only(),
            final(self).wf() == old(self).wf(),
    {
        if self.read_only {
            return Err(VirtioError::BackendError);
        }
        self.validate_sector_access(sector, buffer.len())?;
        let data_len = self.data.len();
        proof {
            lemma_access_in_bounds(self.capacity, sector, buffer@.len() as usize);
            if self.wf() {
                assert(sector * 512 <= data_len);
                assert(sector * 512 <= usize::MAX);
            }
        }
        if sector > (usize::MAX as u64) / SECTOR_SIZE_U64 {
            return Err(VirtioError::InvalidSector);
        }
        let start_byte = (sector * SECTOR_SIZE_U64) as usize;
        if start_byte > self.data.len() || buffer.len() > self.data.len() - start_byte {
            return Err(VirtioError::InvalidSector);
        }
        let n = buffer.len();
        let ghost old_data = self.data@;
        let mut i: usize = 0;
        while i < n
            invariant
                i <= n,
                n == buffer@.len(),
                start_byte + n <= old_data.len(),
                start_byte + n <= usize::MAX,
                self.data@.len() == old_data.len(),
                self.capacity == old(self).capacity,
                self.read_only == old(self).read_only,
                forall|k: int| 0 <= k < start_byte ==> self.data@[k] == old_data[k],
                forall|k: int| start_byte <= k < start_byte + i ==> self.data@[k] == buffer@[k - start_byte],
                forall|k: int| start_byte + n <= k < old_data.len() ==> self.data@[k] == old_data[k],
                forall|k: int| start_byte + i <= k < start_byte + n ==> self.data@[k] == old_data[k],
            decreases n - i,
        {
            self.data.set(start_byte + i, buffer[i]);
            i = i + 1;
        }
        assert(self.data@ =~= splice(old_data, start_byte as int, buffer@));
        Ok(n)
    }

    fn flush(&self) -> (r: VirtioResult<()>)
        ensures
            r is Ok,
    {
        Ok(())
    }
}

/// The backend a block device gets when none is given: a zero-filled,
/// writable disk of `DEFAULT_CAPACITY_SECTORS` sectors in memory.
pub fn create_default_backend(device_index: usize) -> (r: VirtioResult<MemoryBackend>)
    ensures
        match r {
            Ok(b) => b.wf() && b.spec_capacity() == DEFAULT_CAPACITY_SECTORS && !b.spec_read_only()
                && b.contents() == Seq::new((DEFAULT_CAPACITY_SECTORS * 512) as nat, |i: int| 0u8),
            Err(_) => false,
        },
{
    MemoryBackend::new(DEFAULT_CAPACITY_SECTORS, false, device_index)
}

} // verus!
