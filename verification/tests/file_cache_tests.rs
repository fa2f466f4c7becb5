use axvirtio::block::backend::{check_file_backend_config, check_sector_access};
use axvirtio::block::cache::{ReadAction, SectorCache, WriteAction};
use axvirtio::error::VirtioError;

fn sector_of(byte: u8) -> Vec<u8> {
    vec![byte; 512]
}

#[test]
fn cache_starts_empty() {
    let c = SectorCache::new();
    assert!(!c.is_valid());
    assert!(!c.is_dirty());
    assert!(!c.needs_flush());
    assert!(!c.is_hit(0));
    assert_eq!(c.get_data(), &[0u8; 512][..]);
}

#[test]
fn cache_read_fill_is_clean_and_hit() {
    let mut c = SectorCache::new();
    c.update_read(7, &sector_of(0xaa));
    assert!(c.is_valid());
    assert!(!c.is_dirty());
    assert!(c.is_hit(7));
    assert!(!c.is_hit(8));
    assert_eq!(c.get_sector(), 7);
    assert_eq!(c.get_data(), &sector_of(0xaa)[..]);
    assert_eq!(c.read_action(7, 512), ReadAction::ServeFromCache);
    assert_eq!(c.read_action(8, 512), ReadAction::ReadFile);
    assert_eq!(c.read_action(7, 1024), ReadAction::ReadFile);
}

#[test]
fn cache_write_fill_is_dirty() {
    let mut c = SectorCache::new();
    c.update_write(3, &sector_of(0x11));
    assert!(c.needs_flush());
    assert_eq!(c.read_action(3, 512), ReadAction::FlushThenServeFromCache);
    assert_eq!(c.read_action(4, 512), ReadAction::FlushThenReadFile);
    c.mark_clean();
    assert!(!c.needs_flush());
    assert!(c.is_hit(3));
    assert_eq!(c.read_action(3, 512), ReadAction::ServeFromCache);
}

#[test]
fn cache_short_buffer_changes_nothing() {
    let mut c = SectorCache::new();
    c.update_write(3, &[1u8; 100]);
    assert!(!c.is_valid());
    assert_eq!(c.get_sector(), 0);
    c.update_read(3, &[1u8; 511]);
    assert!(!c.is_valid());
}

#[test]
fn cache_single_sector_writes() {
    let mut c = SectorCache::new();
    assert_eq!(c.write_action(5, 512), WriteAction::Cache);
    c.update_write(5, &sector_of(1));
    assert_eq!(c.write_action(5, 512), WriteAction::Cache);
    assert_eq!(c.write_action(6, 512), WriteAction::FlushThenCache);
    assert!(c.is_hit(5));
}

#[test]
fn cache_long_write_covering_cached_sector_invalidates() {
    let mut c = SectorCache::new();
    c.update_write(5, &sector_of(1));
    assert_eq!(c.write_action(4, 1024), WriteAction::WriteFile);
    assert!(!c.is_valid());
    assert!(!c.is_dirty());
    assert_eq!(c.get_sector(), 5);
}

#[test]
fn cache_long_write_elsewhere_keeps_cache() {
    let mut c = SectorCache::new();
    c.update_write(5, &sector_of(1));
    assert_eq!(c.write_action(6, 1024), WriteAction::WriteFile);
    assert!(c.is_hit(5));
    assert!(c.is_dirty());
    assert_eq!(c.write_action(3, 1024), WriteAction::WriteFile);
    assert!(c.is_hit(5));
}

#[test]
fn cache_invalidate_forgets() {
    let mut c = SectorCache::new();
    c.update_write(2, &sector_of(9));
    c.invalidate();
    assert!(!c.is_hit(2));
    assert!(!c.needs_flush());
    assert_eq!(c.get_data(), &sector_of(9)[..]);
}

#[test]
fn sector_access_accepts_whole_sectors_within_disk() {
    assert_eq!(check_sector_access(8, 0, 4096), Ok(()));
    assert_eq!(check_sector_access(8, 7, 512), Ok(()));
    assert_eq!(check_sector_access(8, 8, 0), Ok(()));
}

#[test]
fn sector_access_rejects_partial_sector() {
    assert_eq!(check_sector_access(8, 0, 100), Err(VirtioError::InvalidBufferSize));
    assert_eq!(check_sector_access(8, 100, 100), Err(VirtioError::InvalidBufferSize));
}

#[test]
fn sector_access_rejects_beyond_end() {
    assert_eq!(check_sector_access(8, 7, 1024), Err(VirtioError::InvalidSector));
    assert_eq!(check_sector_access(8, 9, 0), Err(VirtioError::InvalidSector));
    assert_eq!(check_sector_access(8, u64::MAX, 512), Err(VirtioError::InvalidSector));
}

#[test]
fn file_backend_config_needs_path_and_capacity() {
    assert_eq!(check_file_backend_config("/guest/vm_0.img", 2048), Ok(()));
    assert_eq!(check_file_backend_config("", 2048), Err(VirtioError::InvalidConfig));
    assert_eq!(check_file_backend_config("/guest/vm_0.img", 0), Err(VirtioError::InvalidConfig));
}
