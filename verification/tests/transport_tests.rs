use axvirtio::error::VirtioError;
use axvirtio::transport::{AccessWidth, MmioTransport};

#[test]
fn address_range_excludes_both_sides_of_the_window() {
    assert!(!MmioTransport::is_address_in_range(0x0fff, 0x1000, 0x100));
    assert!(MmioTransport::is_address_in_range(0x1000, 0x1000, 0x100));
    assert!(MmioTransport::is_address_in_range(0x10ff, 0x1000, 0x100));
    assert!(!MmioTransport::is_address_in_range(0x1100, 0x1000, 0x100));
    assert!(!MmioTransport::is_address_in_range(0x1000, 0x1000, 0));
}

#[test]
fn validation_reports_accesses_outside_the_window() {
    assert_eq!(MmioTransport::validate_read_access(0x1100, AccessWidth::Dword, 0x1000, 0x100), Ok(None));
    assert_eq!(MmioTransport::validate_read_access(0x0ffc, AccessWidth::Dword, 0x1000, 0x100), Ok(None));
    assert_eq!(MmioTransport::validate_write_access(0x1100, AccessWidth::Byte, 0x1000, 0x100), Ok(None));
}

#[test]
fn validation_checks_width_below_the_configuration_space() {
    assert_eq!(MmioTransport::validate_read_access(0x1070, AccessWidth::Dword, 0x1000, 0x200), Ok(Some(0x70)));
    assert_eq!(
        MmioTransport::validate_write_access(0x1070, AccessWidth::Word, 0x1000, 0x200),
        Err(VirtioError::InvalidAccessWidth)
    );
    assert_eq!(MmioTransport::validate_read_access(0x1102, AccessWidth::Byte, 0x1000, 0x200), Ok(Some(0x102)));
}
