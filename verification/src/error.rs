//! Errors shared by every VirtIO device of the library.

use vstd::prelude::*;

verus! {

/// VirtIO specific error kinds.
#[derive(Debug, Clone, Copy, PartialEq, Eq, Structural)]
pub enum VirtioError {
    /// Invalid queue configuration
    InvalidQueue,
    /// Queue not ready for operation
    QueueNotReady,
    /// Invalid descriptor
    InvalidDescriptor,
    /// Invalid access width for an MMIO operation
    InvalidAccessWidth,
    /// Device not ready
    DeviceNotReady,
    /// Invalid device index
    InvalidDeviceIndex,
    /// Backend operation failed
    BackendError,
    /// Memory access error
    MemoryError,
    /// Invalid configuration
    InvalidConfig,
    /// Feature negotiation failed
    FeatureNegotiationFailed,
    /// Invalid request
    InvalidRequest,
    /// Operation not supported
    NotSupported,
    /// Invalid buffer size
    InvalidBufferSize,
    /// Invalid sector
    InvalidSector,
    /// Invalid register
    InvalidRegister,
    /// A guest physical address that no guest memory backs
    InvalidAddress,
}

/// Result type for VirtIO operations.
pub type VirtioResult<T> = Result<T, VirtioError>;

} // verus!
