//! The kinds of VirtIO device this library emulates.

use vstd::prelude::*;

verus! {

/// VirtIO device types.
#[derive(Debug, Clone, Copy, PartialEq, Eq, Structural)]
pub enum VirtioDeviceType {
    /// Invalid/unknown device type
    Invalid,
    /// Network card
    Network,
    /// Block device
    Block,
    /// Console
    Console,
}

/// The device ID that the VirtIO specification gives each device type.
pub open spec fn spec_device_id(t: VirtioDeviceType) -> u32 {
    match t {
        VirtioDeviceType::Invalid => 0,
        VirtioDeviceType::Network => 1,
        VirtioDeviceType::Block => 2,
        VirtioDeviceType::Console => 3,
    }
}

/// The device type that a device ID denotes; unknown IDs denote `Invalid`.
pub open spec fn spec_from_device_id(id: u32) -> VirtioDeviceType {
    if id == 1 {
        VirtioDeviceType::Network
    } else if id == 2 {
        VirtioDeviceType::Block
    } else if id == 3 {
        VirtioDeviceType::Console
    } else {
        VirtioDeviceType::Invalid
    }
}

impl VirtioDeviceType {
    /// Converts a device ID to a device type.
    pub fn from_device_id(device_id: u32) -> (t: Self)
        ensures
            t == spec_from_device_id(device_id),
    {
        match device_id {
            1 => Self::Network,
            2 => Self::Block,
            3 => Self::Console,
            _ => Self::Invalid,
        }
    }

    /// Converts a device type to its device ID.
    pub fn to_device_id(&self) -> (id: u32)
        ensures
            id == spec_device_id(*self),
    {
        match self {
            Self::Invalid => 0,
            Self::Network => 1,
            Self::Block => 2,
            Self::Console => 3,
        }
    }

    /// The human-readable name of the device type.
    pub fn name(&self) -> (s: &'static str)
        ensures
            *self == Self::Invalid ==> s@ == "Invalid"@,
            *self == Self::Network ==> s@ == "Network"@,
            *self == Self::Block ==> s@ == "Block"@,
            *self == Self::Console ==> s@ == "Console"@,
    {
        match self {
            Self::Invalid => "Invalid",
            Self::Network => "Network",
            Self::Block => "Block",
            Self::Console => "Console",
        }
    }

    /// Whether the device type is a real device (not `Invalid`).
    pub fn is_valid(&self) -> (b: bool)
        ensures
            b <==> *self != Self::Invalid,
    {
        !matches!(self, Self::Invalid)
    }

    /// All supported device types, in device-ID order.
    pub fn all_types() -> (v: &'static [VirtioDeviceType])
        ensures
            v@ == seq![Self::Network, Self::Block, Self::Console],
    {
        &[Self::Network, Self::Block, Self::Console]
    }
}

/// The device ID of a valid device type names that type again.
pub proof fn lemma_device_id_round_trip(t: VirtioDeviceType)
    ensures
        spec_from_device_id(spec_device_id(t)) == t,
{
}

impl Default for VirtioDeviceType {
    fn default() -> (t: Self)
        ensures
            t == VirtioDeviceType::Invalid,
    {
        Self::Invalid
    }
}

} // verus!
