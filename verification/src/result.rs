//! Error taxonomy of the driver.

use vstd::prelude::*;

verus! {

/// Protocol or data errors reported by the driver.
#[derive(Debug, Clone, Copy, PartialEq, Eq, Structural)]
pub enum WiimoteDeviceError {
    /// The device enumerated does not carry a recognized vendor id.
    InvalidVendorID(u16),
    /// The device enumerated does not carry a recognized product id.
    InvalidProductID(u16),
    /// A frame was empty or truncated.
    MissingData,
    /// A frame failed structural or semantic validation.
    InvalidData,
    /// An additive or CRC32 checksum over calibration data did not match.
    InvalidChecksum,
}

/// Any error surfaced to callers of the driver.
#[derive(Debug, Clone, Copy, PartialEq, Eq, Structural)]
pub enum WiimoteError {
    /// A protocol or data error; the connection is still usable.
    WiimoteDeviceError(WiimoteDeviceError),
    /// The channel is unusable; recoverable only through a reconnect.
    Disconnected,
}

impl From<WiimoteDeviceError> for WiimoteError {
    fn from(e: WiimoteDeviceError) -> (r: Self) {
        WiimoteError::WiimoteDeviceError(e)
    }
}

impl vstd::std_specs::convert::FromSpecImpl<WiimoteDeviceError> for WiimoteError {
    open spec fn obeys_from_spec() -> bool {
        true
    }

    open spec fn from_spec(e: WiimoteDeviceError) -> Self {
        WiimoteError::WiimoteDeviceError(e)
    }
}

pub type WiimoteResult<T> = Result<T, WiimoteError>;

} // verus!
