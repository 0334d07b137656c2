//! Driver core for the Wii remote controller family.
//!
//! The crate decodes and encodes the remote's fixed-format binary reports,
//! carries per-device calibration (accelerometer, Motion Plus gyroscope,
//! Balance Board load cells), and keeps the scan/reconnect bookkeeping that
//! guarantees at most one session object per physical unit.  The platform
//! transport is abstracted behind the [`native::NativeWiimote`] trait.

pub mod calibration;
pub mod checksum;
pub mod device;
pub mod extensions;
pub mod input;
pub mod manager;
pub mod native;
pub mod output;
pub mod result;
pub mod simple_io;

use vstd::prelude::*;

verus! {

/// Size of the report buffer exchanged with the transport layer.
pub const WIIMOTE_DEFAULT_REPORT_BUFFER_SIZE: usize = 32;

} // verus!
