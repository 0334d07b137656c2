//! One session with a physical Wii remote.
//!
//! A session owns the channel to one unit, caches its accelerometer
//! calibration, and carries the detected Motion Plus and extension state.
//! The session object outlives disconnects: the manager re-seats it onto
//! a new channel on reconnection, and its identity never changes.

use vstd::prelude::*;

use crate::calibration::{normalize, spec_normalized_den, spec_normalized_num};
use crate::checksum::{additive_checksum, spec_additive_checksum};
use crate::extensions::motion_plus::MotionPlus;
use crate::extensions::WiimoteExtension;
use crate::input::InputReport;
use crate::native::NativeWiimote;
use crate::output::{spec_effective_rumble, Addressing, OutputReport};
use crate::result::{WiimoteDeviceError, WiimoteError, WiimoteResult};
use crate::simple_io;

verus! {

/// Accelerometer calibration: 10-bit zero offsets and gravity references
/// per axis, read once from EEPROM.
#[derive(Debug, Clone, Copy, PartialEq, Eq, Structural)]
pub struct AccelerometerCalibration {
    pub x_zero_offset: u16,
    pub y_zero_offset: u16,
    pub z_zero_offset: u16,
    pub x_gravity: u16,
    pub y_gravity: u16,
    pub z_gravity: u16,
}

impl Default for AccelerometerCalibration {
    /// All zeros: the state before a successful calibration read.
    fn default() -> (r: Self)
        ensures
            r == (AccelerometerCalibration {
                x_zero_offset: 0u16,
                y_zero_offset: 0u16,
                z_zero_offset: 0u16,
                x_gravity: 0u16,
                y_gravity: 0u16,
                z_gravity: 0u16,
            }),
    {
        AccelerometerCalibration {
            x_zero_offset: 0,
            y_zero_offset: 0,
            z_zero_offset: 0,
            x_gravity: 0,
            y_gravity: 0,
            z_gravity: 0,
        }
    }
}

/// What decoding the 10 calibration bytes must yield: per axis the high 8
/// bits in one byte and the low 2 bits packed in a shared fourth byte.
pub open spec fn spec_accel_calibration(data: Seq<u8>, c: AccelerometerCalibration) -> bool {
    &&& c.x_zero_offset == ((data[0] as u16) << 2) | ((data[3] as u16) >> 4 & 0b11)
    &&& c.y_zero_offset == ((data[1] as u16) << 2) | ((data[3] as u16) >> 2 & 0b11)
    &&& c.z_zero_offset == ((data[2] as u16) << 2) | ((data[3] as u16) & 0b11)
    &&& c.x_gravity == ((data[4] as u16) << 2) | ((data[7] as u16) >> 4 & 0b11)
    &&& c.y_gravity == ((data[5] as u16) << 2) | ((data[7] as u16) >> 2 & 0b11)
    &&& c.z_gravity == ((data[6] as u16) << 2) | ((data[7] as u16) & 0b11)
}

impl AccelerometerCalibration {
    /// Validates and decodes the 10 calibration bytes read from EEPROM.
    ///
    /// The additive checksum (seed 0x55) over the first 9 bytes must equal
    /// the 10th byte.
    pub fn from_eeprom_bytes(data: &[u8; 16]) -> (r: Result<Self, WiimoteDeviceError>)
        ensures
            r is Ok <==> spec_additive_checksum(0x55, data@.subrange(0, 9)) == data@[9],
            r matches Ok(c) ==> spec_accel_calibration(data@, c),
            r matches Err(e) ==> e == WiimoteDeviceError::InvalidChecksum,
    {
        let prefix = vstd::slice::slice_subrange(data.as_slice(), 0, 9);
        let checksum = additive_checksum(0x55, prefix);
        if checksum != data[9] {
            return Err(WiimoteDeviceError::InvalidChecksum);
        }
        Ok(
            AccelerometerCalibration {
                x_zero_offset: ((data[0] as u16) << 2) | ((data[3] as u16) >> 4 & 0b11),
                y_zero_offset: ((data[1] as u16) << 2) | ((data[3] as u16) >> 2 & 0b11),
                z_zero_offset: ((data[2] as u16) << 2) | ((data[3] as u16) & 0b11),
                x_gravity: ((data[4] as u16) << 2) | ((data[7] as u16) >> 4 & 0b11),
                y_gravity: ((data[5] as u16) << 2) | ((data[7] as u16) >> 2 & 0b11),
                z_gravity: ((data[6] as u16) << 2) | ((data[7] as u16) & 0b11),
            },
        )
    }

    /// Converts raw accelerometer data into the acceleration along each
    /// axis, in g, as exact `(numerator, denominator)` ratios in the order
    /// x, y, z: `(value - zero) / (gravity - zero)` per axis over 10-bit
    /// operands.  A denominator is zero when the axis's gravity reference
    /// equals its zero offset; the caller guards the division.
    pub fn get_acceleration(&self, data: &AccelerometerData) -> (r: (
        (i64, i64),
        (i64, i64),
        (i64, i64),
    ))
        ensures
            r.0.0 == spec_normalized_num(data.x, 10, self.x_zero_offset, 10),
            r.0.1 == spec_normalized_den(self.x_zero_offset, self.x_gravity, 10, 10),
            r.1.0 == spec_normalized_num(data.y, 10, self.y_zero_offset, 10),
            r.1.1 == spec_normalized_den(self.y_zero_offset, self.y_gravity, 10, 10),
            r.2.0 == spec_normalized_num(data.z, 10, self.z_zero_offset, 10),
            r.2.1 == spec_normalized_den(self.z_zero_offset, self.z_gravity, 10, 10),
    {
        let x = normalize(data.x, 10, self.x_zero_offset, self.x_gravity, 10);
        let y = normalize(data.y, 10, self.y_zero_offset, self.y_gravity, 10);
        let z = normalize(data.z, 10, self.z_zero_offset, self.z_gravity, 10);
        (x, y, z)
    }
}

/// One raw accelerometer sample: 10-bit values per axis.
#[derive(Debug, Clone, Copy, PartialEq, Eq, Structural)]
pub struct AccelerometerData {
    pub x: u16,
    pub y: u16,
    pub z: u16,
}

impl AccelerometerData {
    /// Reconstructs the sample from a normal-reporting payload: the first
    /// two bytes are button data, the next three the high bits of the
    /// axes, with the low bits packed into the button bytes.
    pub fn from_normal_reporting(data: &[u8]) -> (r: Self)
        requires
            data@.len() >= 5,
        ensures
            r.x == ((data@[2] as u16) << 2) | (((data@[0] as u16) >> 5) & 0b11),
            r.y == ((data@[3] as u16) << 2) | (((data@[1] as u16) >> 5) & 0b10),
            r.z == ((data@[4] as u16) << 2) | (((data@[1] as u16) >> 6) & 0b10),
    {
        AccelerometerData {
            x: ((data[2] as u16) << 2) | (((data[0] as u16) >> 5) & 0b11),
            y: ((data[3] as u16) << 2) | (((data[1] as u16) >> 5) & 0b10),
            z: ((data[4] as u16) << 2) | (((data[1] as u16) >> 6) & 0b10),
        }
    }

    /// Reconstructs the sample from a pair of interleaved-reporting
    /// payloads (report types 0x3E and 0x3F): each carries one axis byte
    /// and a share of the z axis packed into its button bytes.
    pub fn from_interleaved_reporting(data_3e: &[u8], data_3f: &[u8]) -> (r: Self)
        requires
            data_3e@.len() >= 3,
            data_3f@.len() >= 3,
        ensures
            r.x == (data_3e@[2] as u16) << 2,
            r.y == (data_3f@[2] as u16) << 2,
            r.z == (((data_3e@[1] as u16) << 1) & 0b1100_0000) | (((data_3e@[0] as u16) >> 1)
                & 0b0011_0000) | (((data_3f@[1] as u16) >> 3) & 0b0000_1100) | (((
            data_3f@[0] as u16) >> 5) & 0b0000_0011),
    {
        AccelerometerData {
            x: (data_3e[2] as u16) << 2,
            y: (data_3f[2] as u16) << 2,
            z: (((data_3e[1] as u16) << 1) & 0b1100_0000) | (((data_3e[0] as u16) >> 1)
                & 0b0011_0000) | (((data_3f[1] as u16) >> 3) & 0b0000_1100) | (((
            data_3f[0] as u16) >> 5) & 0b0000_0011),
        }
    }
}

/// A session with one physical Wii remote over a channel `D`.
pub struct WiimoteDevice<D: NativeWiimote> {
    device: Option<D>,
    identifier: String,
    calibration_data: AccelerometerCalibration,
    motion_plus: Option<MotionPlus>,
    extension: Option<WiimoteExtension>,
    rumble_enabled: bool,
}

impl<D: NativeWiimote> WiimoteDevice<D> {
    /// The stable identity of the unit this session stands for.
    pub closed spec fn spec_identifier(&self) -> Seq<char> {
        self.identifier@
    }

    /// Whether a channel is currently attached.
    pub closed spec fn spec_connected(&self) -> bool {
        self.device is Some
    }

    /// The rumble state re-applied on every write.
    pub closed spec fn spec_rumble(&self) -> bool {
        self.rumble_enabled
    }

    pub closed spec fn spec_calibration(&self) -> AccelerometerCalibration {
        self.calibration_data
    }

    pub closed spec fn spec_motion_plus(&self) -> Option<MotionPlus> {
        self.motion_plus
    }

    pub closed spec fn spec_extension(&self) -> Option<WiimoteExtension> {
        self.extension
    }

    /// Everything but the channel and the rumble flag, unchanged.
    pub open spec fn spec_same_state(&self, other: &Self) -> bool {
        &&& self.spec_identifier() == other.spec_identifier()
        &&& self.spec_calibration() == other.spec_calibration()
        &&& self.spec_motion_plus() == other.spec_motion_plus()
        &&& self.spec_extension() == other.spec_extension()
    }

    /// Wraps a channel whose identity is already known and initializes the
    /// session: the calibration read and the detection handshakes run
    /// against the new channel.  A session that fails initialization is
    /// returned as the error; no half-initialized session escapes.
    pub fn with_identifier(identifier: String, device: D) -> (r: WiimoteResult<Self>)
        ensures
            r matches Ok(w) ==> w.spec_identifier() == identifier@ && w.spec_connected()
                && !w.spec_rumble(),
    {
        let mut wiimote = WiimoteDevice {
            device: Some(device),
            identifier,
            calibration_data: AccelerometerCalibration::default(),
            motion_plus: None,
            extension: None,
            rumble_enabled: false,
        };
        match wiimote.initialize() {
            Ok(()) => Ok(wiimote),
            Err(e) => Err(e),
        }
    }

    /// Wraps a channel as a session, taking the identity from the channel
    /// itself, and initializes it.
    pub fn new(device: D) -> (r: WiimoteResult<Self>)
        ensures
            r matches Ok(w) ==> w.spec_connected() && !w.spec_rumble(),
    {
        let identifier = device.identifier();
        Self::with_identifier(identifier, device)
    }

    /// Returns whether this session stands for the unit with the given
    /// identity.
    pub fn matches_identifier(&self, identifier: &String) -> (r: bool)
        ensures
            r == (self.spec_identifier() == identifier@),
    {
        self.identifier.eq(identifier)
    }

    /// Returns the unique identifier of the Wii remote.
    pub fn identifier(&self) -> (r: &str)
        ensures
            r@ == self.spec_identifier(),
    {
        self.identifier.as_str()
    }

    /// Returns the accelerometer calibration data of the Wii remote.
    pub fn accelerometer_calibration(&self) -> (r: &AccelerometerCalibration)
        ensures
            *r == self.spec_calibration(),
    {
        &self.calibration_data
    }

    /// Returns the Motion Plus extension of the Wii remote if present.
    pub fn motion_plus(&self) -> (r: Option<&MotionPlus>)
        ensures
            r is Some <==> self.spec_motion_plus() is Some,
            r matches Some(m) ==> Some(*m) == self.spec_motion_plus(),
    {
        self.motion_plus.as_ref()
    }

    /// Returns the detected extension controller if present.
    pub fn extension(&self) -> (r: Option<&WiimoteExtension>)
        ensures
            r is Some <==> self.spec_extension() is Some,
            r matches Some(e) ==> Some(*e) == self.spec_extension(),
    {
        self.extension.as_ref()
    }

    /// Returns whether the Wii remote is currently connected.  The session
    /// is re-attached to a new channel by the manager on reconnection.
    pub fn is_connected(&self) -> (r: bool)
        ensures
            r == self.spec_connected(),
    {
        self.device.is_some()
    }

    /// Detaches the channel; subsequent reads and writes fail fast with
    /// `Disconnected` instead of retrying a dead channel.
    pub fn disconnected(&mut self)
        ensures
            !final(self).spec_connected(),
            final(self).spec_same_state(old(self)),
            final(self).spec_rumble() == old(self).spec_rumble(),
    {
        self.device = None;
    }

    /// Re-seats the session onto a new channel and re-runs initialization:
    /// calibration and extension state are recomputed from scratch, and
    /// the identity is preserved.  A session that fails to reinitialize is
    /// left disconnected, in its prior known state — never
    /// half-initialized.
    pub fn reconnect(&mut self, device: D) -> (r: WiimoteResult<()>)
        ensures
            final(self).spec_identifier() == old(self).spec_identifier(),
            final(self).spec_rumble() == old(self).spec_rumble(),
            r is Ok <==> final(self).spec_connected(),
            r is Err ==> final(self).spec_same_state(old(self)),
    {
        let calibration_snapshot = self.calibration_data;
        let motion_plus_snapshot = self.motion_plus;
        let extension_snapshot = self.extension;
        self.disconnected();
        self.device = Some(device);
        match self.initialize() {
            Ok(()) => Ok(()),
            Err(e) => {
                self.device = None;
                self.calibration_data = calibration_snapshot;
                self.motion_plus = motion_plus_snapshot;
                self.extension = extension_snapshot;
                Err(e)
            },
        }
    }

    /// Encodes the report with the session's rumble state and writes it.
    ///
    /// A `Rumble` report first updates the stored rumble flag, which every
    /// later write re-applies.  A channel-level failure tears the channel
    /// down and reports `Disconnected`.
    pub fn write(&mut self, output_report: &OutputReport) -> (r: WiimoteResult<()>)
        ensures
            final(self).spec_same_state(old(self)),
            !old(self).spec_connected() ==> !final(self).spec_connected() && final(self).spec_rumble() == old(self).spec_rumble() && r == Err::<(), WiimoteError>(
                WiimoteError::Disconnected,
            ),
            old(self).spec_connected() ==> final(self).spec_rumble() == spec_effective_rumble(
                *output_report,
                old(self).spec_rumble(),
            ),
            r is Ok <==> final(self).spec_connected(),
            r is Err ==> r == Err::<(), WiimoteError>(WiimoteError::Disconnected),
    {
        let mut device = match self.device.take() {
            Some(device) => device,
            None => {
                return Err(WiimoteError::Disconnected);
            },
        };
        let rumble = match output_report {
            OutputReport::Rumble(new_rumble) => {
                // Rumble rides along in every output report, so the new
                // value must be remembered for all later writes.
                self.rumble_enabled = *new_rumble;
                *new_rumble
            },
            _ => self.rumble_enabled,
        };
        let mut buffer: Vec<u8> = vec![0u8; 32];
        let size = output_report.fill_buffer(rumble, &mut buffer);
        let frame = vstd::slice::slice_subrange(buffer.as_slice(), 0, size);
        match device.write(frame) {
            Some(_) => {
                self.device = Some(device);
                Ok(())
            },
            None => Err(WiimoteError::Disconnected),
        }
    }

    /// Reads one frame and decodes it.  A channel-level failure tears the
    /// channel down and reports `Disconnected`; a decode failure is a data
    /// error and leaves the connection up.
    pub fn read(&mut self) -> (r: WiimoteResult<InputReport>)
        ensures
            final(self).spec_same_state(old(self)),
            final(self).spec_rumble() == old(self).spec_rumble(),
            (r matches Err(e) && e == WiimoteError::Disconnected) <==> !final(self).spec_connected(),
            final(self).spec_connected() ==> old(self).spec_connected(),
    {
        let mut device = match self.device.take() {
            Some(device) => device,
            None => {
                return Err(WiimoteError::Disconnected);
            },
        };
        match device.read() {
            Some(frame) => {
                self.device = Some(device);
                match InputReport::try_from(frame.as_slice()) {
                    Ok(report) => Ok(report),
                    Err(e) => Err(self.data_error(e)),
                }
            },
            None => Err(WiimoteError::Disconnected),
        }
    }

    /// Reads one frame, waiting at most `timeout_millis`, and decodes it.
    /// An expired wait delivers an empty frame, which decodes to a
    /// `MissingData` error; the connection stays up.
    pub fn read_timeout(&mut self, timeout_millis: usize) -> (r: WiimoteResult<InputReport>)
        ensures
            final(self).spec_same_state(old(self)),
            final(self).spec_rumble() == old(self).spec_rumble(),
            (r matches Err(e) && e == WiimoteError::Disconnected) <==> !final(self).spec_connected(),
            final(self).spec_connected() ==> old(self).spec_connected(),
    {
        let mut device = match self.device.take() {
            Some(device) => device,
            None => {
                return Err(WiimoteError::Disconnected);
            },
        };
        match device.read_timeout(timeout_millis) {
            Some(frame) => {
                self.device = Some(device);
                match InputReport::try_from(frame.as_slice()) {
                    Ok(report) => Ok(report),
                    Err(e) => Err(self.data_error(e)),
                }
            },
            None => Err(WiimoteError::Disconnected),
        }
    }

    /// Shapes a decode error for a connection that is still up: decode
    /// errors never report `Disconnected`.
    fn data_error(&self, e: WiimoteError) -> (r: WiimoteError)
        ensures
            r != WiimoteError::Disconnected,
    {
        match e {
            WiimoteError::WiimoteDeviceError(inner) => WiimoteError::WiimoteDeviceError(inner),
            WiimoteError::Disconnected => WiimoteError::WiimoteDeviceError(
                WiimoteDeviceError::MissingData,
            ),
        }
    }

    /// Clears the extension state, reads the accelerometer calibration
    /// from EEPROM, and runs the Motion Plus and extension detection
    /// handshakes.  Any failure aborts the whole initialization.
    pub fn initialize(&mut self) -> (r: WiimoteResult<()>)
        ensures
            final(self).spec_identifier() == old(self).spec_identifier(),
            final(self).spec_rumble() == old(self).spec_rumble(),
            r is Ok ==> final(self).spec_connected(),
    {
        self.motion_plus = None;
        self.extension = None;
        let calibration = match self.read_calibration_data() {
            Ok(calibration) => calibration,
            Err(e) => {
                return Err(e);
            },
        };
        self.calibration_data = calibration;
        let motion_plus = match MotionPlus::detect(self) {
            Ok(motion_plus) => motion_plus,
            Err(e) => {
                return Err(e);
            },
        };
        self.motion_plus = motion_plus;
        let extension = match WiimoteExtension::detect(self) {
            Ok(extension) => extension,
            Err(e) => {
                return Err(e);
            },
        };
        self.extension = extension;
        Ok(())
    }

    /// Reads the 10 calibration bytes at EEPROM offset 0x16 and validates
    /// their additive checksum.
    pub fn read_calibration_data(&mut self) -> (r: WiimoteResult<AccelerometerCalibration>)
        ensures
            final(self).spec_same_state(old(self)),
            final(self).spec_rumble() == old(self).spec_rumble(),
            r is Ok ==> final(self).spec_connected(),
    {
        // The bytes at EEPROM offset 0x16 hold the calibrated zero offsets
        // (high 8 bits of x, y, z, then the low 2 bits packed as --XXYYZZ)
        // followed by the gravity references in the same layout, and an
        // additive checksum byte.
        let data = match simple_io::read_16_bytes_sync_checked(self, Addressing::eeprom(0x0016, 10))
            {
            Ok(data) => data,
            Err(e) => {
                return Err(e);
            },
        };
        match AccelerometerCalibration::from_eeprom_bytes(&data) {
            Ok(calibration) => Ok(calibration),
            Err(e) => Err(WiimoteError::WiimoteDeviceError(e)),
        }
    }
}

} // verus!
