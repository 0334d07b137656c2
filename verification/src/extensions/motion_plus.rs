//! Motion Plus gyroscope extension: identity, calibration and data decode.
//!
//! The calibration lives in two 16-byte register blocks (`fast` and
//! `slow`); each sample selects per axis which block applies through its
//! "slow" flag bit.  The two blocks are guarded by a single CRC32 over
//! their first 14 bytes each, with the 4-byte checksum split across the
//! two block tails.

use vstd::prelude::*;

use crate::calibration::{normalize, spec_normalized_den, spec_normalized_num};
use crate::checksum::{crc32, crc32_of};
use crate::device::WiimoteDevice;
use crate::input::{spec_be16, AcknowledgeData};
use crate::native::NativeWiimote;
use crate::output::Addressing;
use crate::result::{WiimoteDeviceError, WiimoteError, WiimoteResult};
use crate::simple_io;

verus! {

/// Operating mode of the Motion Plus extension.
#[derive(Debug, Clone, Copy, PartialEq, Eq, Structural)]
pub enum MotionPlusMode {
    Inactive,
    Active,
    NunchuckPassthrough,
    ClassicControllerPassthrough,
}

/// Whether the Motion Plus is an external attachment or built in.
#[derive(Debug, Clone, Copy, PartialEq, Eq, Structural)]
pub enum MotionPlusType {
    External,
    Builtin,
}

/// One calibration block: 16-bit zero and full-scale values per axis and
/// a degrees-range byte (the actual range is the byte times 6).
#[derive(Debug, Clone, Copy, PartialEq, Eq, Structural)]
pub struct MotionPlusCalibrationData {
    pub yaw_zero_value: u16,
    pub roll_zero_value: u16,
    pub pitch_zero_value: u16,
    pub yaw_scale: u16,
    pub roll_scale: u16,
    pub pitch_scale: u16,
    pub degrees_div_6: u8,
}

/// What decoding one 16-byte calibration block must yield.
pub open spec fn spec_calibration_block(bytes: Seq<u8>, d: MotionPlusCalibrationData) -> bool {
    &&& d.yaw_zero_value == spec_be16(bytes[0], bytes[1])
    &&& d.roll_zero_value == spec_be16(bytes[2], bytes[3])
    &&& d.pitch_zero_value == spec_be16(bytes[4], bytes[5])
    &&& d.yaw_scale == spec_be16(bytes[6], bytes[7])
    &&& d.roll_scale == spec_be16(bytes[8], bytes[9])
    &&& d.pitch_scale == spec_be16(bytes[10], bytes[11])
    &&& d.degrees_div_6 == bytes[12]
}

impl MotionPlusCalibrationData {
    /// Decodes one 16-byte calibration register block.
    pub fn from_registers(value: &[u8; 16]) -> (r: Self)
        ensures
            spec_calibration_block(value@, r),
    {
        MotionPlusCalibrationData {
            yaw_zero_value: ((value[0] as u16) << 8) | (value[1] as u16),
            roll_zero_value: ((value[2] as u16) << 8) | (value[3] as u16),
            pitch_zero_value: ((value[4] as u16) << 8) | (value[5] as u16),
            yaw_scale: ((value[6] as u16) << 8) | (value[7] as u16),
            roll_scale: ((value[8] as u16) << 8) | (value[9] as u16),
            pitch_scale: ((value[10] as u16) << 8) | (value[11] as u16),
            degrees_div_6: value[12],
        }
    }
}

/// Calibration of the Motion Plus: one block for high-speed (`fast`) and
/// one for low-speed (`slow`) operation.
#[derive(Debug, Clone, Copy, PartialEq, Eq, Structural)]
pub struct MotionPlusCalibration {
    pub fast: MotionPlusCalibrationData,
    pub slow: MotionPlusCalibrationData,
}

/// The bytes the Motion Plus calibration CRC32 covers: the first 14 bytes
/// of each block.
pub open spec fn spec_calibration_hashed_bytes(fast: Seq<u8>, slow: Seq<u8>) -> Seq<u8> {
    fast.subrange(0, 14) + slow.subrange(0, 14)
}

/// The stored checksum: a big-endian u32 assembled from the two bytes at
/// the tail of each block.
pub open spec fn spec_calibration_checksum(fast: Seq<u8>, slow: Seq<u8>) -> u32 {
    ((fast[14] as u32) << 24) | ((fast[15] as u32) << 16) | ((slow[14] as u32) << 8) | (
    slow[15] as u32)
}

impl MotionPlusCalibration {
    /// Validates and decodes the two 16-byte calibration register blocks.
    ///
    /// The CRC32 over the 28 combined data bytes must equal the 4-byte
    /// big-endian checksum split across the two block tails.
    pub fn from_register_blocks(fast: &[u8; 16], slow: &[u8; 16]) -> (r: Result<
        Self,
        WiimoteDeviceError,
    >)
        ensures
            r is Ok <==> crc32_of(spec_calibration_hashed_bytes(fast@, slow@))
                == spec_calibration_checksum(fast@, slow@),
            r matches Ok(c) ==> spec_calibration_block(fast@, c.fast) && spec_calibration_block(
                slow@,
                c.slow,
            ),
            r matches Err(e) ==> e == WiimoteDeviceError::InvalidChecksum,
    {
        let mut hashed: Vec<u8> = Vec::new();
        let mut i: usize = 0;
        while i < 14
            invariant
                i <= 14,
                hashed@.len() == i,
                forall|j: int| 0 <= j < i ==> hashed@[j] == fast@[j],
            decreases 14 - i,
        {
            hashed.push(fast[i]);
            i = i + 1;
        }
        let mut i: usize = 0;
        while i < 14
            invariant
                i <= 14,
                hashed@.len() == 14 + i,
                forall|j: int| 0 <= j < 14 ==> hashed@[j] == fast@[j],
                forall|j: int| 14 <= j < 14 + i ==> hashed@[j] == slow@[j - 14],
            decreases 14 - i,
        {
            hashed.push(slow[i]);
            i = i + 1;
        }
        proof {
            assert(hashed@ =~= spec_calibration_hashed_bytes(fast@, slow@));
        }
        let computed = crc32(&hashed);
        let stored = ((fast[14] as u32) << 24) | ((fast[15] as u32) << 16) | ((slow[14] as u32)
            << 8) | (slow[15] as u32);
        if computed != stored {
            return Err(WiimoteDeviceError::InvalidChecksum);
        }
        Ok(
            MotionPlusCalibration {
                fast: MotionPlusCalibrationData::from_registers(fast),
                slow: MotionPlusCalibrationData::from_registers(slow),
            },
        )
    }
}

/// One decoded Motion Plus sample: 14-bit angular rates and the per-axis
/// slow flags.
#[derive(Debug, Clone, Copy, PartialEq, Eq, Structural)]
pub struct MotionPlusData {
    pub yaw: u16,
    pub roll: u16,
    pub pitch: u16,
    pub yaw_slow: bool,
    pub roll_slow: bool,
    pub pitch_slow: bool,
    pub extension_connected: bool,
}

impl MotionPlusData {
    /// Decodes a 6-byte Motion Plus extension payload.
    ///
    /// Bit 1 of byte 5 distinguishes Motion Plus data (set) from
    /// pass-through extension data (clear); a clear bit is a "wrong kind
    /// of frame" signal, not an error.  Each axis is a low byte plus the
    /// high 6 bits of a following byte.
    pub fn try_from(value: [u8; 6]) -> (r: Result<Self, ()>)
        ensures
            r is Ok <==> value@[5] & 0b10 == 0b10,
            r matches Ok(d) ==> {
                &&& d.yaw == spec_be16(value@[3] >> 2, value@[0])
                &&& d.roll == spec_be16(value@[4] >> 2, value@[1])
                &&& d.pitch == spec_be16(value@[5] >> 2, value@[2])
                &&& d.yaw_slow == (value@[3] & 0b10 != 0)
                &&& d.roll_slow == (value@[3] & 0b01 != 0)
                &&& d.pitch_slow == (value@[4] & 0b10 != 0)
                &&& d.extension_connected == (value@[4] & 0b01 != 0)
            },
    {
        let is_motion_plus_data = value[5] & 0b10 == 0b10;
        if !is_motion_plus_data {
            return Err(());
        }
        Ok(
            MotionPlusData {
                yaw: (((value[3] >> 2) as u16) << 8) | (value[0] as u16),
                roll: (((value[4] >> 2) as u16) << 8) | (value[1] as u16),
                pitch: (((value[5] >> 2) as u16) << 8) | (value[2] as u16),
                yaw_slow: value[3] & 0b10 != 0,
                roll_slow: value[3] & 0b01 != 0,
                pitch_slow: value[4] & 0b10 != 0,
                extension_connected: value[4] & 0b01 != 0,
            },
        )
    }
}

/// Numerator of the angular rate in degrees per second: the normalized
/// ratio scaled by the axis's degree range and, at high speed (slow flag
/// clear), by 2000/440 = 50/11; the whole divided by the 8192/595 units
/// per degree per second.
pub open spec fn spec_rate_num(num: int, degrees_div_6: u8, slow: bool) -> int {
    if slow {
        num * (degrees_div_6 * 6) * 595
    } else {
        num * (degrees_div_6 * 6) * 595 * 50
    }
}

/// Denominator of the angular rate in degrees per second.
pub open spec fn spec_rate_den(den: int, slow: bool) -> int {
    if slow {
        den * 8192
    } else {
        den * 8192 * 11
    }
}

/// The calibration block a sample selects for one axis.
pub open spec fn spec_block_for(c: MotionPlusCalibration, slow: bool) -> MotionPlusCalibrationData {
    if slow {
        c.slow
    } else {
        c.fast
    }
}

impl MotionPlusCalibration {
    /// Converts one raw sample into the angular velocity around each axis,
    /// in degrees per second, as exact `(numerator, denominator)` ratios
    /// in the order yaw, roll, pitch.
    ///
    /// Each axis normalizes its 14-bit raw value against the 16-bit zero
    /// and full-scale values of the block its slow flag selects, scales by
    /// the block's degree range, applies the 2000/440 high-speed factor
    /// when the slow flag is clear, and divides by the 8192/595 units per
    /// degree per second.  The denominator is zero when the block's scale
    /// equals its zero value; the caller guards the division.
    pub fn get_angular_velocity(&self, data: &MotionPlusData) -> (r: (
        (i64, i64),
        (i64, i64),
        (i64, i64),
    ))
        ensures
            ({
                let b = spec_block_for(*self, data.yaw_slow);
                &&& r.0.0 == spec_rate_num(
                    spec_normalized_num(data.yaw, 14, b.yaw_zero_value, 16),
                    b.degrees_div_6,
                    data.yaw_slow,
                )
                &&& r.0.1 == spec_rate_den(
                    spec_normalized_den(b.yaw_zero_value, b.yaw_scale, 14, 16),
                    data.yaw_slow,
                )
            }),
            ({
                let b = spec_block_for(*self, data.roll_slow);
                &&& r.1.0 == spec_rate_num(
                    spec_normalized_num(data.roll, 14, b.roll_zero_value, 16),
                    b.degrees_div_6,
                    data.roll_slow,
                )
                &&& r.1.1 == spec_rate_den(
                    spec_normalized_den(b.roll_zero_value, b.roll_scale, 14, 16),
                    data.roll_slow,
                )
            }),
            ({
                let b = spec_block_for(*self, data.pitch_slow);
                &&& r.2.0 == spec_rate_num(
                    spec_normalized_num(data.pitch, 14, b.pitch_zero_value, 16),
                    b.degrees_div_6,
                    data.pitch_slow,
                )
                &&& r.2.1 == spec_rate_den(
                    spec_normalized_den(b.pitch_zero_value, b.pitch_scale, 14, 16),
                    data.pitch_slow,
                )
            }),
    {
        let yaw_block = if data.yaw_slow {
            &self.slow
        } else {
            &self.fast
        };
        let roll_block = if data.roll_slow {
            &self.slow
        } else {
            &self.fast
        };
        let pitch_block = if data.pitch_slow {
            &self.slow
        } else {
            &self.fast
        };
        let yaw = axis_rate(
            data.yaw,
            yaw_block.yaw_zero_value,
            yaw_block.yaw_scale,
            yaw_block.degrees_div_6,
            data.yaw_slow,
        );
        let roll = axis_rate(
            data.roll,
            roll_block.roll_zero_value,
            roll_block.roll_scale,
            roll_block.degrees_div_6,
            data.roll_slow,
        );
        let pitch = axis_rate(
            data.pitch,
            pitch_block.pitch_zero_value,
            pitch_block.pitch_scale,
            pitch_block.degrees_div_6,
            data.pitch_slow,
        );
        (yaw, roll, pitch)
    }
}

/// The degrees-per-second ratio of one axis.
fn axis_rate(raw: u16, zero: u16, scale: u16, degrees_div_6: u8, slow: bool) -> (r: (i64, i64))
    ensures
        r.0 == spec_rate_num(spec_normalized_num(raw, 14, zero, 16), degrees_div_6, slow),
        r.1 == spec_rate_den(spec_normalized_den(zero, scale, 14, 16), slow),
{
    let (num, den) = normalize(raw, 14, zero, scale, 16);
    let degrees: i64 = (degrees_div_6 as i64) * 6;
    proof {
        assert(-6_600_000_000_000 <= num * degrees <= 6_600_000_000_000) by (nonlinear_arith)
            requires
                -0x1_0000_0000 < num < 0x1_0000_0000,
                0 <= degrees <= 1530,
        ;
    }
    let scaled: i64 = num * degrees;
    if slow {
        (scaled * 595, den * 8192)
    } else {
        (scaled * 595 * 50, den * 8192 * 11)
    }
}

/// The zeroed calibration block: the state before a calibration read.
pub open spec fn spec_zero_calibration_block() -> MotionPlusCalibrationData {
    MotionPlusCalibrationData {
        yaw_zero_value: 0u16,
        roll_zero_value: 0u16,
        pitch_zero_value: 0u16,
        yaw_scale: 0u16,
        roll_scale: 0u16,
        pitch_scale: 0u16,
        degrees_div_6: 0u8,
    }
}

/// The zeroed calibration: the state before a calibration read.
pub open spec fn spec_zero_calibration() -> MotionPlusCalibration {
    MotionPlusCalibration {
        fast: spec_zero_calibration_block(),
        slow: spec_zero_calibration_block(),
    }
}

impl Default for MotionPlusCalibrationData {
    /// All zeros: the state before a successful calibration read.
    fn default() -> (r: Self)
        ensures
            r == spec_zero_calibration_block(),
    {
        MotionPlusCalibrationData {
            yaw_zero_value: 0,
            roll_zero_value: 0,
            pitch_zero_value: 0,
            yaw_scale: 0,
            roll_scale: 0,
            pitch_scale: 0,
            degrees_div_6: 0,
        }
    }
}

impl Default for MotionPlusCalibration {
    /// Two zeroed blocks: the state before a successful calibration read.
    fn default() -> (r: Self)
        ensures
            r == spec_zero_calibration(),
    {
        MotionPlusCalibration {
            fast: MotionPlusCalibrationData::default(),
            slow: MotionPlusCalibrationData::default(),
        }
    }
}

/// The identity block of an external Motion Plus attachment:
/// `[0x00, 0x00, 0xA6, 0x20, _, 0x05]`.
pub open spec fn spec_is_external_mp_id(id: Seq<u8>) -> bool {
    id[0] == 0x00 && id[1] == 0x00 && id[2] == 0xA6 && id[3] == 0x20 && id[5] == 0x05
}

/// The identity block of a built-in Motion Plus:
/// `[_, 0x00, 0xA6, 0x20, _, 0x05]`.
pub open spec fn spec_is_builtin_mp_id(id: Seq<u8>) -> bool {
    id[1] == 0x00 && id[2] == 0xA6 && id[3] == 0x20 && id[5] == 0x05
}

/// A Motion Plus extension and its cached state: its kind, whether its
/// calibration has been read, its operating mode and its calibration.
#[derive(Debug, Clone, Copy)]
pub struct MotionPlus {
    motion_plus_type: MotionPlusType,
    initialized: bool,
    mode: MotionPlusMode,
    calibration: MotionPlusCalibration,
}

/// Sum of the yaw values of a batch of samples.
pub open spec fn spec_sum_yaw(s: Seq<MotionPlusData>) -> int
    decreases s.len(),
{
    if s.len() == 0 {
        0
    } else {
        spec_sum_yaw(s.drop_last()) + s.last().yaw
    }
}

/// Sum of the roll values of a batch of samples.
pub open spec fn spec_sum_roll(s: Seq<MotionPlusData>) -> int
    decreases s.len(),
{
    if s.len() == 0 {
        0
    } else {
        spec_sum_roll(s.drop_last()) + s.last().roll
    }
}

/// Sum of the pitch values of a batch of samples.
pub open spec fn spec_sum_pitch(s: Seq<MotionPlusData>) -> int
    decreases s.len(),
{
    if s.len() == 0 {
        0
    } else {
        spec_sum_pitch(s.drop_last()) + s.last().pitch
    }
}

/// A sample at rest: all three slow flags set.
pub open spec fn spec_all_slow(s: Seq<MotionPlusData>) -> bool {
    forall|j: int|
        0 <= j < s.len() ==> s[j].yaw_slow && s[j].roll_slow && s[j].pitch_slow
}

/// The zero value a batch calibrates to: the rounded average of the raw
/// 14-bit samples, shifted into the 16-bit calibration scale (truncated
/// to 16 bits).
pub open spec fn spec_calibrated_zero(sum: int, count: int) -> int {
    (((sum + count / 2) / count) * 4) % 0x10000
}

impl MotionPlus {
    /// Detects a Motion Plus by reading the 6-byte identity block at
    /// control register 0xA6_00FA; an unrecognized block means no Motion
    /// Plus is present, which is not an error.
    pub fn detect<D: NativeWiimote>(wiimote: &mut WiimoteDevice<D>) -> (r: WiimoteResult<
        Option<MotionPlus>,
    >)
        ensures
            final(wiimote).spec_same_state(old(wiimote)),
            final(wiimote).spec_rumble() == old(wiimote).spec_rumble(),
            r is Ok ==> final(wiimote).spec_connected(),
            r matches Ok(Some(mp)) ==> !mp.spec_initialized() && mp.spec_mode()
                == MotionPlusMode::Inactive && mp.spec_calibration() == spec_zero_calibration(),
    {
        let address = Addressing::control_registers(0xA6_00FA, 6);
        let memory_data = match simple_io::read_16_bytes_sync(wiimote, address) {
            Ok(memory_data) => memory_data,
            Err(e) => {
                return Err(e);
            },
        };
        let identifier: [u8; 6] = [
            memory_data.data[0],
            memory_data.data[1],
            memory_data.data[2],
            memory_data.data[3],
            memory_data.data[4],
            memory_data.data[5],
        ];
        match motion_plus_type_from_identifier(identifier) {
            Some(motion_plus_type) => Ok(
                Some(
                    MotionPlus {
                        motion_plus_type,
                        initialized: false,
                        mode: MotionPlusMode::Inactive,
                        calibration: MotionPlusCalibration::default(),
                    },
                ),
            ),
            None => Ok(None),
        }
    }

    pub closed spec fn spec_type(&self) -> MotionPlusType {
        self.motion_plus_type
    }

    pub closed spec fn spec_initialized(&self) -> bool {
        self.initialized
    }

    pub closed spec fn spec_mode(&self) -> MotionPlusMode {
        self.mode
    }

    pub closed spec fn spec_calibration(&self) -> MotionPlusCalibration {
        self.calibration
    }

    /// Returns whether the Motion Plus is external or built in.
    pub fn motion_plus_type(&self) -> (r: MotionPlusType)
        ensures
            r == self.spec_type(),
    {
        self.motion_plus_type
    }

    /// Returns whether the calibration has been read successfully.
    pub fn is_initialized(&self) -> (r: bool)
        ensures
            r == self.spec_initialized(),
    {
        self.initialized
    }

    /// Returns the current operating mode.
    pub fn mode(&self) -> (r: MotionPlusMode)
        ensures
            r == self.spec_mode(),
    {
        self.mode
    }

    /// Returns the current calibration.
    pub fn calibration(&self) -> (r: MotionPlusCalibration)
        ensures
            r == self.spec_calibration(),
    {
        self.calibration
    }

    /// Initializes the Motion Plus (write 0x55 to control register
    /// 0xA6_00F0) and reads its calibration; on success the extension is
    /// marked initialized.
    pub fn initialize<D: NativeWiimote>(&mut self, wiimote: &mut WiimoteDevice<D>) -> (r:
        WiimoteResult<()>)
        ensures
            final(wiimote).spec_same_state(old(wiimote)),
            final(wiimote).spec_rumble() == old(wiimote).spec_rumble(),
            final(self).spec_type() == old(self).spec_type(),
            final(self).spec_mode() == old(self).spec_mode(),
            r is Ok ==> final(self).spec_initialized() && final(wiimote).spec_connected(),
            r is Err ==> *final(self) == *old(self),
    {
        match Self::write_single_control_byte(wiimote, 0xA6_00F0, 0x55) {
            Ok(()) => (),
            Err(e) => {
                return Err(e);
            },
        }
        match self.read_calibration_data(wiimote) {
            Ok(()) => (),
            Err(e) => {
                return Err(e);
            },
        }
        self.initialized = true;
        Ok(())
    }

    /// Reads and validates the two 16-byte calibration blocks at control
    /// registers 0xA6_0020 (fast) and 0xA6_0030 (slow); a combined CRC32
    /// mismatch is an `InvalidChecksum` error and leaves the state
    /// unchanged.
    pub fn read_calibration_data<D: NativeWiimote>(&mut self, wiimote: &mut WiimoteDevice<D>) -> (r:
        WiimoteResult<()>)
        ensures
            final(wiimote).spec_same_state(old(wiimote)),
            final(wiimote).spec_rumble() == old(wiimote).spec_rumble(),
            final(self).spec_type() == old(self).spec_type(),
            final(self).spec_mode() == old(self).spec_mode(),
            final(self).spec_initialized() == old(self).spec_initialized(),
            r is Ok ==> final(wiimote).spec_connected(),
            r is Err ==> *final(self) == *old(self),
    {
        let fast = match simple_io::read_16_bytes_sync_checked(
            wiimote,
            Addressing::control_registers(0xA6_0020, 16),
        ) {
            Ok(data) => data,
            Err(e) => {
                return Err(e);
            },
        };
        let slow = match simple_io::read_16_bytes_sync_checked(
            wiimote,
            Addressing::control_registers(0xA6_0030, 16),
        ) {
            Ok(data) => data,
            Err(e) => {
                return Err(e);
            },
        };
        match MotionPlusCalibration::from_register_blocks(&fast, &slow) {
            Ok(calibration) => {
                self.calibration = calibration;
                Ok(())
            },
            Err(e) => Err(WiimoteError::WiimoteDeviceError(e)),
        }
    }

    /// Calibrates the slow zero values from a batch of readings taken at
    /// rest.  Aborts with `None` if any reading shows movement (a clear
    /// slow flag on any axis) or if fewer than 8 readings were supplied;
    /// otherwise updates only the slow block's zero values, to the
    /// rounded average of each axis, and returns the new calibration.
    pub fn calibrate_zero_values(&mut self, readings: &[MotionPlusData]) -> (r: Option<
        MotionPlusCalibration,
    >)
        requires
            readings@.len() <= 0x1_0000_0000_0000,
        ensures
            final(self).spec_type() == old(self).spec_type(),
            final(self).spec_mode() == old(self).spec_mode(),
            final(self).spec_initialized() == old(self).spec_initialized(),
            r is Some <==> readings@.len() >= 8 && spec_all_slow(readings@),
            r is None ==> *final(self) == *old(self),
            r matches Some(c) ==> {
                let count = readings@.len() as int;
                &&& final(self).spec_calibration() == c
                &&& c.fast == old(self).spec_calibration().fast
                &&& c.slow.yaw_scale == old(self).spec_calibration().slow.yaw_scale
                &&& c.slow.roll_scale == old(self).spec_calibration().slow.roll_scale
                &&& c.slow.pitch_scale == old(self).spec_calibration().slow.pitch_scale
                &&& c.slow.degrees_div_6 == old(self).spec_calibration().slow.degrees_div_6
                &&& c.slow.yaw_zero_value == spec_calibrated_zero(spec_sum_yaw(readings@), count)
                &&& c.slow.roll_zero_value == spec_calibrated_zero(
                    spec_sum_roll(readings@),
                    count,
                )
                &&& c.slow.pitch_zero_value == spec_calibrated_zero(
                    spec_sum_pitch(readings@),
                    count,
                )
            },
    {
        let read_count = readings.len();
        let mut sum_yaw: u64 = 0;
        let mut sum_roll: u64 = 0;
        let mut sum_pitch: u64 = 0;
        let mut i: usize = 0;
        proof {
            assert(readings@.subrange(0, 0) =~= Seq::<MotionPlusData>::empty());
        }
        while i < read_count
            invariant
                i <= readings@.len() <= 0x1_0000_0000_0000,
                read_count == readings@.len(),
                sum_yaw == spec_sum_yaw(readings@.subrange(0, i as int)),
                sum_roll == spec_sum_roll(readings@.subrange(0, i as int)),
                sum_pitch == spec_sum_pitch(readings@.subrange(0, i as int)),
                sum_yaw <= i * 0xFFFF,
                sum_roll <= i * 0xFFFF,
                sum_pitch <= i * 0xFFFF,
                forall|j: int|
                    0 <= j < i ==> readings@[j].yaw_slow && readings@[j].roll_slow
                        && readings@[j].pitch_slow,
            decreases readings@.len() - i,
        {
            let reading = &readings[i];
            if !reading.yaw_slow || !reading.roll_slow || !reading.pitch_slow {
                // Too much movement: abort the calibration.
                return None;
            }
            proof {
                let prefix = readings@.subrange(0, i as int);
                let next = readings@.subrange(0, i + 1);
                assert(next.drop_last() =~= prefix);
                assert(next.last() == readings@[i as int]);
            }
            sum_yaw = sum_yaw + (reading.yaw as u64);
            sum_roll = sum_roll + (reading.roll as u64);
            sum_pitch = sum_pitch + (reading.pitch as u64);
            i = i + 1;
        }
        proof {
            assert(readings@.subrange(0, readings@.len() as int) =~= readings@);
        }
        if read_count >= 8 {
            // The calibration operates at 16 bits, the samples at 14.
            let average_yaw = rounded_average(sum_yaw, read_count as u64);
            let average_roll = rounded_average(sum_roll, read_count as u64);
            let average_pitch = rounded_average(sum_pitch, read_count as u64);
            let mut calibration = self.calibration;
            calibration.slow.yaw_zero_value = ((average_yaw * 4) % 0x10000) as u16;
            calibration.slow.roll_zero_value = ((average_roll * 4) % 0x10000) as u16;
            calibration.slow.pitch_zero_value = ((average_pitch * 4) % 0x10000) as u16;
            self.calibration = calibration;
            Some(calibration)
        } else {
            None
        }
    }

    /// Changes the operating mode by writing the mode's control byte at
    /// the mode's register, as `spec_mode_control_write` gives them.
    pub fn change_mode<D: NativeWiimote>(
        &mut self,
        wiimote: &mut WiimoteDevice<D>,
        mode: MotionPlusMode,
    ) -> (r: WiimoteResult<()>)
        ensures
            final(wiimote).spec_same_state(old(wiimote)),
            final(wiimote).spec_rumble() == old(wiimote).spec_rumble(),
            final(self).spec_type() == old(self).spec_type(),
            final(self).spec_initialized() == old(self).spec_initialized(),
            final(self).spec_calibration() == old(self).spec_calibration(),
            r is Ok ==> final(self).spec_mode() == mode && final(wiimote).spec_connected(),
            r is Err ==> final(self).spec_mode() == old(self).spec_mode(),
    {
        let (address, value) = mode_control_write(mode);
        match Self::write_single_control_byte(wiimote, address, value) {
            Ok(()) => {
                self.mode = mode;
                Ok(())
            },
            Err(e) => Err(e),
        }
    }

    /// Writes one byte to a control register and interprets the
    /// acknowledge through `ack_to_result`.
    pub fn write_single_control_byte<D: NativeWiimote>(
        wiimote: &mut WiimoteDevice<D>,
        address: u32,
        value: u8,
    ) -> (r: WiimoteResult<()>)
        ensures
            final(wiimote).spec_same_state(old(wiimote)),
            final(wiimote).spec_rumble() == old(wiimote).spec_rumble(),
            r is Ok ==> final(wiimote).spec_connected(),
            (r matches Err(e) && e == WiimoteError::Disconnected) ==> !final(wiimote).spec_connected(),
    {
        let addressing = Addressing::control_registers(address, 1);
        let mut memory_write_buffer = [0u8; 16];
        memory_write_buffer[0] = value;
        let ack = match simple_io::write_16_bytes_sync(wiimote, addressing, &memory_write_buffer) {
            Ok(ack) => ack,
            Err(e) => {
                return Err(e);
            },
        };
        match ack_to_result(&ack) {
            Ok(()) => Ok(()),
            Err(e) => Err(WiimoteError::WiimoteDeviceError(e)),
        }
    }
}

/// The control write each mode change performs: the register address and
/// the byte written.  Leaving the active modes goes through the extension
/// initialization register 0xA4_00F0; the active and pass-through modes
/// are selected at 0xA6_00FE.
pub open spec fn spec_mode_control_write(mode: MotionPlusMode) -> (u32, u8) {
    match mode {
        MotionPlusMode::Inactive => (0xA4_00F0u32, 0x55u8),
        MotionPlusMode::Active => (0xA6_00FEu32, 0x04u8),
        MotionPlusMode::NunchuckPassthrough => (0xA6_00FEu32, 0x05u8),
        MotionPlusMode::ClassicControllerPassthrough => (0xA6_00FEu32, 0x07u8),
    }
}

/// Selects the register address and value a mode change writes.
pub fn mode_control_write(mode: MotionPlusMode) -> (r: (u32, u8))
    ensures
        r == spec_mode_control_write(mode),
{
    match mode {
        MotionPlusMode::Inactive => (0xA4_00F0, 0x55),
        MotionPlusMode::Active => (0xA6_00FE, 0x04),
        MotionPlusMode::NunchuckPassthrough => (0xA6_00FE, 0x05),
        MotionPlusMode::ClassicControllerPassthrough => (0xA6_00FE, 0x07),
    }
}

/// Interprets the acknowledge of a single control write: error code 7
/// (write-only register or disconnected extension) is an `InvalidData`
/// error here; any other result is success.
pub fn ack_to_result(ack: &AcknowledgeData) -> (r: Result<(), WiimoteDeviceError>)
    ensures
        r is Ok <==> ack.spec_error_code() != 7,
        r matches Err(e) ==> e == WiimoteDeviceError::InvalidData,
{
    if ack.error_code() == 7 {
        Err(WiimoteDeviceError::InvalidData)
    } else {
        Ok(())
    }
}

/// Classifies the 6-byte identity block at control register 0xA6_00FA:
/// the external pattern first, then the built-in pattern; anything else
/// means no Motion Plus is present.
pub fn motion_plus_type_from_identifier(identifier: [u8; 6]) -> (r: Option<MotionPlusType>)
    ensures
        r == (if spec_is_external_mp_id(identifier@) {
            Some(MotionPlusType::External)
        } else if spec_is_builtin_mp_id(identifier@) {
            Some(MotionPlusType::Builtin)
        } else {
            None::<MotionPlusType>
        }),
{
    if identifier[0] == 0x00 && identifier[1] == 0x00 && identifier[2] == 0xA6 && identifier[3]
        == 0x20 && identifier[5] == 0x05 {
        Some(MotionPlusType::External)
    } else if identifier[1] == 0x00 && identifier[2] == 0xA6 && identifier[3] == 0x20
        && identifier[5] == 0x05 {
        Some(MotionPlusType::Builtin)
    } else {
        None
    }
}

/// The average of `sum` over `count` samples, rounded to the nearest
/// integer (half away from zero).
fn rounded_average(sum: u64, count: u64) -> (r: u64)
    requires
        count > 0,
        sum <= count * 0xFFFF,
        count <= 0x1_0000_0000_0000,
    ensures
        r == (sum as int + (count as int) / 2) / (count as int),
        r <= 0xFFFF,
{
    proof {
        let s = sum as int;
        let c = count as int;
        assert(s + c / 2 < c * 0x10000) by (nonlinear_arith)
            requires
                s <= c * 0xFFFF,
                c > 0,
        ;
        assert((s + c / 2) / c < 0x10000) by (nonlinear_arith)
            requires
                s + c / 2 < c * 0x10000,
                c > 0,
        ;
    }
    (sum + count / 2) / count
}

} // verus!
