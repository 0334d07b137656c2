//! Balance Board extension: load-cell calibration and data decode.
//!
//! The calibration holds three weight reference points (0 kg, 17 kg,
//! 34 kg) for each of the four load cells, plus reference battery and
//! temperature bytes, all guarded by a CRC32 over selected byte ranges.

use vstd::prelude::*;

use crate::checksum::{crc32, crc32_of};
use crate::device::WiimoteDevice;
use crate::input::spec_be16;
use crate::native::NativeWiimote;
use crate::output::Addressing;
use crate::result::{WiimoteDeviceError, WiimoteError, WiimoteResult};
use crate::simple_io;

verus! {

/// One weight reference point: a raw load-cell value per position.
#[derive(Debug, Clone, Copy, PartialEq, Eq, Structural)]
pub struct WeightData {
    pub top_right: u16,
    pub bottom_right: u16,
    pub top_left: u16,
    pub bottom_left: u16,
}

/// What decoding an 8-byte weight block must yield: four big-endian
/// 16-bit values.
pub open spec fn spec_weight_block(bytes: Seq<u8>, d: WeightData) -> bool {
    &&& d.top_right == spec_be16(bytes[0], bytes[1])
    &&& d.bottom_right == spec_be16(bytes[2], bytes[3])
    &&& d.top_left == spec_be16(bytes[4], bytes[5])
    &&& d.bottom_left == spec_be16(bytes[6], bytes[7])
}

impl WeightData {
    /// Decodes four big-endian 16-bit weight values from the first 8
    /// bytes; fails on a shorter slice.
    pub fn read(data: &[u8]) -> (r: Option<Self>)
        ensures
            r is Some <==> data@.len() >= 8,
            r matches Some(d) ==> spec_weight_block(data@, d),
    {
        if data.len() < 8 {
            return None;
        }
        Some(
            WeightData {
                top_right: ((data[0] as u16) << 8) | (data[1] as u16),
                bottom_right: ((data[2] as u16) << 8) | (data[3] as u16),
                top_left: ((data[4] as u16) << 8) | (data[5] as u16),
                bottom_left: ((data[6] as u16) << 8) | (data[7] as u16),
            },
        )
    }
}

/// Calibration of the Balance Board: the three weight reference points
/// and the reference battery and temperature bytes.
#[derive(Debug, Clone, Copy, PartialEq, Eq, Structural)]
pub struct BalanceBoardCalibration {
    pub weights_0kg: WeightData,
    pub weights_17kg: WeightData,
    pub weights_34kg: WeightData,
    pub reference_battery: u8,
    pub reference_temperature: u8,
}

/// The bytes the Balance Board calibration CRC32 covers: calibration
/// bytes 4-27, then bytes 0-1, then the two temperature reference bytes.
pub open spec fn spec_board_hashed_bytes(calibration: Seq<u8>, temperature: Seq<u8>) -> Seq<u8> {
    calibration.subrange(4, 28) + calibration.subrange(0, 2) + temperature.subrange(0, 2)
}

/// The stored checksum: a big-endian u32 at the tail of the calibration
/// block.
pub open spec fn spec_board_checksum(calibration: Seq<u8>) -> u32 {
    ((calibration[28] as u32) << 24) | ((calibration[29] as u32) << 16) | ((
    calibration[30] as u32) << 8) | (calibration[31] as u32)
}

impl BalanceBoardCalibration {
    /// Validates and decodes the 32 calibration register bytes (two
    /// 16-byte reads concatenated) and the 2-byte temperature reference
    /// read.
    ///
    /// The CRC32 over calibration bytes 4-27, bytes 0-1 and the two
    /// temperature bytes must equal the big-endian checksum in
    /// calibration bytes 28-31.  The three weight reference blocks sit at
    /// bytes 4-11, 12-19 and 20-27.
    pub fn from_register_data(calibration_data: &[u8; 32], temperature_data: &[u8; 2]) -> (r:
        Result<Self, WiimoteDeviceError>)
        ensures
            r is Ok <==> crc32_of(spec_board_hashed_bytes(calibration_data@, temperature_data@))
                == spec_board_checksum(calibration_data@),
            r matches Ok(c) ==> {
                &&& spec_weight_block(calibration_data@.subrange(4, 12), c.weights_0kg)
                &&& spec_weight_block(calibration_data@.subrange(12, 20), c.weights_17kg)
                &&& spec_weight_block(calibration_data@.subrange(20, 28), c.weights_34kg)
                &&& c.reference_battery == calibration_data@[1]
                &&& c.reference_temperature == temperature_data@[0]
            },
            r matches Err(e) ==> e == WiimoteDeviceError::InvalidChecksum,
    {
        let mut hashed: Vec<u8> = Vec::new();
        let mut i: usize = 4;
        while i < 28
            invariant
                4 <= i <= 28,
                hashed@.len() == i - 4,
                forall|j: int| 0 <= j < i - 4 ==> hashed@[j] == calibration_data@[j + 4],
            decreases 28 - i,
        {
            hashed.push(calibration_data[i]);
            i = i + 1;
        }
        hashed.push(calibration_data[0]);
        hashed.push(calibration_data[1]);
        hashed.push(temperature_data[0]);
        hashed.push(temperature_data[1]);
        proof {
            assert(hashed@ =~= spec_board_hashed_bytes(calibration_data@, temperature_data@));
        }
        let computed = crc32(&hashed);
        let stored = ((calibration_data[28] as u32) << 24) | ((calibration_data[29] as u32)
            << 16) | ((calibration_data[30] as u32) << 8) | (calibration_data[31] as u32);
        if computed != stored {
            return Err(WiimoteDeviceError::InvalidChecksum);
        }
        let weights_0kg = WeightData {
            top_right: ((calibration_data[4] as u16) << 8) | (calibration_data[5] as u16),
            bottom_right: ((calibration_data[6] as u16) << 8) | (calibration_data[7] as u16),
            top_left: ((calibration_data[8] as u16) << 8) | (calibration_data[9] as u16),
            bottom_left: ((calibration_data[10] as u16) << 8) | (calibration_data[11] as u16),
        };
        let weights_17kg = WeightData {
            top_right: ((calibration_data[12] as u16) << 8) | (calibration_data[13] as u16),
            bottom_right: ((calibration_data[14] as u16) << 8) | (calibration_data[15] as u16),
            top_left: ((calibration_data[16] as u16) << 8) | (calibration_data[17] as u16),
            bottom_left: ((calibration_data[18] as u16) << 8) | (calibration_data[19] as u16),
        };
        let weights_34kg = WeightData {
            top_right: ((calibration_data[20] as u16) << 8) | (calibration_data[21] as u16),
            bottom_right: ((calibration_data[22] as u16) << 8) | (calibration_data[23] as u16),
            top_left: ((calibration_data[24] as u16) << 8) | (calibration_data[25] as u16),
            bottom_left: ((calibration_data[26] as u16) << 8) | (calibration_data[27] as u16),
        };
        Ok(
            BalanceBoardCalibration {
                weights_0kg,
                weights_17kg,
                weights_34kg,
                reference_battery: calibration_data[1],
                reference_temperature: temperature_data[0],
            },
        )
    }
}

impl BalanceBoardCalibration {
    /// Reads and validates the Balance Board calibration: two 16-byte
    /// register reads at 0xA4_0020 and 0xA4_0030 concatenated, plus the
    /// 2-byte temperature reference at 0xA4_0060, all guarded by one
    /// CRC32.
    pub fn read<D: NativeWiimote>(wiimote: &mut WiimoteDevice<D>) -> (r: WiimoteResult<Self>)
        ensures
            final(wiimote).spec_same_state(old(wiimote)),
            final(wiimote).spec_rumble() == old(wiimote).spec_rumble(),
            r is Ok ==> final(wiimote).spec_connected(),
            (r matches Err(e) && e == WiimoteError::Disconnected) ==> !final(wiimote).spec_connected(),
    {
        let data_first_half = match simple_io::read_16_bytes_sync(
            wiimote,
            Addressing::control_registers(0xA4_0020, 16),
        ) {
            Ok(data) => data,
            Err(e) => {
                return Err(e);
            },
        };
        let data_second_half = match simple_io::read_16_bytes_sync(
            wiimote,
            Addressing::control_registers(0xA4_0030, 16),
        ) {
            Ok(data) => data,
            Err(e) => {
                return Err(e);
            },
        };
        let data_reference_temperature = match simple_io::read_16_bytes_sync(
            wiimote,
            Addressing::control_registers(0xA4_0060, 2),
        ) {
            Ok(data) => data,
            Err(e) => {
                return Err(e);
            },
        };
        let mut calibration_data = [0u8; 32];
        let mut i: usize = 0;
        while i < 16
            invariant
                i <= 16,
                forall|j: int| 0 <= j < i ==> calibration_data@[j] == data_first_half.data@[j],
                forall|j: int|
                    16 <= j < 16 + i ==> calibration_data@[j] == data_second_half.data@[j - 16],
            decreases 16 - i,
        {
            calibration_data[i] = data_first_half.data[i];
            calibration_data[16 + i] = data_second_half.data[i];
            i = i + 1;
        }
        proof {
            assert(calibration_data@ =~= data_first_half.data@ + data_second_half.data@);
        }
        let temperature_data: [u8; 2] = [
            data_reference_temperature.data[0],
            data_reference_temperature.data[1],
        ];
        match Self::from_register_data(&calibration_data, &temperature_data) {
            Ok(calibration) => Ok(calibration),
            Err(e) => Err(WiimoteError::WiimoteDeviceError(e)),
        }
    }
}

/// Numerator of the piecewise-linear weight remap, in kilograms over
/// `spec_weight_den`: 0 at or below the 0 kg reference, a linear ramp to
/// 17 between the 0 kg and 17 kg references, and a linear ramp from 17 to
/// 34 between the 17 kg and 34 kg references (continued linearly above).
pub open spec fn spec_weight_num(value: u16, ref_0kg: u16, ref_17kg: u16, ref_34kg: u16) -> int {
    if value <= ref_0kg {
        0
    } else if value <= ref_17kg {
        17 * (value - ref_0kg)
    } else {
        17 * (ref_34kg - ref_17kg) + 17 * (value - ref_17kg)
    }
}

/// Denominator of the piecewise-linear weight remap.
pub open spec fn spec_weight_den(value: u16, ref_0kg: u16, ref_17kg: u16, ref_34kg: u16) -> int {
    if value <= ref_0kg {
        1
    } else if value <= ref_17kg {
        ref_17kg - ref_0kg
    } else {
        ref_34kg - ref_17kg
    }
}

/// Remaps one raw load-cell value against its three reference points.
///
/// Returns the weight in kilograms as an exact `(numerator, denominator)`
/// ratio, before temperature compensation.  With degenerate references
/// (equal adjacent points) the denominator is zero; the caller guards the
/// division.
pub fn get_weight_value(value: u16, ref_0kg: u16, ref_17kg: u16, ref_34kg: u16) -> (r: (i64, i64))
    ensures
        r.0 == spec_weight_num(value, ref_0kg, ref_17kg, ref_34kg),
        r.1 == spec_weight_den(value, ref_0kg, ref_17kg, ref_34kg),
{
    if value <= ref_0kg {
        (0, 1)
    } else if value <= ref_17kg {
        (17 * ((value - ref_0kg) as i64), (ref_17kg as i64) - (ref_0kg as i64))
    } else {
        (
            17 * (((ref_34kg as i64) - (ref_17kg as i64)) + ((value - ref_17kg) as i64)),
            (ref_34kg as i64) - (ref_17kg as i64),
        )
    }
}

/// The weight remap hits its reference points exactly: a raw value equal
/// to the 0 kg reference weighs 0, equal to the 17 kg reference weighs
/// exactly 17, and equal to the 34 kg reference weighs exactly 34 (the
/// numerator is 17 resp. 34 times the denominator).
pub proof fn lemma_weight_reference_points(ref_0kg: u16, ref_17kg: u16, ref_34kg: u16)
    requires
        ref_0kg < ref_17kg < ref_34kg,
    ensures
        spec_weight_num(ref_0kg, ref_0kg, ref_17kg, ref_34kg) == 0,
        spec_weight_num(ref_17kg, ref_0kg, ref_17kg, ref_34kg) == 17 * spec_weight_den(
            ref_17kg,
            ref_0kg,
            ref_17kg,
            ref_34kg,
        ),
        spec_weight_num(ref_34kg, ref_0kg, ref_17kg, ref_34kg) == 34 * spec_weight_den(
            ref_34kg,
            ref_0kg,
            ref_17kg,
            ref_34kg,
        ),
{
}

/// Raw data received from the Balance Board: the four load-cell values
/// and, when the payload is long enough, the temperature and battery
/// bytes.
#[derive(Debug, Clone, Copy, PartialEq, Eq, Structural)]
pub struct BalanceBoardData {
    pub weights: WeightData,
    pub temperature: Option<u8>,
    pub battery: Option<u8>,
}

impl BalanceBoardData {
    /// Decodes a Balance Board extension payload: four big-endian 16-bit
    /// weight values from the first 8 bytes, a temperature byte at offset
    /// 8 and a battery byte at offset 10 when present.
    pub fn try_from(data: &[u8]) -> (r: Result<Self, WiimoteDeviceError>)
        ensures
            r is Ok <==> data@.len() >= 8,
            r matches Ok(d) ==> {
                &&& spec_weight_block(data@, d.weights)
                &&& d.temperature == (if data@.len() > 8 {
                    Some(data@[8])
                } else {
                    None::<u8>
                })
                &&& d.battery == (if data@.len() > 10 {
                    Some(data@[10])
                } else {
                    None::<u8>
                })
            },
            r matches Err(e) ==> e == WiimoteDeviceError::InvalidData,
    {
        match WeightData::read(data) {
            None => Err(WiimoteDeviceError::InvalidData),
            Some(weights) => Ok(
                BalanceBoardData {
                    weights,
                    temperature: if data.len() > 8 {
                        Some(data[8])
                    } else {
                        None
                    },
                    battery: if data.len() > 10 {
                        Some(data[10])
                    } else {
                        None
                    },
                },
            ),
        }
    }
}

} // verus!
