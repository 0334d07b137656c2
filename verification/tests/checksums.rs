use wiimote_core::device::AccelerometerCalibration;
use wiimote_core::extensions::balance_board::BalanceBoardCalibration;
use wiimote_core::extensions::motion_plus::MotionPlusCalibration;
use wiimote_core::result::WiimoteDeviceError;

fn accel_block() -> [u8; 16] {
    let mut data = [0u8; 16];
    data[0] = 0x80; // x zero offset, high bits
    data[1] = 0x81;
    data[2] = 0x82;
    data[3] = 0b0001_1011; // low bits of the zero offsets
    data[4] = 0x9A; // x gravity, high bits
    data[5] = 0x9B;
    data[6] = 0x9C;
    data[7] = 0b0010_0111; // low bits of the gravity references
    data[8] = 0x00;
    let mut checksum = 0x55u8;
    for byte in &data[..9] {
        checksum = checksum.wrapping_add(*byte);
    }
    data[9] = checksum;
    data
}

#[test]
fn accelerometer_checksum_accepts_valid_block() {
    let data = accel_block();
    let calibration = AccelerometerCalibration::from_eeprom_bytes(&data).unwrap();
    assert_eq!(calibration.x_zero_offset, (0x80 << 2) | 0b01);
    assert_eq!(calibration.y_zero_offset, (0x81 << 2) | 0b10);
    assert_eq!(calibration.z_zero_offset, (0x82 << 2) | 0b11);
    assert_eq!(calibration.x_gravity, (0x9A << 2) | 0b10);
    assert_eq!(calibration.y_gravity, (0x9B << 2) | 0b01);
    assert_eq!(calibration.z_gravity, (0x9C << 2) | 0b11);
}

#[test]
fn accelerometer_checksum_rejects_any_corrupted_byte() {
    // Corrupting any byte of the protected block, the stored checksum
    // included, must fail validation.
    for i in 0..10 {
        for flip in [0x01u8, 0x80u8] {
            let mut data = accel_block();
            data[i] ^= flip;
            let result = AccelerometerCalibration::from_eeprom_bytes(&data);
            assert!(matches!(result, Err(WiimoteDeviceError::InvalidChecksum)));
        }
    }
}

fn motion_plus_blocks() -> ([u8; 16], [u8; 16]) {
    let mut fast = [0u8; 16];
    let mut slow = [0u8; 16];
    for i in 0..14 {
        fast[i] = 0x10 + i as u8;
        slow[i] = 0x40 + i as u8;
    }
    let mut hashed = Vec::new();
    hashed.extend_from_slice(&fast[..14]);
    hashed.extend_from_slice(&slow[..14]);
    let checksum = crc32fast::hash(&hashed).to_be_bytes();
    fast[14] = checksum[0];
    fast[15] = checksum[1];
    slow[14] = checksum[2];
    slow[15] = checksum[3];
    (fast, slow)
}

#[test]
fn motion_plus_calibration_accepts_valid_blocks() {
    let (fast, slow) = motion_plus_blocks();
    let calibration = MotionPlusCalibration::from_register_blocks(&fast, &slow).unwrap();
    assert_eq!(calibration.fast.yaw_zero_value, 0x1011);
    assert_eq!(calibration.fast.roll_zero_value, 0x1213);
    assert_eq!(calibration.fast.pitch_zero_value, 0x1415);
    assert_eq!(calibration.fast.yaw_scale, 0x1617);
    assert_eq!(calibration.fast.roll_scale, 0x1819);
    assert_eq!(calibration.fast.pitch_scale, 0x1A1B);
    assert_eq!(calibration.fast.degrees_div_6, 0x1C);
    assert_eq!(calibration.slow.yaw_zero_value, 0x4041);
    assert_eq!(calibration.slow.degrees_div_6, 0x4C);
}

#[test]
fn motion_plus_crc_rejects_any_flipped_bit() {
    // Flipping any bit within the hashed ranges changes the CRC32 and
    // fails validation.
    for byte in 0..14 {
        for bit in 0..8 {
            let (mut fast, mut slow) = motion_plus_blocks();
            fast[byte] ^= 1 << bit;
            assert!(matches!(
                MotionPlusCalibration::from_register_blocks(&fast, &slow),
                Err(WiimoteDeviceError::InvalidChecksum)
            ));
            let (fast, mut slow2) = motion_plus_blocks();
            slow2[byte] ^= 1 << bit;
            let _ = &mut slow;
            assert!(matches!(
                MotionPlusCalibration::from_register_blocks(&fast, &slow2),
                Err(WiimoteDeviceError::InvalidChecksum)
            ));
        }
    }
}

fn balance_board_blocks() -> ([u8; 32], [u8; 2]) {
    let mut calibration = [0u8; 32];
    for i in 0..28 {
        calibration[i] = 0x60 + i as u8;
    }
    let temperature = [0x19u8, 0x23u8];
    let mut hashed = Vec::new();
    hashed.extend_from_slice(&calibration[4..28]);
    hashed.extend_from_slice(&calibration[..2]);
    hashed.extend_from_slice(&temperature);
    let checksum = crc32fast::hash(&hashed).to_be_bytes();
    calibration[28..].copy_from_slice(&checksum);
    (calibration, temperature)
}

#[test]
fn balance_board_calibration_accepts_valid_blocks() {
    let (calibration_data, temperature_data) = balance_board_blocks();
    let calibration =
        BalanceBoardCalibration::from_register_data(&calibration_data, &temperature_data).unwrap();
    assert_eq!(calibration.weights_0kg.top_right, 0x6465);
    assert_eq!(calibration.weights_0kg.bottom_right, 0x6667);
    assert_eq!(calibration.weights_0kg.top_left, 0x6869);
    assert_eq!(calibration.weights_0kg.bottom_left, 0x6A6B);
    assert_eq!(calibration.weights_17kg.top_right, 0x6C6D);
    assert_eq!(calibration.weights_34kg.bottom_left, 0x7A7B);
    assert_eq!(calibration.reference_battery, 0x61);
    assert_eq!(calibration.reference_temperature, 0x19);
}

#[test]
fn balance_board_crc_rejects_any_flipped_bit() {
    // The hashed ranges are calibration bytes 4-27, bytes 0-1 and the two
    // temperature bytes.
    for byte in (0..2).chain(4..28) {
        let (mut calibration_data, temperature_data) = balance_board_blocks();
        calibration_data[byte] ^= 0x10;
        assert!(matches!(
            BalanceBoardCalibration::from_register_data(&calibration_data, &temperature_data),
            Err(WiimoteDeviceError::InvalidChecksum)
        ));
    }
    for byte in 0..2 {
        let (calibration_data, mut temperature_data) = balance_board_blocks();
        temperature_data[byte] ^= 0x01;
        assert!(matches!(
            BalanceBoardCalibration::from_register_data(&calibration_data, &temperature_data),
            Err(WiimoteDeviceError::InvalidChecksum)
        ));
    }
}
