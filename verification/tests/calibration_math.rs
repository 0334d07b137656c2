use wiimote_core::calibration::normalize;
use wiimote_core::device::{AccelerometerCalibration, AccelerometerData};
use wiimote_core::extensions::balance_board::get_weight_value;
use wiimote_core::extensions::motion_plus::{
    MotionPlusCalibration, MotionPlusCalibrationData, MotionPlusData,
};

#[test]
fn normalize_full_scale_is_exactly_one() {
    // A sample equal to the gravity reference reads exactly 1 g.
    let (num, den) = normalize(512, 10, 0, 512, 10);
    assert_eq!(num, den);
    assert_eq!(num as f64 / den as f64, 1.0);
}

#[test]
fn normalize_zero_point_is_exactly_zero() {
    let (num, den) = normalize(0, 10, 0, 512, 10);
    assert_eq!(num, 0);
    assert_eq!(num as f64 / den as f64, 0.0);
}

#[test]
fn normalize_pads_the_narrower_side() {
    // A 10-bit sample against 16-bit calibration points: the sample is
    // shifted up by 6 bits before the subtraction.
    let (num, den) = normalize(100, 10, 400, 500, 16);
    assert_eq!(num, (100 << 6) - 400);
    assert_eq!(den, 500 - 400);

    // 16-bit calibration against a 10-bit width pads the calibration.
    let (num, den) = normalize(800, 16, 3, 12, 10);
    assert_eq!(num, 800 - (3 << 6));
    assert_eq!(den, (12 << 6) - (3 << 6));
}

#[test]
fn acceleration_at_gravity_reference() {
    let calibration = AccelerometerCalibration {
        x_zero_offset: 512,
        y_zero_offset: 512,
        z_zero_offset: 512,
        x_gravity: 616,
        y_gravity: 616,
        z_gravity: 616,
    };
    let data = AccelerometerData { x: 616, y: 512, z: 564 };
    let ((xn, xd), (yn, yd), (zn, zd)) = calibration.get_acceleration(&data);
    assert_eq!(xn as f64 / xd as f64, 1.0);
    assert_eq!(yn as f64 / yd as f64, 0.0);
    assert_eq!(zn as f64 / zd as f64, 0.5);
}

#[test]
fn accelerometer_normal_reporting_decode() {
    // Buttons bytes carry the low bits of the axes.
    let data = [0b0110_0000, 0b1110_0000, 0x80, 0x81, 0x82];
    let sample = AccelerometerData::from_normal_reporting(&data);
    assert_eq!(sample.x, (0x80 << 2) | 0b11);
    assert_eq!(sample.y, (0x81 << 2) | 0b10);
    assert_eq!(sample.z, (0x82 << 2) | 0b10);
}

#[test]
fn weight_remap_reference_points() {
    // A raw value at the 0 kg reference weighs 0; at the 17 kg reference
    // exactly 17; at the 34 kg reference exactly 34.
    let (num, den) = get_weight_value(1000, 1000, 2000, 3200);
    assert_eq!(num as f32 / den as f32, 0.0);
    let (num, den) = get_weight_value(2000, 1000, 2000, 3200);
    assert_eq!(num as f32 / den as f32, 17.0);
    let (num, den) = get_weight_value(3200, 1000, 2000, 3200);
    assert_eq!(num as f32 / den as f32, 34.0);
}

#[test]
fn weight_remap_is_linear_between_references() {
    let (num, den) = get_weight_value(1500, 1000, 2000, 3200);
    assert_eq!(num as f32 / den as f32, 8.5);
    let (num, den) = get_weight_value(2600, 1000, 2000, 3200);
    assert_eq!(num as f32 / den as f32, 17.0 + 17.0 * 600.0 / 1200.0);
    // Below the 0 kg reference the weight clamps to zero.
    let (num, den) = get_weight_value(900, 1000, 2000, 3200);
    assert_eq!(num, 0);
    assert_eq!(den, 1);
}

#[test]
fn motion_plus_data_decode() {
    // Axis values are a low byte plus the high 6 bits of a later byte;
    // bit 1 of byte 5 marks the payload as Motion Plus data.
    let sample = MotionPlusData::try_from([0x34, 0x56, 0x78, 0b1010_1110, 0b0101_0001, 0b1001_0110])
        .unwrap();
    assert_eq!(sample.yaw, ((0b1010_1110u16 >> 2) << 8) | 0x34);
    assert_eq!(sample.roll, ((0b0101_0001u16 >> 2) << 8) | 0x56);
    assert_eq!(sample.pitch, ((0b1001_0110u16 >> 2) << 8) | 0x78);
    assert!(sample.yaw_slow);
    assert!(!sample.roll_slow);
    assert!(!sample.pitch_slow);
    assert!(sample.extension_connected);
}

#[test]
fn motion_plus_data_rejects_passthrough_payload() {
    // With bit 1 of byte 5 clear the payload carries pass-through
    // extension data, not Motion Plus data.
    assert!(MotionPlusData::try_from([0, 0, 0, 0, 0, 0b0000_0001]).is_err());
}

#[test]
fn angular_velocity_slow_axis() {
    let block = MotionPlusCalibrationData {
        yaw_zero_value: 0x2000,
        roll_zero_value: 0x2000,
        pitch_zero_value: 0x2000,
        yaw_scale: 0x6000,
        roll_scale: 0x6000,
        pitch_scale: 0x6000,
        degrees_div_6: 100,
    };
    let calibration = MotionPlusCalibration { fast: block, slow: block };
    let data = MotionPlusData {
        yaw: 0x1000,
        roll: 0x0800,
        pitch: 0x0800,
        yaw_slow: true,
        roll_slow: true,
        pitch_slow: false,
        extension_connected: false,
    };
    let ((yn, yd), (rn, rd), (pn, pd)) = calibration.get_angular_velocity(&data);
    // The 14-bit sample is shifted to 16 bits: 0x1000 << 2 == 0x4000 is
    // halfway between zero and scale, so the normalized ratio is 1/2; the
    // range is 600 degrees, divided by the 8192/595 unit.
    let yaw = yn as f64 / yd as f64;
    assert_eq!(yaw, 0.5 * 600.0 * 595.0 / 8192.0);
    // 0x0800 << 2 == 0x2000 equals the zero value: no rotation.
    assert_eq!(rn, 0);
    assert!(rd != 0);
    // The fast block applies the 2000/440 multiplier.
    let pitch = pn as f64 / pd as f64;
    assert_eq!(pitch, 0.0);
    assert!(pd != 0);
}

#[test]
fn accelerometer_interleaved_reporting_decode() {
    // Each of the two interleaved report types carries one full axis byte
    // and a share of the z axis packed into its button bytes.
    let data_3e = [0b0100_0000, 0b0010_0000, 0x55];
    let data_3f = [0b0110_0000, 0b0101_1000, 0x66];
    let sample = AccelerometerData::from_interleaved_reporting(&data_3e, &data_3f);
    assert_eq!(sample.x, 0x55 << 2);
    assert_eq!(sample.y, 0x66 << 2);
    let expected_z = ((0b0010_0000u16 << 1) & 0b1100_0000)
        | ((0b0100_0000u16 >> 1) & 0b0011_0000)
        | ((0b0101_1000u16 >> 3) & 0b0000_1100)
        | ((0b0110_0000u16 >> 5) & 0b0000_0011);
    assert_eq!(sample.z, expected_z);
}
