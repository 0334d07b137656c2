use std::cell::RefCell;
use std::collections::VecDeque;
use std::rc::Rc;

use wiimote_core::device::WiimoteDevice;
use wiimote_core::extensions::motion_plus::{
    ack_to_result, mode_control_write, MotionPlusData, MotionPlusMode, MotionPlusType,
};
use wiimote_core::extensions::{ack_reports_no_extension, classify_identity_read};
use wiimote_core::input::InputReport;
use wiimote_core::manager::{ScanEvent, WiimoteManager};
use wiimote_core::native::NativeWiimote;
use wiimote_core::output::{OutputReport, PlayerLedFlags};
use wiimote_core::result::WiimoteDeviceError;

/// A scripted channel: answers each read with the next prepared frame and
/// records every written frame.
struct MockChannel {
    id: String,
    responses: VecDeque<Vec<u8>>,
    written: Rc<RefCell<Vec<Vec<u8>>>>,
}

impl MockChannel {
    fn new(id: &str, responses: Vec<Vec<u8>>) -> Self {
        MockChannel {
            id: id.to_string(),
            responses: responses.into(),
            written: Rc::new(RefCell::new(Vec::new())),
        }
    }
}

impl NativeWiimote for MockChannel {
    fn read(&mut self) -> Option<Vec<u8>> {
        self.read_timeout(0)
    }

    fn read_timeout(&mut self, _timeout_millis: usize) -> Option<Vec<u8>> {
        // An exhausted script behaves like a timeout: an empty frame.
        Some(self.responses.pop_front().unwrap_or_default())
    }

    fn write(&mut self, buffer: &[u8]) -> Option<usize> {
        self.written.borrow_mut().push(buffer.to_vec());
        Some(buffer.len())
    }

    fn identifier(&self) -> String {
        self.id.clone()
    }
}

/// A memory read report frame answering a request at `address` with the
/// given 16 payload bytes.
fn memory_frame(address: u16, payload: [u8; 16]) -> Vec<u8> {
    let mut frame = vec![0u8; 22];
    frame[0] = 0x21;
    frame[3] = 0xF0; // size 16, no error
    frame[4] = (address >> 8) as u8;
    frame[5] = (address & 0xFF) as u8;
    frame[6..22].copy_from_slice(&payload);
    frame
}

/// An acknowledge report frame with the given error code.
fn acknowledge_frame(error_code: u8) -> Vec<u8> {
    vec![0x22, 0, 0, 0x16, error_code]
}

/// The EEPROM block holding a valid accelerometer calibration.
fn accel_calibration_payload() -> [u8; 16] {
    let mut payload = [0u8; 16];
    payload[0] = 0x80;
    payload[1] = 0x81;
    payload[2] = 0x82;
    payload[4] = 0x9A;
    payload[5] = 0x9B;
    payload[6] = 0x9C;
    let mut checksum = 0x55u8;
    for byte in &payload[..9] {
        checksum = checksum.wrapping_add(*byte);
    }
    payload[9] = checksum;
    payload
}

/// The response script a session consumes during initialization: the
/// accelerometer calibration read, the Motion Plus identity read (no
/// Motion Plus), and the extension handshake (error 7: no extension).
fn initialization_responses() -> Vec<Vec<u8>> {
    vec![
        memory_frame(0x0016, accel_calibration_payload()),
        memory_frame(0x00FA, [0u8; 16]),
        acknowledge_frame(7),
    ]
}

#[test]
fn new_device_reads_calibration() {
    let channel = MockChannel::new("AA:BB:CC", initialization_responses());
    let device = WiimoteDevice::new(channel).unwrap();
    assert!(device.is_connected());
    assert_eq!(device.identifier(), "AA:BB:CC");
    let calibration = device.accelerometer_calibration();
    assert_eq!(calibration.x_zero_offset, 0x80 << 2);
    assert_eq!(calibration.x_gravity, 0x9A << 2);
    assert!(device.motion_plus().is_none());
    assert!(device.extension().is_none());
}

#[test]
fn rumble_state_rides_in_every_write() {
    let channel = MockChannel::new("AA:BB:CC", initialization_responses());
    let written = Rc::clone(&channel.written);
    let mut device = WiimoteDevice::new(channel).unwrap();
    let writes_so_far = written.borrow().len();

    device.write(&OutputReport::Rumble(true)).unwrap();
    device.write(&OutputReport::PlayerLed(PlayerLedFlags::led_2())).unwrap();
    device.write(&OutputReport::Rumble(false)).unwrap();
    device.write(&OutputReport::PlayerLed(PlayerLedFlags::led_2())).unwrap();

    let written = written.borrow();
    let frames = &written[writes_so_far..];
    assert_eq!(frames[0], vec![0x10, 0x01]);
    assert_eq!(frames[1], vec![0x11, 0x20 | 0x01]);
    assert_eq!(frames[2], vec![0x10, 0x00]);
    assert_eq!(frames[3], vec![0x11, 0x20]);
}

#[test]
fn manager_reuses_session_on_reconnect() {
    // A unit that is scanned, lost, and scanned again under the same
    // identity keeps its original session and the event says
    // "reconnected", not "new".
    let mut manager: WiimoteManager<MockChannel> = WiimoteManager::new(100);

    let channel = MockChannel::new("AA:BB:CC", initialization_responses());
    let events = manager.scan(vec![("AA:BB:CC".to_string(), channel)]);
    assert_eq!(events, vec![ScanEvent::Connected(0)]);
    assert_eq!(manager.seen_devices().len(), 1);
    assert!(manager.seen_devices()[0].is_connected());

    // The unit is absent from the next scan: its session is marked
    // disconnected but stays known.
    let events = manager.scan(vec![]);
    assert_eq!(events, vec![]);
    assert_eq!(manager.seen_devices().len(), 1);
    assert!(!manager.seen_devices()[0].is_connected());

    // The unit comes back under the same identity.
    let channel = MockChannel::new("AA:BB:CC", initialization_responses());
    let events = manager.scan(vec![("AA:BB:CC".to_string(), channel)]);
    assert_eq!(events, vec![ScanEvent::Reconnected(0)]);
    assert_eq!(manager.seen_devices().len(), 1);
    assert!(manager.seen_devices()[0].is_connected());
    assert_eq!(manager.seen_devices()[0].identifier(), "AA:BB:CC");
}

#[test]
fn manager_takes_no_action_on_connected_known_unit() {
    let mut manager: WiimoteManager<MockChannel> = WiimoteManager::new(100);
    let channel = MockChannel::new("AA:BB:CC", initialization_responses());
    let events = manager.scan(vec![("AA:BB:CC".to_string(), channel)]);
    assert_eq!(events, vec![ScanEvent::Connected(0)]);

    // Seen again while still connected: no event, no new session, and
    // the session stays connected.
    let channel = MockChannel::new("AA:BB:CC", initialization_responses());
    let events = manager.scan(vec![("AA:BB:CC".to_string(), channel)]);
    assert_eq!(events, vec![]);
    assert_eq!(manager.seen_devices().len(), 1);
    assert!(manager.seen_devices()[0].is_connected());
}

#[test]
fn manager_keeps_failed_unit_out() {
    // A unit whose initialization fails (no calibration response) is
    // reported but never published.
    let mut manager: WiimoteManager<MockChannel> = WiimoteManager::new(100);
    let channel = MockChannel::new("AA:BB:CC", Vec::new());
    let events = manager.scan(vec![("AA:BB:CC".to_string(), channel)]);
    assert_eq!(events, vec![ScanEvent::ConnectionFailed]);
    assert_eq!(manager.seen_devices().len(), 0);
}

/// Two CRC-guarded Motion Plus calibration blocks.
fn motion_plus_blocks() -> ([u8; 16], [u8; 16]) {
    let mut fast = [0u8; 16];
    let mut slow = [0u8; 16];
    for i in 0..14 {
        fast[i] = 2 * i as u8;
        slow[i] = 3 * i as u8;
    }
    let mut hashed = Vec::new();
    hashed.extend_from_slice(&fast[..14]);
    hashed.extend_from_slice(&slow[..14]);
    let checksum = crc32fast::hash(&hashed).to_be_bytes();
    fast[14] = checksum[0];
    fast[15] = checksum[1];
    slow[14] = checksum[2];
    slow[15] = checksum[3];
    (fast, slow)
}

/// The external Motion Plus identity block, padded to a payload.
fn motion_plus_identity() -> [u8; 16] {
    let mut identity = [0u8; 16];
    identity[..6].copy_from_slice(&[0x00, 0x00, 0xA6, 0x20, 0x00, 0x05]);
    identity
}

#[test]
fn motion_plus_detect_and_initialize() {
    let (fast, slow) = motion_plus_blocks();
    let responses = vec![
        memory_frame(0x0016, accel_calibration_payload()),
        memory_frame(0x00FA, motion_plus_identity()),
        acknowledge_frame(7), // no other extension
        acknowledge_frame(0), // init write 0x55 to 0xA6_00F0
        memory_frame(0x0020, fast),
        memory_frame(0x0030, slow),
    ];
    let mut device = WiimoteDevice::new(MockChannel::new("DD:EE:FF", responses)).unwrap();

    let motion_plus = device.motion_plus().unwrap();
    assert!(matches!(motion_plus.motion_plus_type(), MotionPlusType::External));
    assert!(!motion_plus.is_initialized());
    assert!(matches!(motion_plus.mode(), MotionPlusMode::Inactive));

    let mut owned = *device.motion_plus().unwrap();
    owned.initialize(&mut device).unwrap();
    assert!(owned.is_initialized());
    let calibration = owned.calibration();
    assert_eq!(calibration.fast.yaw_zero_value, 0x0002);
    assert_eq!(calibration.fast.roll_zero_value, 0x0406);
    assert_eq!(calibration.slow.yaw_zero_value, 0x0003);
}

#[test]
fn motion_plus_corrupt_calibration_is_rejected() {
    let (mut fast, slow) = motion_plus_blocks();
    fast[5] ^= 0x40; // corrupt one hashed byte
    let responses = vec![
        memory_frame(0x0016, accel_calibration_payload()),
        memory_frame(0x00FA, motion_plus_identity()),
        acknowledge_frame(7),
        acknowledge_frame(0),
        memory_frame(0x0020, fast),
        memory_frame(0x0030, slow),
    ];
    let mut device = WiimoteDevice::new(MockChannel::new("DD:EE:FF", responses)).unwrap();
    let mut owned = *device.motion_plus().unwrap();
    assert!(owned.initialize(&mut device).is_err());
    assert!(!owned.is_initialized());
}

#[test]
fn zero_calibration_needs_eight_still_readings() {
    let responses = vec![
        memory_frame(0x0016, accel_calibration_payload()),
        memory_frame(0x00FA, motion_plus_identity()),
        acknowledge_frame(7),
    ];
    let device = WiimoteDevice::new(MockChannel::new("DD:EE:FF", responses)).unwrap();
    let mut motion_plus = *device.motion_plus().unwrap();

    let still = MotionPlusData {
        yaw: 100,
        roll: 200,
        pitch: 300,
        yaw_slow: true,
        roll_slow: true,
        pitch_slow: true,
        extension_connected: false,
    };

    // Too few readings: no calibration.
    assert!(motion_plus.calibrate_zero_values(&vec![still; 7]).is_none());

    // Movement on any axis aborts the calibration.
    let mut moving = still;
    moving.roll_slow = false;
    let mut readings = vec![still; 7];
    readings.push(moving);
    assert!(motion_plus.calibrate_zero_values(&readings).is_none());

    // Eight readings at rest update the slow zero values to the averages,
    // shifted into the 16-bit calibration scale.
    let calibration = motion_plus.calibrate_zero_values(&vec![still; 8]).unwrap();
    assert_eq!(calibration.slow.yaw_zero_value, 100 << 2);
    assert_eq!(calibration.slow.roll_zero_value, 200 << 2);
    assert_eq!(calibration.slow.pitch_zero_value, 300 << 2);
}

#[test]
fn extension_detection_classifies_balance_board() {
    let mut identity = [0u8; 16];
    identity[..6].copy_from_slice(&[0x00, 0x00, 0xA4, 0x20, 0x04, 0x02]);
    let responses = vec![
        memory_frame(0x0016, accel_calibration_payload()),
        memory_frame(0x00FA, [0u8; 16]), // no Motion Plus
        acknowledge_frame(0),            // extension init write 0x55
        acknowledge_frame(0),            // extension init write 0x00
        memory_frame(0x00FA, identity),  // identity read
    ];
    let device = WiimoteDevice::new(MockChannel::new("AA:BB:CC", responses)).unwrap();
    assert!(matches!(
        device.extension(),
        Some(wiimote_core::extensions::WiimoteExtension::BalanceBoard)
    ));
}

#[test]
fn balance_board_calibration_read_via_registers() {
    let mut calibration = [0u8; 32];
    for i in 0..28 {
        calibration[i] = 0x30 + i as u8;
    }
    let temperature = [0x19u8, 0x23u8];
    let mut hashed = Vec::new();
    hashed.extend_from_slice(&calibration[4..28]);
    hashed.extend_from_slice(&calibration[..2]);
    hashed.extend_from_slice(&temperature);
    calibration[28..].copy_from_slice(&crc32fast::hash(&hashed).to_be_bytes());

    let mut first = [0u8; 16];
    first.copy_from_slice(&calibration[..16]);
    let mut second = [0u8; 16];
    second.copy_from_slice(&calibration[16..]);
    let mut temperature_payload = [0u8; 16];
    temperature_payload[..2].copy_from_slice(&temperature);

    let mut responses = initialization_responses();
    responses.push(memory_frame(0x0020, first));
    responses.push(memory_frame(0x0030, second));
    responses.push(memory_frame(0x0060, temperature_payload));
    let mut device = WiimoteDevice::new(MockChannel::new("AA:BB:CC", responses)).unwrap();

    let board = wiimote_core::extensions::balance_board::BalanceBoardCalibration::read(&mut device)
        .unwrap();
    assert_eq!(board.weights_0kg.top_right, 0x3435);
    assert_eq!(board.weights_17kg.top_right, 0x3C3D);
    assert_eq!(board.weights_34kg.bottom_left, 0x4A4B);
    assert_eq!(board.reference_battery, 0x31);
    assert_eq!(board.reference_temperature, 0x19);
}

#[test]
fn change_mode_updates_only_on_success() {
    let mut responses = vec![
        memory_frame(0x0016, accel_calibration_payload()),
        memory_frame(0x00FA, motion_plus_identity()),
        acknowledge_frame(7),
    ];
    responses.push(acknowledge_frame(0)); // mode change accepted
    responses.push(acknowledge_frame(7)); // mode change rejected
    let mut device = WiimoteDevice::new(MockChannel::new("AA:BB:CC", responses)).unwrap();
    let mut motion_plus = *device.motion_plus().unwrap();

    motion_plus.change_mode(&mut device, MotionPlusMode::Active).unwrap();
    assert!(matches!(motion_plus.mode(), MotionPlusMode::Active));

    let result = motion_plus.change_mode(&mut device, MotionPlusMode::NunchuckPassthrough);
    assert!(result.is_err());
    assert!(matches!(motion_plus.mode(), MotionPlusMode::Active));
}

#[test]
fn disconnected_device_fails_fast() {
    let device_responses = initialization_responses();
    let mut device = WiimoteDevice::new(MockChannel::new("AA:BB:CC", device_responses)).unwrap();
    device.disconnected();
    assert!(!device.is_connected());
    let result = device.write(&OutputReport::StatusRequest);
    assert!(matches!(result, Err(wiimote_core::result::WiimoteError::Disconnected)));
    let result = device.read_timeout(10);
    assert!(matches!(result, Err(wiimote_core::result::WiimoteError::Disconnected)));
}

#[test]
fn wiimote_identity_recognition() {
    assert!(wiimote_core::native::is_wiimote(0x057E, 0x0306));
    assert!(wiimote_core::native::is_wiimote(0x057E, 0x0330));
    assert!(!wiimote_core::native::is_wiimote(0x057E, 0x0331));
    assert!(!wiimote_core::native::is_wiimote(0x057F, 0x0306));
    assert!(wiimote_core::native::is_wiimote_device_name("Nintendo RVL-CNT-01"));
    assert!(wiimote_core::native::is_wiimote_device_name("Nintendo RVL-CNT-01-TR"));
    assert!(!wiimote_core::native::is_wiimote_device_name("Nintendo RVL-CNT-02"));
}

#[test]
fn failed_reconnect_keeps_prior_state() {
    // A session that fails to reinitialize on reconnect ends up
    // disconnected but keeps the calibration and extension state of its
    // last successful initialization.
    let mut device = WiimoteDevice::new(MockChannel::new(
        "AA:BB:CC",
        initialization_responses(),
    ))
    .unwrap();
    let calibration_before = *device.accelerometer_calibration();

    // The fresh channel answers nothing, so initialization fails.
    let result = device.reconnect(MockChannel::new("AA:BB:CC", Vec::new()));
    assert!(result.is_err());
    assert!(!device.is_connected());
    assert_eq!(device.identifier(), "AA:BB:CC");
    assert_eq!(*device.accelerometer_calibration(), calibration_before);
    assert!(device.motion_plus().is_none());
    assert!(device.extension().is_none());
}

#[test]
fn identity_read_classification() {
    let decode = |frame: Vec<u8>| match InputReport::try_from(frame.as_slice()).unwrap() {
        InputReport::ReadMemory(m) => m,
        _ => panic!("expected a memory read report"),
    };

    // A well-formed identity reply yields the six identity bytes.
    let mut payload = [0u8; 16];
    payload[..6].copy_from_slice(&[0x00, 0x00, 0xA4, 0x20, 0x04, 0x02]);
    let reply = decode(memory_frame(0x00FA, payload));
    assert_eq!(
        classify_identity_read(&reply),
        Ok(Some([0x00, 0x00, 0xA4, 0x20, 0x04, 0x02]))
    );

    // A mismatched echoed address is invalid data.
    let reply = decode(memory_frame(0x00F0, payload));
    assert_eq!(
        classify_identity_read(&reply),
        Err(WiimoteDeviceError::InvalidData)
    );

    // An undersized reply is invalid data.
    let mut short = memory_frame(0x00FA, payload);
    short[3] = 0x40; // size 5
    let reply = decode(short);
    assert_eq!(
        classify_identity_read(&reply),
        Err(WiimoteDeviceError::InvalidData)
    );

    // Error flag 7 means no extension, not an error.
    let mut write_only = memory_frame(0x00FA, payload);
    write_only[3] = 0xF7; // size 16, error flag 7
    let reply = decode(write_only);
    assert_eq!(classify_identity_read(&reply), Ok(None));
}

#[test]
fn control_write_acknowledge_interpretation() {
    let decode = |frame: Vec<u8>| match InputReport::try_from(frame.as_slice()).unwrap() {
        InputReport::Acknowledge(a) => a,
        _ => panic!("expected an acknowledge report"),
    };

    let ok = decode(acknowledge_frame(0));
    let write_only = decode(acknowledge_frame(7));
    assert!(!ack_reports_no_extension(&ok));
    assert!(ack_reports_no_extension(&write_only));
    assert_eq!(ack_to_result(&ok), Ok(()));
    assert_eq!(
        ack_to_result(&write_only),
        Err(WiimoteDeviceError::InvalidData)
    );

    assert_eq!(mode_control_write(MotionPlusMode::Inactive), (0xA4_00F0, 0x55));
    assert_eq!(mode_control_write(MotionPlusMode::Active), (0xA6_00FE, 0x04));
    assert_eq!(mode_control_write(MotionPlusMode::NunchuckPassthrough), (0xA6_00FE, 0x05));
    assert_eq!(
        mode_control_write(MotionPlusMode::ClassicControllerPassthrough),
        (0xA6_00FE, 0x07)
    );
}
