use wiimote_core::input::{ButtonData, InputReport, StatusFlags};
use wiimote_core::result::{WiimoteDeviceError, WiimoteError};
use wiimote_core::WIIMOTE_DEFAULT_REPORT_BUFFER_SIZE;

#[test]
fn test_status_report() {
    let mut data = [0u8; WIIMOTE_DEFAULT_REPORT_BUFFER_SIZE];
    data[0] = 0x20;
    data[1] = 0b0001_0100; // Plus and D-Pad down
    data[2] = 0b0000_0100; // B
    data[3] = 0b0010_0101; // Status (battery low, speaker, led 2)

    data[6] = 24; // Battery level

    let report = InputReport::try_from(&data).unwrap();

    assert!(matches!(report, InputReport::StatusInformation(_)));
    if let InputReport::StatusInformation(data) = report {
        assert_eq!(
            data.buttons().bits(),
            ButtonData::down()
                .union(ButtonData::plus())
                .union(ButtonData::b())
                .bits()
        );
        assert_eq!(
            data.flags().bits(),
            StatusFlags::battery_low()
                .union(StatusFlags::speaker_enabled())
                .union(StatusFlags::led_2())
                .bits()
        );
        assert_eq!(data.battery_level(), 24);
    }
}

#[test]
fn test_read_memory_report() {
    let mut data = [0u8; WIIMOTE_DEFAULT_REPORT_BUFFER_SIZE];
    data[0] = 0x21;
    data[1] = 0b0000_0000; // no button
    data[2] = 0b1000_0000; // Home
    data[3] = 0xF7; // Size and error flags
    data[4] = 0x12; // Address
    data[5] = 0xAB; // Address
    data[6..22].copy_from_slice(b"1234567890123456"); // Data

    let report = InputReport::try_from(&data).unwrap();

    assert!(matches!(report, InputReport::ReadMemory(_)));
    if let InputReport::ReadMemory(data) = report {
        assert_eq!(data.buttons().bits(), ButtonData::home().bits());
        assert_eq!(data.size(), 16);
        assert_eq!(data.error_flag(), 7);
        assert_eq!(data.address_offset(), 0x12AB);
        assert_eq!(data.data, *b"1234567890123456");
    }
}

#[test]
fn test_acknowledge_report() {
    let data: &[u8] = &[
        0x22,
        0b0000_0000, // no button
        0b0000_0000, // no button
        0x12,        // report number
        0xAB,        // error code
    ];

    let report = InputReport::try_from(data).unwrap();

    assert!(matches!(report, InputReport::Acknowledge(_)));
    if let InputReport::Acknowledge(data) = report {
        assert_eq!(data.buttons().bits(), 0);
        assert_eq!(data.report_number(), 0x12);
        assert_eq!(data.error_code(), 0xAB);
    }
}

#[test]
fn test_buttons_mode_0x30() {
    let data: &[u8] = &[
        0x30,
        0b0000_0001, // D-Pad left
        0b0000_0010, // One
    ];

    let report = InputReport::try_from(data).unwrap();

    assert!(matches!(report, InputReport::DataReport(0x30, _)));
    if let InputReport::DataReport(_, data) = report {
        assert_eq!(
            data.buttons().bits(),
            ButtonData::left().union(ButtonData::one()).bits()
        );
    }
}

#[test]
fn data_report_zero_padding() {
    // A short data report frame is zero-padded to the fixed 21-byte payload.
    let data: &[u8] = &[0x30, 0x01, 0x02];

    let report = InputReport::try_from(data).unwrap();

    assert!(matches!(report, InputReport::DataReport(0x30, _)));
    if let InputReport::DataReport(mode, payload) = report {
        assert_eq!(mode, 0x30);
        assert_eq!(payload.data[0], 0x01);
        assert_eq!(payload.data[1], 0x02);
        for i in 2..21 {
            assert_eq!(payload.data[i], 0);
        }
    }
}

#[test]
fn empty_frame_is_missing_data() {
    let data: &[u8] = &[];
    let result = InputReport::try_from(data);
    assert!(matches!(
        result,
        Err(WiimoteError::WiimoteDeviceError(WiimoteDeviceError::MissingData))
    ));
}

#[test]
fn unknown_tag_is_invalid_data() {
    let data: &[u8] = &[0x05, 0x00, 0x00];
    let result = InputReport::try_from(data);
    assert!(matches!(
        result,
        Err(WiimoteError::WiimoteDeviceError(WiimoteDeviceError::InvalidData))
    ));
}

#[test]
fn truncated_status_frame_is_invalid_data() {
    // A status frame needs at least seven bytes.
    let data: &[u8] = &[0x20, 0x00, 0x00, 0x00];
    let result = InputReport::try_from(data);
    assert!(matches!(
        result,
        Err(WiimoteError::WiimoteDeviceError(WiimoteDeviceError::InvalidData))
    ));
}
