use wiimote_core::output::{
    Addressing, DataReporingMode, OutputReport, PlayerLedFlags, PLAYER_LED_ID, READ_MEMORY_ID,
    RUMBLE_ID, SPEAKER_DATA_ID, WRITE_MEMORY_ID,
};

#[test]
fn test_rumble_report() {
    let report = OutputReport::Rumble(true);

    let (buffer, size) = report.to_array(false); // value here is overwritten by report

    assert_eq!(size, 2);
    assert_eq!(buffer[0], RUMBLE_ID);
    assert_eq!(buffer[1], 0b0000_0001);
}

#[test]
fn test_rumble_in_player_led_report() {
    let report = OutputReport::PlayerLed(PlayerLedFlags::led_2());

    let (buffer, size) = report.to_array(true);

    assert_eq!(size, 2);
    assert_eq!(buffer[0], PLAYER_LED_ID);
    assert_eq!(buffer[1], 0b0010_0001);
}

#[test]
fn test_player_led_report() {
    let report = OutputReport::PlayerLed(PlayerLedFlags::led_1().union(PlayerLedFlags::led_3()));

    let (buffer, size) = report.to_array(false);

    assert_eq!(size, 2);
    assert_eq!(buffer[0], PLAYER_LED_ID);
    assert_eq!(buffer[1], 0b0101_0000);
}

#[test]
fn test_read_report() {
    let addressing = Addressing::control_registers(0xFF12_3456, 8);
    let report = OutputReport::ReadMemory(addressing);

    let (buffer, size) = report.to_array(true);

    assert_eq!(size, 7);
    assert_eq!(buffer[0], READ_MEMORY_ID);
    assert_eq!(buffer[1], 0x04 | 0b0000_0001); // control register and rumble
    assert_eq!(buffer[2], 0x12);
    assert_eq!(buffer[3], 0x34);
    assert_eq!(buffer[4], 0x56);
    assert_eq!(buffer[5], 0);
    assert_eq!(buffer[6], 8);
}

#[test]
fn test_write_report() {
    let addressing = Addressing::eeprom(0x89AB_CD00, 11);
    let report = OutputReport::WriteMemory(addressing, *b"12345678901\0\0\0\0\0");

    let (buffer, size) = report.to_array(false);

    assert_eq!(size, 22);
    assert_eq!(buffer[0], WRITE_MEMORY_ID);
    assert_eq!(buffer[1], 0); // eeprom and no rumble
    assert_eq!(buffer[2], 0xAB);
    assert_eq!(buffer[3], 0xCD);
    assert_eq!(buffer[4], 0x00);
    assert_eq!(buffer[5], 11);
    assert_eq!(&buffer[6..=21], *b"12345678901\0\0\0\0\0");
}

#[test]
fn test_speaker_data_report() {
    let report = OutputReport::SpeakerData(20, *b"12345678901234567890");

    let (buffer, size) = report.to_array(true);

    assert_eq!(size, 22);
    assert_eq!(buffer[0], SPEAKER_DATA_ID);
    assert_eq!(buffer[1], (20 << 3) | 1); // length and rumble
    assert_eq!(&buffer[2..=21], *b"12345678901234567890");
}

#[test]
fn rumble_bit_in_every_variant() {
    // Bit 0 of byte 1 follows the rumble flag for every report type.
    let reports = [
        OutputReport::PlayerLed(PlayerLedFlags::led_4()),
        OutputReport::DataReportingMode(DataReporingMode { continuous: true, mode: 0x31 }),
        OutputReport::IrCameraEnable(true),
        OutputReport::SpeakerEnable(false),
        OutputReport::StatusRequest,
        OutputReport::WriteMemory(Addressing::eeprom(0x16, 10), [0u8; 16]),
        OutputReport::ReadMemory(Addressing::control_registers(0xA4_00FA, 6)),
        OutputReport::SpeakerData(4, [0u8; 20]),
        OutputReport::SpeakerMute(true),
        OutputReport::IrCameraEnable2(false),
    ];
    for report in &reports {
        let (with_rumble, _) = report.to_array(true);
        let (without_rumble, _) = report.to_array(false);
        assert_eq!(with_rumble[1] & 0x01, 0x01);
        assert_eq!(without_rumble[1] & 0x01, 0x00);
    }
}

#[test]
fn data_reporting_mode_frame() {
    let report = OutputReport::DataReportingMode(DataReporingMode { continuous: false, mode: 0x37 });
    let (buffer, size) = report.to_array(false);
    assert_eq!(size, 3);
    assert_eq!(buffer[0], 0x12);
    assert_eq!(buffer[1], 0x00);
    assert_eq!(buffer[2], 0x37);
}

#[test]
fn write_memory_size_is_capped() {
    // The size byte of a memory write is capped at the 16 bytes one
    // request can carry.
    let report = OutputReport::WriteMemory(Addressing::eeprom(0x00, 300), [0xAAu8; 16]);
    let (buffer, _) = report.to_array(false);
    // 300 truncated to 8 bits is 44, capped to 16.
    assert_eq!(buffer[5], 16);
}
