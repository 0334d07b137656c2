//! Output reports: the data sent from the host to the Wii remote.
//!
//! Every encoded frame carries the rumble state in bit 0 of byte 1,
//! whatever the report type: rumble is process-wide per device and is
//! re-applied on every write.

use vstd::prelude::*;

verus! {

pub const RUMBLE_ID: u8 = 0x10;

pub const PLAYER_LED_ID: u8 = 0x11;

pub const DATA_REPORTING_MODE_ID: u8 = 0x12;

pub const IR_CAMERA_ENABLE_ID: u8 = 0x13;

pub const SPEAKER_ENABLE_ID: u8 = 0x14;

pub const STATUS_REQUEST_ID: u8 = 0x15;

pub const WRITE_MEMORY_ID: u8 = 0x16;

pub const READ_MEMORY_ID: u8 = 0x17;

pub const SPEAKER_DATA_ID: u8 = 0x18;

pub const SPEAKER_MUTE_ID: u8 = 0x19;

pub const IR_CAMERA_ENABLE_2_ID: u8 = 0x1A;

/// Player LED selection, one bit per LED.
#[derive(Debug, Clone, Copy, PartialEq, Eq, Structural)]
pub struct PlayerLedFlags {
    bits: u8,
}

impl View for PlayerLedFlags {
    type V = u8;

    closed spec fn view(&self) -> u8 {
        self.bits
    }
}

impl PlayerLedFlags {
    /// Wraps raw LED bits without masking.
    pub fn from_bits_retain(bits: u8) -> (r: Self)
        ensures
            r@ == bits,
    {
        PlayerLedFlags { bits }
    }

    /// Returns the raw LED bits.
    pub fn bits(&self) -> (r: u8)
        ensures
            r == self@,
    {
        self.bits
    }

    /// Returns the LEDs lit in either operand.
    pub fn union(self, other: Self) -> (r: Self)
        ensures
            r@ == self@ | other@,
    {
        PlayerLedFlags { bits: self.bits | other.bits }
    }

    pub fn led_1() -> (r: Self)
        ensures
            r@ == 0x10u8,
    {
        PlayerLedFlags { bits: 0x10 }
    }

    pub fn led_2() -> (r: Self)
        ensures
            r@ == 0x20u8,
    {
        PlayerLedFlags { bits: 0x20 }
    }

    pub fn led_3() -> (r: Self)
        ensures
            r@ == 0x40u8,
    {
        PlayerLedFlags { bits: 0x40 }
    }

    pub fn led_4() -> (r: Self)
        ensures
            r@ == 0x80u8,
    {
        PlayerLedFlags { bits: 0x80 }
    }
}

/// Selection of the data reporting mode for the input reports.
#[derive(Debug, Clone, Copy)]
pub struct DataReporingMode {
    pub continuous: bool,
    pub mode: u8,
}

/// A memory request target: EEPROM or control-register address space,
/// a 3-byte big-endian address and a transfer size.
#[derive(Debug, Clone, Copy)]
pub struct Addressing {
    /// If true, read from control registers, otherwise from EEPROM.
    control_registers: bool,
    pub(crate) address: u32,
    pub(crate) size: u16,
}

impl Addressing {
    pub closed spec fn spec_control_registers(&self) -> bool {
        self.control_registers
    }

    pub closed spec fn spec_address(&self) -> u32 {
        self.address
    }

    pub closed spec fn spec_size(&self) -> u16 {
        self.size
    }

    /// Addresses the control-register space.
    pub fn control_registers(address: u32, size: u16) -> (r: Self)
        ensures
            r.spec_control_registers(),
            r.spec_address() == address,
            r.spec_size() == size,
    {
        Addressing { control_registers: true, address, size }
    }

    /// Addresses the EEPROM space.
    pub fn eeprom(address: u32, size: u16) -> (r: Self)
        ensures
            !r.spec_control_registers(),
            r.spec_address() == address,
            r.spec_size() == size,
    {
        Addressing { control_registers: false, address, size }
    }

    /// The low 16 bits of the address, as echoed back in memory read
    /// reports.
    pub fn address_low16(&self) -> (r: u16)
        ensures
            r == self.spec_address() as u16,
    {
        #[verifier::truncate] (self.address as u16)
    }

    /// The requested transfer size.
    pub fn size(&self) -> (r: u16)
        ensures
            r == self.spec_size(),
    {
        self.size
    }
}

/// An output report: one outbound command frame before encoding.
#[derive(Debug, Clone, Copy)]
pub enum OutputReport {
    /// Turn rumble on or off without any other changes.
    Rumble(bool),
    /// Set the player LED lights.
    PlayerLed(PlayerLedFlags),
    /// Set the data reporting mode of the input reports.
    DataReportingMode(DataReporingMode),
    /// Enable or disable the IR camera (first step of the enable sequence).
    IrCameraEnable(bool),
    /// Enable or disable the built-in speaker.
    SpeakerEnable(bool),
    /// Request a status input report.
    StatusRequest,
    /// Write up to 16 bytes to the remote's memory or registers.
    WriteMemory(Addressing, [u8; 16]),
    /// Read memory; the result arrives as memory read input reports in
    /// chunks of 16 bytes.
    ReadMemory(Addressing),
    /// Send data to the built-in speaker: a length and up to 20 bytes.
    SpeakerData(u8, [u8; 20]),
    /// Mute or unmute the built-in speaker.
    SpeakerMute(bool),
    /// Second step of the IR camera enable sequence.
    IrCameraEnable2(bool),
}

/// The rumble flag as the low bit of byte 1.
pub open spec fn spec_rumble_bit(rumble: bool) -> u8 {
    if rumble {
        1u8
    } else {
        0u8
    }
}

/// 0x04 when the condition holds, as in the flag bytes of the protocol.
pub open spec fn spec_flag_04(b: bool) -> u8 {
    if b {
        0x04u8
    } else {
        0x00u8
    }
}

/// The rumble state an encoded report leaves the device in: the `Rumble`
/// variant overrides the ambient flag, every other report re-applies it.
pub open spec fn spec_effective_rumble(report: OutputReport, rumble: bool) -> bool {
    match report {
        OutputReport::Rumble(enabled) => enabled,
        _ => rumble,
    }
}

/// Length in bytes of the encoded frame of a report.
pub open spec fn spec_frame_len(report: OutputReport) -> int {
    match report {
        OutputReport::Rumble(_) => 2,
        OutputReport::PlayerLed(_) => 2,
        OutputReport::DataReportingMode(_) => 3,
        OutputReport::IrCameraEnable(_) => 2,
        OutputReport::SpeakerEnable(_) => 2,
        OutputReport::StatusRequest => 2,
        OutputReport::WriteMemory(_, _) => 22,
        OutputReport::ReadMemory(_) => 7,
        OutputReport::SpeakerData(_, _) => 22,
        OutputReport::SpeakerMute(_) => 2,
        OutputReport::IrCameraEnable2(_) => 2,
    }
}

/// The exact bytes of the encoded frame of a report under an ambient
/// rumble flag.  The 3-byte big-endian address of a memory request goes to
/// bytes 2-4; byte 1 holds the control-register discriminator (0x04) and
/// the rumble bit.
pub open spec fn spec_frame(report: OutputReport, rumble: bool) -> Seq<u8> {
    let bit = spec_rumble_bit(spec_effective_rumble(report, rumble));
    match report {
        OutputReport::Rumble(_) => seq![RUMBLE_ID, bit],
        OutputReport::PlayerLed(flags) => seq![PLAYER_LED_ID, flags@ | bit],
        OutputReport::DataReportingMode(mode) => seq![
            DATA_REPORTING_MODE_ID,
            spec_flag_04(mode.continuous) | bit,
            mode.mode,
        ],
        OutputReport::IrCameraEnable(enable) => seq![
            IR_CAMERA_ENABLE_ID,
            spec_flag_04(enable) | bit,
        ],
        OutputReport::SpeakerEnable(enable) => seq![
            SPEAKER_ENABLE_ID,
            spec_flag_04(enable) | bit,
        ],
        OutputReport::StatusRequest => seq![STATUS_REQUEST_ID, bit],
        OutputReport::WriteMemory(addressing, data) => seq![
            WRITE_MEMORY_ID,
            spec_flag_04(addressing.spec_control_registers()) | bit,
            ((addressing.spec_address() >> 16) & 0xFF) as u8,
            ((addressing.spec_address() >> 8) & 0xFF) as u8,
            (addressing.spec_address() & 0xFF) as u8,
            spec_capped_size(addressing.spec_size()),
        ] + data@,
        OutputReport::ReadMemory(addressing) => seq![
            READ_MEMORY_ID,
            spec_flag_04(addressing.spec_control_registers()) | bit,
            ((addressing.spec_address() >> 16) & 0xFF) as u8,
            ((addressing.spec_address() >> 8) & 0xFF) as u8,
            (addressing.spec_address() & 0xFF) as u8,
            (addressing.spec_size() >> 8) as u8,
            (addressing.spec_size() & 0xFF) as u8,
        ],
        OutputReport::SpeakerData(length, data) => seq![SPEAKER_DATA_ID, (length << 3) | bit]
            + data@,
        OutputReport::SpeakerMute(mute) => seq![SPEAKER_MUTE_ID, spec_flag_04(mute) | bit],
        OutputReport::IrCameraEnable2(enable) => seq![
            IR_CAMERA_ENABLE_2_ID,
            spec_flag_04(enable) | bit,
        ],
    }
}

/// The size byte of a memory write: the size truncated to 8 bits, capped
/// at the 16 bytes one request can carry.
pub open spec fn spec_capped_size(size: u16) -> u8 {
    if (size & 0xFF) < 16 {
        (size & 0xFF) as u8
    } else {
        16u8
    }
}

impl OutputReport {
    /// Encodes the report into a fresh report-sized buffer.
    ///
    /// Returns the buffer and the actual length of the frame within it.
    pub fn to_array(&self, rumble: bool) -> (r: ([u8; 32], usize))
        ensures
            r.1 == spec_frame_len(*self),
            r.0@.subrange(0, r.1 as int) == spec_frame(*self, rumble),
            forall|i: int| spec_frame_len(*self) <= i < 32 ==> r.0@[i] == 0u8,
    {
        let mut buffer: Vec<u8> = vec![0u8; 32];
        let length = self.fill_buffer(rumble, &mut buffer);
        let mut array = [0u8; 32];
        let mut i: usize = 0;
        while i < 32
            invariant
                i <= 32,
                buffer@.len() == 32,
                forall|j: int| 0 <= j < i ==> array@[j] == buffer@[j],
            decreases 32 - i,
        {
            array[i] = buffer[i];
            i = i + 1;
        }
        proof {
            assert(array@.subrange(0, spec_frame_len(*self)) =~= buffer@.subrange(
                0,
                spec_frame_len(*self),
            ));
        }
        (array, length)
    }

    /// Encodes the report into the start of `buffer`, leaving the bytes
    /// past the frame untouched.
    ///
    /// Returns the actual length of the frame.
    pub fn fill_buffer(&self, rumble: bool, buffer: &mut Vec<u8>) -> (length: usize)
        requires
            old(buffer)@.len() >= spec_frame_len(*self),
        ensures
            final(buffer)@.len() == old(buffer)@.len(),
            length == spec_frame_len(*self),
            final(buffer)@.subrange(0, length as int) == spec_frame(*self, rumble),
            forall|i: int|
                spec_frame_len(*self) <= i < old(buffer)@.len() ==> final(buffer)@[i] == old(
                    buffer,
                )@[i],
    {
        let ghost original = buffer@;
        let ghost target = spec_frame(*self, rumble);
        // The rumble motor is driven through every output report: bit 0 of
        // byte 1 activates it, whatever the report type.
        let bit: u8 = if rumble {
            0x01
        } else {
            0x00
        };
        let length: usize = match self {
            OutputReport::Rumble(rumble_enabled) => {
                buffer[0] = RUMBLE_ID;
                buffer[1] = if *rumble_enabled {
                    0x01
                } else {
                    0x00
                };
                proof {
                    assert(buffer@.subrange(0, 2) =~= target);
                }
                2
            },
            OutputReport::PlayerLed(flags) => {
                buffer[0] = PLAYER_LED_ID;
                buffer[1] = flags.bits() | bit;
                proof {
                    assert(buffer@.subrange(0, 2) =~= target);
                }
                2
            },
            OutputReport::DataReportingMode(mode) => {
                buffer[0] = DATA_REPORTING_MODE_ID;
                buffer[1] = (if mode.continuous {
                    0x04u8
                } else {
                    0x00u8
                }) | bit;
                buffer[2] = mode.mode;
                proof {
                    assert(buffer@.subrange(0, 3) =~= target);
                }
                3
            },
            OutputReport::IrCameraEnable(enable) => {
                buffer[0] = IR_CAMERA_ENABLE_ID;
                buffer[1] = (if *enable {
                    0x04u8
                } else {
                    0x00u8
                }) | bit;
                proof {
                    assert(buffer@.subrange(0, 2) =~= target);
                }
                2
            },
            OutputReport::SpeakerEnable(enable) => {
                buffer[0] = SPEAKER_ENABLE_ID;
                buffer[1] = (if *enable {
                    0x04u8
                } else {
                    0x00u8
                }) | bit;
                proof {
                    assert(buffer@.subrange(0, 2) =~= target);
                }
                2
            },
            OutputReport::StatusRequest => {
                buffer[0] = STATUS_REQUEST_ID;
                buffer[1] = bit;
                proof {
                    assert(buffer@.subrange(0, 2) =~= target);
                }
                2
            },
            OutputReport::WriteMemory(addressing, data) => {
                buffer[0] = WRITE_MEMORY_ID;
                buffer[1] = (if addressing.control_registers {
                    0x04u8
                } else {
                    0x00u8
                }) | bit;
                proof {
                    let a = addressing.address;
                    assert(((a >> 16) & 0xFF) < 256 && ((a >> 8) & 0xFF) < 256 && (a & 0xFF)
                        < 256) by (bit_vector);
                    let s = addressing.size;
                    assert(s & 0xFF < 256) by (bit_vector);
                }
                buffer[2] = ((addressing.address >> 16) & 0xFF) as u8;
                buffer[3] = ((addressing.address >> 8) & 0xFF) as u8;
                buffer[4] = (addressing.address & 0xFF) as u8;
                let truncated = (addressing.size & 0xFF) as u8;
                buffer[5] = if truncated < 16 {
                    truncated
                } else {
                    16
                };
                proof {
                    assert(forall|j: int| 0 <= j < 6 ==> buffer@[j] == target[j]);
                }
                let mut i: usize = 0;
                while i < 16
                    invariant
                        i <= 16,
                        buffer@.len() == original.len(),
                        original.len() >= 22,
                        target == spec_frame(*self, rumble),
                        target.len() == 22,
                        target =~= target.subrange(0, 6) + data@,
                        forall|j: int| 0 <= j < 6 + i ==> buffer@[j] == target[j],
                        forall|j: int| 22 <= j < original.len() ==> buffer@[j] == original[j],
                    decreases 16 - i,
                {
                    proof {
                        assert(target[6 + i] == data@[i as int]);
                    }
                    buffer[6 + i] = data[i];
                    i = i + 1;
                }
                proof {
                    assert(buffer@.subrange(0, 22) =~= target);
                }
                22
            },
            OutputReport::ReadMemory(addressing) => {
                buffer[0] = READ_MEMORY_ID;
                buffer[1] = (if addressing.control_registers {
                    0x04u8
                } else {
                    0x00u8
                }) | bit;
                proof {
                    let a = addressing.address;
                    let s = addressing.size;
                    assert(((a >> 16) & 0xFF) < 256 && ((a >> 8) & 0xFF) < 256 && (a & 0xFF)
                        < 256) by (bit_vector);
                    assert((s >> 8) < 256 && (s & 0xFF) < 256) by (bit_vector);
                }
                buffer[2] = ((addressing.address >> 16) & 0xFF) as u8;
                buffer[3] = ((addressing.address >> 8) & 0xFF) as u8;
                buffer[4] = (addressing.address & 0xFF) as u8;
                buffer[5] = (addressing.size >> 8) as u8;
                buffer[6] = (addressing.size & 0xFF) as u8;
                proof {
                    assert(buffer@.subrange(0, 7) =~= target);
                }
                7
            },
            OutputReport::SpeakerData(length, data) => {
                buffer[0] = SPEAKER_DATA_ID;
                buffer[1] = (*length << 3) | bit;
                proof {
                    assert(forall|j: int| 0 <= j < 2 ==> buffer@[j] == target[j]);
                }
                let mut i: usize = 0;
                while i < 20
                    invariant
                        i <= 20,
                        buffer@.len() == original.len(),
                        original.len() >= 22,
                        target == spec_frame(*self, rumble),
                        target.len() == 22,
                        target =~= target.subrange(0, 2) + data@,
                        forall|j: int| 0 <= j < 2 + i ==> buffer@[j] == target[j],
                        forall|j: int| 22 <= j < original.len() ==> buffer@[j] == original[j],
                    decreases 20 - i,
                {
                    proof {
                        assert(target[2 + i] == data@[i as int]);
                    }
                    buffer[2 + i] = data[i];
                    i = i + 1;
                }
                proof {
                    assert(buffer@.subrange(0, 22) =~= target);
                }
                22
            },
            OutputReport::SpeakerMute(mute) => {
                buffer[0] = SPEAKER_MUTE_ID;
                buffer[1] = (if *mute {
                    0x04u8
                } else {
                    0x00u8
                }) | bit;
                proof {
                    assert(buffer@.subrange(0, 2) =~= target);
                }
                2
            },
            OutputReport::IrCameraEnable2(enable) => {
                buffer[0] = IR_CAMERA_ENABLE_2_ID;
                buffer[1] = (if *enable {
                    0x04u8
                } else {
                    0x00u8
                }) | bit;
                proof {
                    assert(buffer@.subrange(0, 2) =~= target);
                }
                2
            },
        };
        proof {
            assert(buffer@.subrange(0, length as int) =~= target);
        }
        length
    }
}

/// Every encoded frame carries the rumble state in bit 0 of byte 1,
/// whatever the report type: with the effective rumble flag set the bit
/// is set, and with it clear the bit is clear.  The one exception is a
/// player LED selection that itself carries the low bit, which the
/// protocol's LED masks never do.
pub proof fn lemma_rumble_bit(report: OutputReport, rumble: bool)
    requires
        report matches OutputReport::PlayerLed(flags) ==> flags@ & 0x01 == 0x00,
    ensures
        spec_effective_rumble(report, rumble) ==> spec_frame(report, rumble)[1] & 0x01 == 0x01,
        !spec_effective_rumble(report, rumble) ==> spec_frame(report, rumble)[1] & 0x01 == 0x00,
{
    assert(forall|x: u8| #[trigger] ((x | 1) & 1) == 1) by (bit_vector);
    assert(forall|x: u8| #[trigger] ((x | 0) & 1) == (x & 1)) by (bit_vector);
    assert(forall|l: u8| #[trigger] ((l << 3) & 1) == 0) by (bit_vector);
    assert((0u8 & 1) == 0 && (1u8 & 1) == 1 && (0x04u8 & 1) == 0) by (bit_vector);
}

} // verus!

