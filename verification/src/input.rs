//! Input reports: the data sent from the Wii remote to the host.
//!
//! Every inbound frame starts with a tag byte.  Fixed-size reports
//! (status, memory read, acknowledge) require the frame to hold the full
//! fixed layout; data reports (tags 0x30-0x3F) are zero-padded instead.

use vstd::prelude::*;

use crate::result::{WiimoteDeviceError, WiimoteError, WiimoteResult};

verus! {

pub const STATUS_ID: u8 = 0x20;

pub const READ_MEMORY_ID: u8 = 0x21;

pub const ACKNOWLEDGE_ID: u8 = 0x22;

/// The two button bytes of a frame interpreted little-endian.
pub open spec fn spec_le16(lo: u8, hi: u8) -> u16 {
    (lo as u16) | ((hi as u16) << 8)
}

/// The two address bytes of a memory report interpreted big-endian.
pub open spec fn spec_be16(hi: u8, lo: u8) -> u16 {
    ((hi as u16) << 8) | (lo as u16)
}

/// Core button state, one bit per button.
#[derive(Debug, Clone, Copy, PartialEq, Eq, Structural)]
pub struct ButtonData {
    bits: u16,
}

impl View for ButtonData {
    type V = u16;

    closed spec fn view(&self) -> u16 {
        self.bits
    }
}

impl ButtonData {
    /// Wraps raw button bits without masking.
    pub fn from_bits_retain(bits: u16) -> (r: Self)
        ensures
            r@ == bits,
    {
        ButtonData { bits }
    }

    /// Returns the raw button bits.
    pub fn bits(&self) -> (r: u16)
        ensures
            r == self@,
    {
        self.bits
    }

    /// Returns the buttons pressed in either operand.
    pub fn union(self, other: Self) -> (r: Self)
        ensures
            r@ == self@ | other@,
    {
        ButtonData { bits: self.bits | other.bits }
    }

    /// Returns whether every button of `other` is pressed in `self`.
    pub fn contains(self, other: Self) -> (r: bool)
        ensures
            r == (self@ & other@ == other@),
    {
        self.bits & other.bits == other.bits
    }

    pub fn left() -> (r: Self)
        ensures
            r@ == 0x0001u16,
    {
        ButtonData { bits: 0x0001 }
    }

    pub fn right() -> (r: Self)
        ensures
            r@ == 0x0002u16,
    {
        ButtonData { bits: 0x0002 }
    }

    pub fn down() -> (r: Self)
        ensures
            r@ == 0x0004u16,
    {
        ButtonData { bits: 0x0004 }
    }

    pub fn up() -> (r: Self)
        ensures
            r@ == 0x0008u16,
    {
        ButtonData { bits: 0x0008 }
    }

    pub fn plus() -> (r: Self)
        ensures
            r@ == 0x0010u16,
    {
        ButtonData { bits: 0x0010 }
    }

    pub fn two() -> (r: Self)
        ensures
            r@ == 0x0100u16,
    {
        ButtonData { bits: 0x0100 }
    }

    pub fn one() -> (r: Self)
        ensures
            r@ == 0x0200u16,
    {
        ButtonData { bits: 0x0200 }
    }

    pub fn b() -> (r: Self)
        ensures
            r@ == 0x0400u16,
    {
        ButtonData { bits: 0x0400 }
    }

    pub fn a() -> (r: Self)
        ensures
            r@ == 0x0800u16,
    {
        ButtonData { bits: 0x0800 }
    }

    pub fn minus() -> (r: Self)
        ensures
            r@ == 0x1000u16,
    {
        ButtonData { bits: 0x1000 }
    }

    pub fn home() -> (r: Self)
        ensures
            r@ == 0x8000u16,
    {
        ButtonData { bits: 0x8000 }
    }
}

/// Status flags reported in a status information report.
#[derive(Debug, Clone, Copy, PartialEq, Eq, Structural)]
pub struct StatusFlags {
    bits: u8,
}

impl View for StatusFlags {
    type V = u8;

    closed spec fn view(&self) -> u8 {
        self.bits
    }
}

impl StatusFlags {
    /// Wraps raw status bits without masking.
    pub fn from_bits_retain(bits: u8) -> (r: Self)
        ensures
            r@ == bits,
    {
        StatusFlags { bits }
    }

    /// Returns the raw status bits.
    pub fn bits(&self) -> (r: u8)
        ensures
            r == self@,
    {
        self.bits
    }

    /// Returns the flags set in either operand.
    pub fn union(self, other: Self) -> (r: Self)
        ensures
            r@ == self@ | other@,
    {
        StatusFlags { bits: self.bits | other.bits }
    }

    pub fn battery_low() -> (r: Self)
        ensures
            r@ == 0x01u8,
    {
        StatusFlags { bits: 0x01 }
    }

    pub fn extension_controller_connected() -> (r: Self)
        ensures
            r@ == 0x02u8,
    {
        StatusFlags { bits: 0x02 }
    }

    pub fn speaker_enabled() -> (r: Self)
        ensures
            r@ == 0x04u8,
    {
        StatusFlags { bits: 0x04 }
    }

    pub fn ir_camera_enabled() -> (r: Self)
        ensures
            r@ == 0x08u8,
    {
        StatusFlags { bits: 0x08 }
    }

    pub fn led_1() -> (r: Self)
        ensures
            r@ == 0x10u8,
    {
        StatusFlags { bits: 0x10 }
    }

    pub fn led_2() -> (r: Self)
        ensures
            r@ == 0x20u8,
    {
        StatusFlags { bits: 0x20 }
    }

    pub fn led_3() -> (r: Self)
        ensures
            r@ == 0x40u8,
    {
        StatusFlags { bits: 0x40 }
    }

    pub fn led_4() -> (r: Self)
        ensures
            r@ == 0x80u8,
    {
        StatusFlags { bits: 0x80 }
    }
}

/// Payload of a status information report (tag 0x20).
#[derive(Debug, Clone, Copy)]
pub struct StatusData {
    buttons: ButtonData,
    flags: StatusFlags,
    battery_level: u8,
}

impl StatusData {
    pub closed spec fn spec_buttons(&self) -> ButtonData {
        self.buttons
    }

    pub closed spec fn spec_flags(&self) -> StatusFlags {
        self.flags
    }

    pub closed spec fn spec_battery_level(&self) -> u8 {
        self.battery_level
    }

    /// Returns the core button data.
    pub fn buttons(&self) -> (r: ButtonData)
        ensures
            r == self.spec_buttons(),
    {
        self.buttons
    }

    /// Returns the status flags.
    pub fn flags(&self) -> (r: StatusFlags)
        ensures
            r == self.spec_flags(),
    {
        self.flags
    }

    /// Returns the battery level.
    pub fn battery_level(&self) -> (r: u8)
        ensures
            r == self.spec_battery_level(),
    {
        self.battery_level
    }
}

/// Payload of a memory read report (tag 0x21).
#[derive(Debug, Clone, Copy)]
pub struct MemoryData {
    pub buttons: ButtonData,
    pub size_error_flags: u8,
    pub address: [u8; 2],
    pub data: [u8; 16],
}

impl MemoryData {
    pub open spec fn spec_buttons(&self) -> ButtonData {
        self.buttons
    }

    pub open spec fn spec_size_error_flags(&self) -> u8 {
        self.size_error_flags
    }

    pub open spec fn spec_address(&self) -> Seq<u8> {
        self.address@
    }

    pub open spec fn spec_data(&self) -> Seq<u8> {
        self.data@
    }

    /// Returns the core button data.
    pub fn buttons(&self) -> (r: ButtonData)
        ensures
            r == self.spec_buttons(),
    {
        self.buttons
    }

    /// Returns the size of the data in bytes: the high nibble of the
    /// size/error byte plus one.
    pub fn size(&self) -> (r: u8)
        ensures
            r == (self.spec_size_error_flags() >> 4) + 1,
    {
        let sef = self.size_error_flags;
        proof {
            assert(sef >> 4 < 16) by (bit_vector);
        }
        (sef >> 4) + 1
    }

    /// Returns the error flag: the low nibble of the size/error byte.
    ///
    /// Known values:
    /// - 0: no error
    /// - 7: attempted to read from a write-only register or a disconnected extension
    /// - 8: attempted to read from a non-existing address
    pub fn error_flag(&self) -> (r: u8)
        ensures
            r == self.spec_size_error_flags() & 0x0F,
    {
        self.size_error_flags & 0x0F
    }

    /// Returns the 2 least significant bytes of the address of the first byte,
    /// interpreted big-endian.
    pub fn address_offset(&self) -> (r: u16)
        ensures
            r == spec_be16(self.spec_address()[0], self.spec_address()[1]),
    {
        ((self.address[0] as u16) << 8) | (self.address[1] as u16)
    }
}

/// Payload of an acknowledge report (tag 0x22).
#[derive(Debug, Clone, Copy)]
pub struct AcknowledgeData {
    buttons: ButtonData,
    report_number: u8,
    error_code: u8,
}

impl AcknowledgeData {
    pub closed spec fn spec_buttons(&self) -> ButtonData {
        self.buttons
    }

    pub closed spec fn spec_report_number(&self) -> u8 {
        self.report_number
    }

    pub closed spec fn spec_error_code(&self) -> u8 {
        self.error_code
    }

    /// Returns the core button data.
    pub fn buttons(&self) -> (r: ButtonData)
        ensures
            r == self.spec_buttons(),
    {
        self.buttons
    }

    /// Returns the number of the output report being acknowledged.
    pub fn report_number(&self) -> (r: u8)
        ensures
            r == self.spec_report_number(),
    {
        self.report_number
    }

    /// Returns the result of the acknowledged output report; 0 is success.
    pub fn error_code(&self) -> (r: u8)
        ensures
            r == self.spec_error_code(),
    {
        self.error_code
    }
}

/// Payload of a data report (tags 0x30-0x3F): 21 bytes whose meaning
/// depends on the reporting mode negotiated out of band.
#[derive(Debug, Clone, Copy)]
pub struct WiimoteData {
    pub data: [u8; 21],
}

impl WiimoteData {
    /// Returns the core button data.
    ///
    /// This is invalid for report type 0x3D, which only contains extension data.
    pub fn buttons(&self) -> (r: ButtonData)
        ensures
            r@ == spec_le16(self.data@[0], self.data@[1]),
    {
        let bits = (self.data[0] as u16) | ((self.data[1] as u16) << 8);
        ButtonData::from_bits_retain(bits)
    }
}

/// An input report: the decoded form of one inbound frame.
#[derive(Debug)]
pub enum InputReport {
    /// Status information report (tag 0x20); sent on request and whenever
    /// the extension is connected or disconnected.
    StatusInformation(StatusData),
    /// Memory read result (tag 0x21).
    ReadMemory(MemoryData),
    /// Acknowledge of an output report (tag 0x22), carrying its result.
    Acknowledge(AcknowledgeData),
    /// Data report (tags 0x30-0x3F); the tag selects the layout of the
    /// 21-byte payload.
    DataReport(u8, WiimoteData),
}

/// What decoding a status information frame must yield.
pub open spec fn parsed_status(frame: Seq<u8>, d: StatusData) -> bool {
    &&& d.spec_buttons()@ == spec_le16(frame[1], frame[2])
    &&& d.spec_flags()@ == frame[3]
    &&& d.spec_battery_level() == frame[6]
}

/// What decoding a memory read frame must yield.
pub open spec fn parsed_memory(frame: Seq<u8>, d: MemoryData) -> bool {
    &&& d.spec_buttons()@ == spec_le16(frame[1], frame[2])
    &&& d.spec_size_error_flags() == frame[3]
    &&& d.spec_address() == seq![frame[4], frame[5]]
    &&& d.spec_data() == frame.subrange(6, 22)
}

/// What decoding an acknowledge frame must yield.
pub open spec fn parsed_acknowledge(frame: Seq<u8>, d: AcknowledgeData) -> bool {
    &&& d.spec_buttons()@ == spec_le16(frame[1], frame[2])
    &&& d.spec_report_number() == frame[3]
    &&& d.spec_error_code() == frame[4]
}

/// What decoding a data report frame must yield: the payload is the frame
/// after the tag, zero-padded to 21 bytes.
pub open spec fn parsed_data_report(frame: Seq<u8>, d: WiimoteData) -> bool {
    forall|i: int|
        0 <= i < 21 ==> d.data@[i] == (if i + 1 < frame.len() {
            frame[i + 1]
        } else {
            0u8
        })
}

impl InputReport {
    /// Decodes a status information frame (tag 0x20).
    pub fn from_status_information(value: &[u8]) -> (r: WiimoteResult<Self>)
        ensures
            value@.len() < 7 ==> r == Err::<Self, WiimoteError>(
                WiimoteError::WiimoteDeviceError(WiimoteDeviceError::InvalidData),
            ),
            value@.len() >= 7 ==> (r matches Ok(InputReport::StatusInformation(d))
                && parsed_status(value@, d)),
    {
        if value.len() < 7 {
            return Err(WiimoteError::WiimoteDeviceError(WiimoteDeviceError::InvalidData));
        }
        let buttons = ButtonData::from_bits_retain(
            (value[1] as u16) | ((value[2] as u16) << 8),
        );
        let data = StatusData {
            buttons,
            flags: StatusFlags::from_bits_retain(value[3]),
            battery_level: value[6],
        };
        Ok(InputReport::StatusInformation(data))
    }

    /// Decodes a memory read frame (tag 0x21).
    pub fn from_read_memory_data(value: &[u8]) -> (r: WiimoteResult<Self>)
        ensures
            value@.len() < 22 ==> r == Err::<Self, WiimoteError>(
                WiimoteError::WiimoteDeviceError(WiimoteDeviceError::InvalidData),
            ),
            value@.len() >= 22 ==> (r matches Ok(InputReport::ReadMemory(d)) && parsed_memory(
                value@,
                d,
            )),
    {
        if value.len() < 22 {
            return Err(WiimoteError::WiimoteDeviceError(WiimoteDeviceError::InvalidData));
        }
        let buttons = ButtonData::from_bits_retain(
            (value[1] as u16) | ((value[2] as u16) << 8),
        );
        let mut data = [0u8; 16];
        let mut i: usize = 0;
        while i < 16
            invariant
                i <= 16,
                value@.len() >= 22,
                forall|j: int| 0 <= j < i ==> data@[j] == value@[6 + j],
            decreases 16 - i,
        {
            data[i] = value[6 + i];
            i = i + 1;
        }
        let memory_data = MemoryData {
            buttons,
            size_error_flags: value[3],
            address: [value[4], value[5]],
            data,
        };
        proof {
            assert(memory_data.data@ =~= value@.subrange(6, 22));
            assert(memory_data.spec_address() =~= seq![value@[4], value@[5]]);
        }
        Ok(InputReport::ReadMemory(memory_data))
    }

    /// Decodes an acknowledge frame (tag 0x22).
    pub fn from_acknowledge(value: &[u8]) -> (r: WiimoteResult<Self>)
        ensures
            value@.len() < 5 ==> r == Err::<Self, WiimoteError>(
                WiimoteError::WiimoteDeviceError(WiimoteDeviceError::InvalidData),
            ),
            value@.len() >= 5 ==> (r matches Ok(InputReport::Acknowledge(d))
                && parsed_acknowledge(value@, d)),
    {
        if value.len() < 5 {
            return Err(WiimoteError::WiimoteDeviceError(WiimoteDeviceError::InvalidData));
        }
        let buttons = ButtonData::from_bits_retain(
            (value[1] as u16) | ((value[2] as u16) << 8),
        );
        let data = AcknowledgeData { buttons, report_number: value[3], error_code: value[4] };
        Ok(InputReport::Acknowledge(data))
    }

    /// Decodes a data report frame (tags 0x30-0x3F).  Never fails: a short
    /// frame is zero-padded to the fixed 21-byte payload.
    pub fn from_data_report(value: &[u8]) -> (r: Self)
        requires
            value@.len() >= 1,
        ensures
            r matches InputReport::DataReport(mode, d) && mode == value@[0]
                && parsed_data_report(value@, d),
    {
        let mut data = [0u8; 21];
        let mut i: usize = 0;
        while i < 21
            invariant
                i <= 21,
                value@.len() >= 1,
                forall|j: int| i <= j < 21 ==> data@[j] == 0u8,
                forall|j: int|
                    0 <= j < i ==> data@[j] == (if j + 1 < value@.len() {
                        value@[j + 1]
                    } else {
                        0u8
                    }),
            decreases 21 - i,
        {
            if i + 1 < value.len() {
                data[i] = value[i + 1];
            }
            i = i + 1;
        }
        InputReport::DataReport(value[0], WiimoteData { data })
    }

    /// Decodes one inbound frame by its tag byte.
    ///
    /// An empty frame is missing data; a frame shorter than its tag's fixed
    /// layout, or with an unknown tag, is invalid data.
    pub fn try_from(value: &[u8]) -> (r: WiimoteResult<Self>)
        ensures
            value@.len() == 0 ==> r == Err::<Self, WiimoteError>(
                WiimoteError::WiimoteDeviceError(WiimoteDeviceError::MissingData),
            ),
            value@.len() > 0 ==> {
                let tag = value@[0];
                &&& tag == STATUS_ID ==> {
                    &&& value@.len() < 7 ==> r == Err::<Self, WiimoteError>(
                        WiimoteError::WiimoteDeviceError(WiimoteDeviceError::InvalidData),
                    )
                    &&& value@.len() >= 7 ==> (r matches Ok(InputReport::StatusInformation(d))
                        && parsed_status(value@, d))
                }
                &&& tag == READ_MEMORY_ID ==> {
                    &&& value@.len() < 22 ==> r == Err::<Self, WiimoteError>(
                        WiimoteError::WiimoteDeviceError(WiimoteDeviceError::InvalidData),
                    )
                    &&& value@.len() >= 22 ==> (r matches Ok(InputReport::ReadMemory(d))
                        && parsed_memory(value@, d))
                }
                &&& tag == ACKNOWLEDGE_ID ==> {
                    &&& value@.len() < 5 ==> r == Err::<Self, WiimoteError>(
                        WiimoteError::WiimoteDeviceError(WiimoteDeviceError::InvalidData),
                    )
                    &&& value@.len() >= 5 ==> (r matches Ok(InputReport::Acknowledge(d))
                        && parsed_acknowledge(value@, d))
                }
                &&& (0x30 <= tag <= 0x3F) ==> (r matches Ok(InputReport::DataReport(mode, d))
                    && mode == tag && parsed_data_report(value@, d))
                &&& !(tag == STATUS_ID || tag == READ_MEMORY_ID || tag == ACKNOWLEDGE_ID || (0x30
                    <= tag <= 0x3F)) ==> r == Err::<Self, WiimoteError>(
                    WiimoteError::WiimoteDeviceError(WiimoteDeviceError::InvalidData),
                )
            },
    {
        if value.len() == 0 {
            return Err(WiimoteError::WiimoteDeviceError(WiimoteDeviceError::MissingData));
        }
        let tag = value[0];
        if tag == STATUS_ID {
            Self::from_status_information(value)
        } else if tag == READ_MEMORY_ID {
            Self::from_read_memory_data(value)
        } else if tag == ACKNOWLEDGE_ID {
            Self::from_acknowledge(value)
        } else if 0x30 <= tag && tag <= 0x3F {
            Ok(Self::from_data_report(value))
        } else {
            Err(WiimoteError::WiimoteDeviceError(WiimoteDeviceError::InvalidData))
        }
    }
}

/// Decoding a valid status information frame recovers exactly the frame's
/// packed fields: the button bits of bytes 1-2 (little-endian), the
/// status flags of byte 3 and the battery level of byte 6.
pub proof fn lemma_status_round_trip(frame: Seq<u8>, d: StatusData)
    requires
        frame.len() >= 7,
        parsed_status(frame, d),
    ensures
        d.spec_buttons()@ == spec_le16(frame[1], frame[2]),
        d.spec_flags()@ == frame[3],
        d.spec_battery_level() == frame[6],
{
}

/// The derived fields of a decoded memory read report come straight from
/// the frame: the size is the high nibble of byte 3 plus one, and the
/// address offset is the big-endian reading of bytes 4-5.
pub proof fn lemma_memory_report_fields(frame: Seq<u8>, d: MemoryData)
    requires
        frame.len() >= 22,
        parsed_memory(frame, d),
    ensures
        (d.spec_size_error_flags() >> 4) + 1 == (frame[3] >> 4) + 1,
        spec_be16(d.spec_address()[0], d.spec_address()[1]) == spec_be16(frame[4], frame[5]),
{
}

} // verus!
