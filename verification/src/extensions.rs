//! Extension controllers plugged into the remote's expansion port.
//!
//! An extension is identified by a 6-byte identity block read from the
//! control registers after an initialization write sequence.

use vstd::prelude::*;

use crate::device::WiimoteDevice;
use crate::input::{spec_be16, AcknowledgeData, MemoryData};
use crate::native::NativeWiimote;
use crate::output::Addressing;
use crate::result::{WiimoteDeviceError, WiimoteError, WiimoteResult};
use crate::simple_io;

pub mod balance_board;
pub mod motion_plus;

verus! {

/// An extension controller detected on the expansion port.
#[derive(Debug, Clone, Copy)]
pub enum WiimoteExtension {
    Nunchuck,
    ClassicController,
    ClassicControllerPro,
    BalanceBoard,
    /// An identity block that matches no known extension.
    Unknown([u8; 6]),
}

/// The identity block of a Nunchuck: `[_, _, 0xA4, 0x20, 0x00, 0x00]`.
pub open spec fn spec_is_nunchuck_id(id: Seq<u8>) -> bool {
    id[2] == 0xA4 && id[3] == 0x20 && id[4] == 0x00 && id[5] == 0x00
}

/// The identity block of a Classic Controller Pro:
/// `[0x01, 0x00, 0xA4, 0x20, 0x01, 0x01]`.
pub open spec fn spec_is_classic_pro_id(id: Seq<u8>) -> bool {
    id[0] == 0x01 && id[1] == 0x00 && id[2] == 0xA4 && id[3] == 0x20 && id[4] == 0x01 && id[5]
        == 0x01
}

/// The identity block of a Classic Controller: `[_, _, 0xA4, 0x20, 0x01, 0x01]`.
pub open spec fn spec_is_classic_id(id: Seq<u8>) -> bool {
    id[2] == 0xA4 && id[3] == 0x20 && id[4] == 0x01 && id[5] == 0x01
}

/// The identity block of a Balance Board: `[_, _, 0xA4, 0x20, 0x04, 0x02]`.
pub open spec fn spec_is_balance_board_id(id: Seq<u8>) -> bool {
    id[2] == 0xA4 && id[3] == 0x20 && id[4] == 0x04 && id[5] == 0x02
}

/// Whether an acknowledge reports a write-only or disconnected expansion
/// port (error code 7).  During identification this means no extension is
/// plugged in, which is not an error.
pub fn ack_reports_no_extension(ack: &AcknowledgeData) -> (r: bool)
    ensures
        r == (ack.spec_error_code() == 7),
{
    ack.error_code() == 7
}

/// Classifies the reply to the 6-byte identity read at control register
/// 0xA4_00FA.  Only the two low address bytes are echoed back, so a reply
/// whose address offset is not 0x00FA or whose size falls short of the 6
/// identity bytes is invalid data; error flag 7 means no extension; any
/// other reply carries the identity in its first six data bytes.
pub fn classify_identity_read(m: &MemoryData) -> (r: Result<Option<[u8; 6]>, WiimoteDeviceError>)
    ensures
        spec_be16(m.spec_address()[0], m.spec_address()[1]) != 0x00FA || ((
        m.spec_size_error_flags() >> 4) + 1) < 6 ==> r == Err::<Option<[u8; 6]>, WiimoteDeviceError>(
            WiimoteDeviceError::InvalidData,
        ),
        spec_be16(m.spec_address()[0], m.spec_address()[1]) == 0x00FA && ((
        m.spec_size_error_flags() >> 4) + 1) >= 6 && (m.spec_size_error_flags() & 0x0F) == 7
            ==> r == Ok::<Option<[u8; 6]>, WiimoteDeviceError>(None::<[u8; 6]>),
        spec_be16(m.spec_address()[0], m.spec_address()[1]) == 0x00FA && ((
        m.spec_size_error_flags() >> 4) + 1) >= 6 && (m.spec_size_error_flags() & 0x0F) != 7
            ==> (r matches Ok(Some(id)) && id@ == m.spec_data().subrange(0, 6)),
{
    if m.address_offset() != 0x00FA || m.size() < 6 {
        Err(WiimoteDeviceError::InvalidData)
    } else if m.error_flag() == 7 {
        Ok(None)
    } else {
        let identity: [u8; 6] = [m.data[0], m.data[1], m.data[2], m.data[3], m.data[4], m.data[5]];
        proof {
            assert(identity@ =~= m.spec_data().subrange(0, 6));
        }
        Ok(Some(identity))
    }
}

impl WiimoteExtension {
    /// Classifies a 6-byte identity block, most specific pattern first.
    pub fn from_identifier(identifier: [u8; 6]) -> (r: Self)
        ensures
            spec_is_nunchuck_id(identifier@) ==> r is Nunchuck,
            !spec_is_nunchuck_id(identifier@) && spec_is_classic_pro_id(identifier@)
                ==> r is ClassicControllerPro,
            !spec_is_nunchuck_id(identifier@) && !spec_is_classic_pro_id(identifier@)
                && spec_is_classic_id(identifier@) ==> r is ClassicController,
            !spec_is_nunchuck_id(identifier@) && !spec_is_classic_id(identifier@)
                && spec_is_balance_board_id(identifier@) ==> r is BalanceBoard,
            !spec_is_nunchuck_id(identifier@) && !spec_is_classic_pro_id(identifier@)
                && !spec_is_classic_id(identifier@) && !spec_is_balance_board_id(identifier@) ==> (
            r matches WiimoteExtension::Unknown(id) && id == identifier),
    {
        if identifier[2] == 0xA4 && identifier[3] == 0x20 && identifier[4] == 0x00
            && identifier[5] == 0x00 {
            WiimoteExtension::Nunchuck
        } else if identifier[0] == 0x01 && identifier[1] == 0x00 && identifier[2] == 0xA4
            && identifier[3] == 0x20 && identifier[4] == 0x01 && identifier[5] == 0x01 {
            WiimoteExtension::ClassicControllerPro
        } else if identifier[2] == 0xA4 && identifier[3] == 0x20 && identifier[4] == 0x01
            && identifier[5] == 0x01 {
            WiimoteExtension::ClassicController
        } else if identifier[2] == 0xA4 && identifier[3] == 0x20 && identifier[4] == 0x04
            && identifier[5] == 0x02 {
            WiimoteExtension::BalanceBoard
        } else {
            WiimoteExtension::Unknown(identifier)
        }
    }

    /// Detects the extension (other than the Motion Plus) on the
    /// expansion port: runs the identification handshake and classifies
    /// the identity block; an absent extension is `None`, not an error.
    pub fn detect<D: NativeWiimote>(wiimote: &mut WiimoteDevice<D>) -> (r: WiimoteResult<
        Option<WiimoteExtension>,
    >)
        ensures
            final(wiimote).spec_same_state(old(wiimote)),
            final(wiimote).spec_rumble() == old(wiimote).spec_rumble(),
            r is Ok ==> final(wiimote).spec_connected(),
            (r matches Err(e) && e == WiimoteError::Disconnected) ==> !final(wiimote).spec_connected(),
    {
        let identifier = match Self::identify_extension(wiimote) {
            Ok(identifier) => identifier,
            Err(e) => {
                return Err(e);
            },
        };
        match identifier {
            Some(identifier) => Ok(Some(Self::from_identifier(identifier))),
            None => Ok(None),
        }
    }

    /// Runs the identification handshake: writes 0x55 to control register
    /// 0xA4_00F0 and 0x00 to 0xA4_00FB (acknowledge error code 7 on
    /// either write means no extension is plugged in), then reads the
    /// 6-byte identity block at 0xA4_00FA.  A response with a mismatched
    /// address or size is an `InvalidData` error; error flag 7 on the
    /// read again means no extension.
    pub fn identify_extension<D: NativeWiimote>(wiimote: &mut WiimoteDevice<D>) -> (r: WiimoteResult<
        Option<[u8; 6]>,
    >)
        ensures
            final(wiimote).spec_same_state(old(wiimote)),
            final(wiimote).spec_rumble() == old(wiimote).spec_rumble(),
            r is Ok ==> final(wiimote).spec_connected(),
            (r matches Err(e) && e == WiimoteError::Disconnected) ==> !final(wiimote).spec_connected(),
    {
        let mut memory_write_buffer = [0u8; 16];
        memory_write_buffer[0] = 0x55;
        let addressing = Addressing::control_registers(0xA4_00F0, 1);
        let ack = match simple_io::write_16_bytes_sync(wiimote, addressing, &memory_write_buffer) {
            Ok(ack) => ack,
            Err(e) => {
                return Err(e);
            },
        };
        if ack_reports_no_extension(&ack) {
            return Ok(None);
        }
        memory_write_buffer[0] = 0x00;
        let addressing = Addressing::control_registers(0xA4_00FB, 1);
        let ack = match simple_io::write_16_bytes_sync(wiimote, addressing, &memory_write_buffer) {
            Ok(ack) => ack,
            Err(e) => {
                return Err(e);
            },
        };
        if ack_reports_no_extension(&ack) {
            return Ok(None);
        }
        let addressing = Addressing::control_registers(0xA4_00FA, 6);
        let read_result = match simple_io::read_16_bytes_sync(wiimote, addressing) {
            Ok(read_result) => read_result,
            Err(e) => {
                return Err(e);
            },
        };
        match classify_identity_read(&read_result) {
            Ok(identity) => Ok(identity),
            Err(e) => Err(WiimoteError::WiimoteDeviceError(e)),
        }
    }
}

} // verus!
