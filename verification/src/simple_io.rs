//! Blocking request/response helpers over one session.
//!
//! Only used during setup and calibration, never during steady-state
//! streaming: these helpers consume from the same inbound stream as
//! normal polling, discarding every report that is not the expected
//! response, under a bounded retry budget.

use vstd::prelude::*;

use crate::device::WiimoteDevice;
use crate::input::{spec_be16, AcknowledgeData, InputReport, MemoryData};
use crate::native::NativeWiimote;
use crate::output::{Addressing, OutputReport};
use crate::result::{WiimoteDeviceError, WiimoteError, WiimoteResult};

verus! {

pub const RETRY_COUNT: usize = 5;

pub const READ_TIMEOUT: usize = 250;

/// Writes a memory read request and waits for the matching memory read
/// report, discarding unrelated reports; a timed-out attempt counts as
/// "no data" and consumes one retry.  Exhausting the retry budget is an
/// `InvalidData` error; a channel-level failure is `Disconnected`.
pub fn read_16_bytes_sync<D: NativeWiimote>(
    wiimote: &mut WiimoteDevice<D>,
    addressing: Addressing,
) -> (r: WiimoteResult<MemoryData>)
    ensures
        final(wiimote).spec_same_state(old(wiimote)),
        final(wiimote).spec_rumble() == old(wiimote).spec_rumble(),
        r is Ok ==> final(wiimote).spec_connected(),
        (r matches Err(e) && e == WiimoteError::Disconnected) ==> !final(wiimote).spec_connected(),
{
    let memory_read_request = OutputReport::ReadMemory(addressing);
    match wiimote.write(&memory_read_request) {
        Ok(()) => (),
        Err(e) => {
            return Err(e);
        },
    }
    let mut i: usize = 0;
    while i < RETRY_COUNT
        invariant
            wiimote.spec_same_state(old(wiimote)),
            wiimote.spec_rumble() == old(wiimote).spec_rumble(),
            wiimote.spec_connected(),
        decreases RETRY_COUNT - i,
    {
        match wiimote.read_timeout(READ_TIMEOUT) {
            Ok(input_report) => {
                match input_report {
                    InputReport::ReadMemory(memory_data) => {
                        return Ok(memory_data);
                    },
                    _ => (),  // an unrelated report: discard it
                }
            },
            Err(e) => {
                match e {
                    WiimoteError::Disconnected => {
                        return Err(WiimoteError::Disconnected);
                    },
                    // a timeout or an undecodable frame: no data this
                    // attempt
                    _ => (),
                }
            },
        }
        i = i + 1;
    }
    Err(WiimoteError::WiimoteDeviceError(WiimoteDeviceError::InvalidData))
}

/// A memory read report that answers the given request: the reported
/// address offset equals the low 16 bits of the requested address and the
/// reported size covers the requested size.
pub open spec fn spec_matches_request(m: MemoryData, addressing: Addressing) -> bool {
    &&& spec_be16(m.spec_address()[0], m.spec_address()[1]) == addressing.spec_address() as u16
    &&& ((m.spec_size_error_flags() >> 4) + 1) as u16 >= addressing.spec_size()
}

/// Reads up to 16 bytes and additionally checks the response against the
/// request: a mismatched address offset or an undersized response is an
/// `InvalidData` error.
pub fn read_16_bytes_sync_checked<D: NativeWiimote>(
    wiimote: &mut WiimoteDevice<D>,
    addressing: Addressing,
) -> (r: WiimoteResult<[u8; 16]>)
    ensures
        final(wiimote).spec_same_state(old(wiimote)),
        final(wiimote).spec_rumble() == old(wiimote).spec_rumble(),
        r is Ok ==> final(wiimote).spec_connected(),
        (r matches Err(e) && e == WiimoteError::Disconnected) ==> !final(wiimote).spec_connected(),
        r matches Ok(data) ==> exists|m: MemoryData|
            #[trigger] spec_matches_request(m, addressing) && data@ == m.spec_data(),
{
    let address = addressing.address_low16();
    let size = addressing.size();
    let memory_data = match read_16_bytes_sync(wiimote, addressing) {
        Ok(memory_data) => memory_data,
        Err(e) => {
            return Err(e);
        },
    };
    if memory_data.address_offset() != address || (memory_data.size() as u16) < size {
        Err(WiimoteError::WiimoteDeviceError(WiimoteDeviceError::InvalidData))
    } else {
        proof {
            assert(spec_matches_request(memory_data, addressing) && memory_data.data@
                == memory_data.spec_data());
        }
        Ok(memory_data.data)
    }
}

/// Writes a memory write request and waits for the matching acknowledge
/// report, discarding unrelated reports, under the same retry budget as
/// the read helper.
pub fn write_16_bytes_sync<D: NativeWiimote>(
    wiimote: &mut WiimoteDevice<D>,
    addressing: Addressing,
    data: &[u8; 16],
) -> (r: WiimoteResult<AcknowledgeData>)
    ensures
        final(wiimote).spec_same_state(old(wiimote)),
        final(wiimote).spec_rumble() == old(wiimote).spec_rumble(),
        r is Ok ==> final(wiimote).spec_connected(),
        (r matches Err(e) && e == WiimoteError::Disconnected) ==> !final(wiimote).spec_connected(),
{
    let memory_write_request = OutputReport::WriteMemory(addressing, *data);
    match wiimote.write(&memory_write_request) {
        Ok(()) => (),
        Err(e) => {
            return Err(e);
        },
    }
    let mut i: usize = 0;
    while i < RETRY_COUNT
        invariant
            wiimote.spec_same_state(old(wiimote)),
            wiimote.spec_rumble() == old(wiimote).spec_rumble(),
            wiimote.spec_connected(),
        decreases RETRY_COUNT - i,
    {
        match wiimote.read_timeout(READ_TIMEOUT) {
            Ok(input_report) => {
                match input_report {
                    InputReport::Acknowledge(acknowledge_data) => {
                        return Ok(acknowledge_data);
                    },
                    _ => (),  // an unrelated report: discard it
                }
            },
            Err(e) => {
                match e {
                    WiimoteError::Disconnected => {
                        return Err(WiimoteError::Disconnected);
                    },
                    // a timeout or an undecodable frame: no data this
                    // attempt
                    _ => (),
                }
            },
        }
        i = i + 1;
    }
    Err(WiimoteError::WiimoteDeviceError(WiimoteDeviceError::InvalidData))
}

} // verus!
