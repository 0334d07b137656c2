//! Transport abstraction over one connected Wii remote.
//!
//! The driver core is transport-agnostic: platform code (Bluetooth L2CAP
//! sockets, HID APIs) implements this trait and hands the channel to the
//! session layer.  Nothing is assumed about the transport: a read or write
//! can fail at any time, and the frames delivered are arbitrary bytes.

use vstd::prelude::*;

verus! {

/// A byte channel to one physical Wii remote.
///
/// Frames are delivered in device-send order within one channel.  `None`
/// from any operation means the channel is unusable (the unit disconnected
/// or the handle was closed); the session layer then tears the channel
/// down and reports `Disconnected`.
pub trait NativeWiimote: Sized {
    /// Reads one inbound frame, blocking until data arrives or the channel
    /// fails.
    fn read(&mut self) -> (r: Option<Vec<u8>>);

    /// Reads one inbound frame, waiting at most `timeout_millis`.  An
    /// expired wait yields an empty frame, not a failure.
    fn read_timeout(&mut self, timeout_millis: usize) -> (r: Option<Vec<u8>>);

    /// Writes one outbound frame; returns the number of bytes accepted.
    fn write(&mut self, buffer: &[u8]) -> (r: Option<usize>);

    /// Returns the identifier of the physical unit (its address or serial
    /// number), stable across reconnects.
    fn identifier(&self) -> (r: String);
}

/// Whether a USB identity belongs to a recognized Wii remote: Nintendo's
/// vendor id and one of the two remote product ids.
pub fn is_wiimote(vendor_id: u16, product_id: u16) -> (r: bool)
    ensures
        r == (vendor_id == 0x057E && (product_id == 0x0306 || product_id == 0x0330)),
{
    vendor_id == 0x057E && (product_id == 0x0306 || product_id == 0x0330)
}

/// Whether a Bluetooth device name belongs to a Wii remote.
pub fn is_wiimote_device_name(name: &str) -> (r: bool)
    ensures
        r == (name@ == "Nintendo RVL-CNT-01"@ || name@ == "Nintendo RVL-CNT-01-TR"@),
{
    let owned = name.to_owned();
    let plain: String = "Nintendo RVL-CNT-01".to_owned();
    let newer: String = "Nintendo RVL-CNT-01-TR".to_owned();
    owned.eq(&plain) || owned.eq(&newer)
}

} // verus!
