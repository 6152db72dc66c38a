//! The two wire protocols and the payloads they exchange.
//!
//! Nothing here touches a device. A display is asked for its brightness with
//! a [`ReadRequest`], answers with a [`ReadReply`], and is set with a
//! [`WriteRequest`]; carrying those to the hardware is the caller's part.

use vstd::prelude::*;

pub mod apple_hid;
pub mod ddc_ci;

verus! {

/// What is sent to a display to learn its brightness.
#[derive(Debug, Clone, Copy)]
pub enum ReadRequest {
    /// Read the VCP feature with this code over DDC/CI.
    VcpFeature(u8),
    /// Fetch the HID feature report into this buffer.
    HidFeatureReport([u8; 7]),
}

/// What a display answered.
#[derive(Debug, Clone, Copy)]
pub enum ReadReply {
    /// The current value of the VCP feature that was read.
    VcpValue(u16),
    /// The HID feature report as the device filled it.
    HidFeatureReport([u8; 7]),
}

/// What is sent to a display to set its brightness.
#[derive(Debug, Clone, Copy)]
pub enum WriteRequest {
    /// Set the VCP feature with this code to this value over DDC/CI.
    VcpFeature(u8, u16),
    /// Send this HID feature report.
    HidFeatureReport([u8; 7]),
}

/// A percentage, with everything over 100 counted as 100.
pub open spec fn capped(percentage: u16) -> u16 {
    if percentage > 100 {
        100
    } else {
        percentage
    }
}

/// Caps a percentage at 100.
pub fn cap_percentage(percentage: u16) -> (result: u16)
    ensures
        result == capped(percentage),
        result <= 100,
{
    if percentage > 100 {
        100
    } else {
        percentage
    }
}

} // verus!
