//! Brightness over USB HID feature reports, as spoken by Apple displays and
//! the LG UltraFine line.
//!
//! The display takes and gives its brightness as a seven-byte feature report
//! holding a luminance value between 400 and 60000. This module converts
//! between that value and a percentage, frames and reads the report, and
//! decides which of the HID devices on the bus are displays it can drive.
//! Talking to the device itself is left to the caller.

use vstd::prelude::*;
use vstd::string::*;
use crate::devices::{APPLE_VENDOR_ID, STUDIO_DISPLAY_PRODUCT_ID};
use crate::protocols::{ReadReply, ReadRequest, WriteRequest};

verus! {

/// USB interface that carries the brightness control.
pub const INTERFACE_NUMBER: i32 = 0x7;

/// Lowest luminance value the report carries.
pub const MIN_BRIGHTNESS_NITS: u32 = 400;

/// Highest luminance value the report carries.
pub const MAX_BRIGHTNESS_NITS: u32 = 60000;

/// Width of the luminance range.
pub const BRIGHTNESS_RANGE: u32 = 59600;

/// Length of the feature report in bytes.
pub const REPORT_SIZE: usize = 7;

/// Report id of the brightness feature report.
pub const REPORT_ID: u8 = 1;

/// The percentage that a luminance value stands for: linear between the two
/// ends of the range, rounded down, and pinned to the ends outside it.
pub open spec fn nits_percentage(nits: int) -> int {
    if nits <= MIN_BRIGHTNESS_NITS {
        0
    } else if nits >= MAX_BRIGHTNESS_NITS {
        100
    } else {
        (nits - MIN_BRIGHTNESS_NITS) * 100 / (BRIGHTNESS_RANGE as int)
    }
}

/// The luminance value sent for a percentage; percentages over 100 count as 100.
pub open spec fn percentage_nits(percentage: int) -> int {
    let capped = if percentage > 100 { 100 } else { percentage };
    MIN_BRIGHTNESS_NITS + BRIGHTNESS_RANGE * capped / 100
}

/// Converts a luminance value to a percentage.
pub fn nits_to_percentage(nits: u32) -> (percentage: u16)
    ensures
        percentage == nits_percentage(nits as int),
        percentage <= 100,
{
    if nits <= MIN_BRIGHTNESS_NITS {
        return 0;
    }
    if nits >= MAX_BRIGHTNESS_NITS {
        return 100;
    }
    let scaled: u32 = (nits - MIN_BRIGHTNESS_NITS) * 100 / BRIGHTNESS_RANGE;
    scaled as u16
}

/// Converts a percentage to a luminance value.
pub fn percentage_to_nits(percentage: u16) -> (nits: u32)
    ensures
        nits == percentage_nits(percentage as int),
        MIN_BRIGHTNESS_NITS <= nits <= MAX_BRIGHTNESS_NITS,
{
    let capped: u32 = if percentage > 100 { 100 } else { percentage as u32 };
    MIN_BRIGHTNESS_NITS + BRIGHTNESS_RANGE * capped / 100
}

/// A percentage survives the trip to a luminance value and back unchanged.
pub proof fn percentage_round_trip(percentage: int)
    requires
        0 <= percentage <= 100,
    ensures
        nits_percentage(percentage_nits(percentage)) == percentage,
{
}

/// The two ends of the ranges are mapped onto each other, both ways.
pub proof fn range_ends_correspond()
    ensures
        nits_percentage(400) == 0,
        nits_percentage(60000) == 100,
        percentage_nits(0) == 400,
        percentage_nits(100) == 60000,
        percentage_nits(nits_percentage(400)) == 400,
        percentage_nits(nits_percentage(60000)) == 60000,
{
}

/// A brighter luminance value never gives a smaller percentage, and the
/// percentage stays between 0 and 100 whatever the value.
pub proof fn nits_percentage_is_monotonic(low: int, high: int)
    requires
        low <= high,
    ensures
        nits_percentage(low) <= nits_percentage(high),
        0 <= nits_percentage(low) <= 100,
{
}

/// A larger percentage never gives a smaller luminance value, and the value
/// stays inside the range whatever the percentage.
pub proof fn percentage_nits_is_monotonic(low: int, high: int)
    requires
        0 <= low <= high,
    ensures
        percentage_nits(low) <= percentage_nits(high),
        MIN_BRIGHTNESS_NITS <= percentage_nits(low) <= MAX_BRIGHTNESS_NITS,
{
}

/// The luminance value held in bytes 1 to 4 of a report, least significant
/// byte first.
pub open spec fn report_nits(report: Seq<u8>) -> int {
    report[1] + 256 * report[2] + 65536 * report[3] + 16777216 * report[4]
}

/// `report` is the brightness report that carries `nits`: the report id, the
/// value in little-endian order, and two reserved bytes left at zero.
pub open spec fn is_brightness_report(report: Seq<u8>, nits: int) -> bool {
    &&& report.len() == REPORT_SIZE
    &&& report[0] == REPORT_ID
    &&& report_nits(report) == nits
    &&& report[5] == 0
    &&& report[6] == 0
}

/// The report that asks the display to show `percentage`.
pub fn encode_brightness_report(percentage: u16) -> (report: [u8; 7])
    ensures
        is_brightness_report(report@, percentage_nits(percentage as int)),
{
    let nits: u32 = percentage_to_nits(percentage);
    let b0: u8 = (nits % 256) as u8;
    let b1: u8 = ((nits / 256) % 256) as u8;
    let b2: u8 = ((nits / 65536) % 256) as u8;
    let b3: u8 = (nits / 16777216) as u8;
    let report: [u8; 7] = [REPORT_ID, b0, b1, b2, b3, 0, 0];
    report
}

/// The buffer handed to the device when its brightness is asked for: the
/// report id, and room for the answer.
pub fn brightness_query() -> (report: [u8; 7])
    ensures
        is_brightness_report(report@, 0),
{
    let report: [u8; 7] = [REPORT_ID, 0, 0, 0, 0, 0, 0];
    report
}

/// The luminance value that a report carries.
pub fn decode_report_nits(report: &[u8; 7]) -> (nits: u32)
    ensures
        nits == report_nits(report@),
{
    let b0: u32 = report[1] as u32;
    let b1: u32 = report[2] as u32;
    let b2: u32 = report[3] as u32;
    let b3: u32 = report[4] as u32;
    b0 + 256 * b1 + 65536 * b2 + 16777216 * b3
}

/// The percentage that a report read from the display stands for.
pub fn decode_brightness_report(report: &[u8; 7]) -> (percentage: u16)
    ensures
        percentage == nits_percentage(report_nits(report@)),
        percentage <= 100,
{
    nits_to_percentage(decode_report_nits(report))
}

/// Reading back the report written for a percentage gives that percentage.
pub proof fn report_round_trip(report: Seq<u8>, percentage: int)
    requires
        0 <= percentage <= 100,
        is_brightness_report(report, percentage_nits(percentage)),
    ensures
        nits_percentage(report_nits(report)) == percentage,
{
}

/// What the bus tells of one HID device before it is opened.
#[derive(Debug, Clone)]
pub struct HidDeviceInfo {
    /// USB vendor id.
    pub vendor_id: u16,
    /// USB product id.
    pub product_id: u16,
    /// USB interface the entry stands for.
    pub interface_number: i32,
    /// Serial number, where the device gives one.
    pub serial_number: Option<String>,
    /// Manufacturer string, where the device gives one.
    pub manufacturer_string: Option<String>,
    /// Product string, where the device gives one.
    pub product_string: Option<String>,
}

/// A display that answers to the HID brightness report, by what identifies it.
#[derive(Debug, Clone)]
pub struct AppleHidDisplay {
    /// Serial number of the display.
    pub serial: String,
    /// Manufacturer string of the display.
    pub manufacturer: String,
    /// Product string of the display.
    pub product: String,
}

/// A device of the bus listing that is worth opening, with the display it
/// will be once opened.
#[derive(Debug, Clone)]
pub struct Candidate {
    /// Position of the device in the listing.
    pub index: usize,
    /// The display that the device stands for.
    pub display: AppleHidDisplay,
}

/// The product ids that are driven: the Apple Studio Display so far.
pub open spec fn supported_products() -> Seq<u16> {
    seq![STUDIO_DISPLAY_PRODUCT_ID]
}

/// The text of an optional device string, or `fallback` where it is missing.
pub open spec fn text_or(text: Option<String>, fallback: Seq<char>) -> Seq<char> {
    match text {
        Some(t) => t@,
        None => fallback,
    }
}

impl HidDeviceInfo {
    /// The device is a display whose brightness can be driven: the right
    /// vendor, a product of the list, and the control interface.
    pub open spec fn is_supported(&self) -> bool {
        &&& self.vendor_id == APPLE_VENDOR_ID
        &&& supported_products().contains(self.product_id)
        &&& self.interface_number == INTERFACE_NUMBER
    }

    /// Decides whether the device is a display whose brightness can be driven.
    pub fn supported(&self) -> (yes: bool)
        ensures
            yes == self.is_supported(),
    {
        proof {
            assert(supported_products()[0] == STUDIO_DISPLAY_PRODUCT_ID);
        }
        self.vendor_id == APPLE_VENDOR_ID && self.product_id == STUDIO_DISPLAY_PRODUCT_ID
            && self.interface_number == INTERFACE_NUMBER
    }
}

fn owned_or(text: &Option<String>, fallback: &str) -> (owned: String)
    ensures
        owned@ == text_or(*text, fallback@),
{
    match text {
        Some(t) => t.clone(),
        None => String::from_str(fallback),
    }
}

impl AppleHidDisplay {
    /// A display from its three strings.
    pub fn new(serial: String, manufacturer: String, product: String) -> (display: AppleHidDisplay)
        ensures
            display.serial == serial,
            display.manufacturer == manufacturer,
            display.product == product,
    {
        AppleHidDisplay { serial, manufacturer, product }
    }

    /// The display carries the strings of `info`, with the stock text in
    /// place of each string that the device does not give.
    pub open spec fn describes(&self, info: HidDeviceInfo) -> bool {
        &&& self.serial@ == text_or(info.serial_number, "Unknown"@)
        &&& self.manufacturer@ == text_or(info.manufacturer_string, "Apple"@)
        &&& self.product@ == text_or(info.product_string, "HID Display"@)
    }

    /// The display that a listed device stands for.
    pub fn from_device_info(info: &HidDeviceInfo) -> (display: AppleHidDisplay)
        ensures
            display.describes(*info),
    {
        AppleHidDisplay {
            serial: owned_or(&info.serial_number, "Unknown"),
            manufacturer: owned_or(&info.manufacturer_string, "Apple"),
            product: owned_or(&info.product_string, "HID Display"),
        }
    }

    /// Picks from a bus listing the devices that are supported displays, in
    /// listing order, none left out and none twice.
    pub fn enumerate(devices: &Vec<HidDeviceInfo>) -> (found: Vec<Candidate>)
        ensures
            forall|k: int|
                0 <= k < found.len() ==> {
                    &&& (#[trigger] found[k]).index < devices.len()
                    &&& devices[found[k].index as int].is_supported()
                    &&& found[k].display.describes(devices[found[k].index as int])
                },
            forall|j: int, k: int|
                0 <= j < k < found.len() ==> (#[trigger] found[j]).index < (#[trigger] found[k]).index,
            forall|i: int|
                0 <= i < devices.len() && (#[trigger] devices[i]).is_supported() ==> exists|k: int|
                    0 <= k < found.len() && (#[trigger] found[k]).index == i,
    {
        let mut found: Vec<Candidate> = Vec::new();
        let mut i: usize = 0;
        while i < devices.len()
            invariant
                i <= devices.len(),
                forall|k: int|
                    0 <= k < found.len() ==> {
                        &&& (#[trigger] found[k]).index < i
                        &&& devices[found[k].index as int].is_supported()
                        &&& found[k].display.describes(devices[found[k].index as int])
                    },
                forall|j: int, k: int|
                    0 <= j < k < found.len() ==> (#[trigger] found[j]).index < (#[trigger] found[k]).index,
                forall|n: int|
                    0 <= n < i && (#[trigger] devices[n]).is_supported() ==> exists|k: int|
                        0 <= k < found.len() && (#[trigger] found[k]).index == n,
            decreases devices.len() - i,
        {
            if devices[i].supported() {
                let ghost before = found@;
                let display = AppleHidDisplay::from_device_info(&devices[i]);
                found.push(Candidate { index: i, display });
                proof {
                    assert(found[before.len() as int].index == i);
                    assert forall|n: int|
                        0 <= n < i + 1 && (#[trigger] devices[n]).is_supported() implies exists|k: int|
                        0 <= k < found.len() && (#[trigger] found[k]).index == n by {
                        if n < i {
                            let k = choose|k: int| 0 <= k < before.len() && (#[trigger] before[k]).index == n;
                            assert(found[k].index == n);
                        }
                    }
                }
            }
            i += 1;
        }
        found
    }

    /// The id under which the display is kept: `apple-hid-` and the serial.
    pub open spec fn spec_id(&self) -> Seq<char> {
        "apple-hid-"@ + self.serial@
    }

    /// The name shown for the display: manufacturer, a space, product.
    pub open spec fn spec_name(&self) -> Seq<char> {
        self.manufacturer@ + " "@ + self.product@
    }

    /// The id under which the display is kept.
    pub fn id(&self) -> (id: String)
        ensures
            id@ == self.spec_id(),
    {
        String::from_str("apple-hid-").concat(self.serial.as_str())
    }

    /// The name shown for the display.
    pub fn name(&self) -> (name: String)
        ensures
            name@ == self.spec_name(),
    {
        self.manufacturer.clone().concat(" ").concat(self.product.as_str())
    }

    /// The request that reads the brightness.
    pub fn read_request() -> (request: ReadRequest)
        ensures
            request matches ReadRequest::HidFeatureReport(report) && is_brightness_report(report@, 0),
    {
        ReadRequest::HidFeatureReport(brightness_query())
    }

    /// The percentage that a reply stands for, where it is a reply of this
    /// protocol.
    pub open spec fn reading(reply: ReadReply) -> Option<u16> {
        match reply {
            ReadReply::HidFeatureReport(report) => Some(nits_percentage(report_nits(report@)) as u16),
            ReadReply::VcpValue(_) => None,
        }
    }

    /// Reads the percentage out of a reply.
    pub fn decode_reading(reply: &ReadReply) -> (percentage: Option<u16>)
        ensures
            percentage == Self::reading(*reply),
            percentage matches Some(p) ==> p <= 100,
    {
        match reply {
            ReadReply::HidFeatureReport(report) => Some(decode_brightness_report(report)),
            ReadReply::VcpValue(_) => None,
        }
    }

    /// `request` is the report that sets the brightness to `percentage`.
    pub open spec fn is_write_of(request: WriteRequest, percentage: u16) -> bool {
        request matches WriteRequest::HidFeatureReport(report) && is_brightness_report(
            report@,
            percentage_nits(percentage as int),
        )
    }

    /// The request that sets the brightness to `percentage`, capped at 100.
    pub fn write_request(percentage: u16) -> (request: WriteRequest)
        ensures
            Self::is_write_of(request, percentage),
    {
        WriteRequest::HidFeatureReport(encode_brightness_report(percentage))
    }
}

} // verus!
