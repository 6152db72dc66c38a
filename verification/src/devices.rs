//! Supported USB displays and their protocol value ranges.

use vstd::prelude::*;
use crate::protocols::apple_hid::{MAX_BRIGHTNESS_NITS, MIN_BRIGHTNESS_NITS};

verus! {

/// How a display is spoken to.
#[derive(Debug, Clone, Copy, PartialEq, Eq, Structural)]
pub enum Protocol {
    /// USB HID feature reports (Apple displays and the LG UltraFine line).
    AppleHid,
    /// DDC/CI over the video cable.
    DdcCi,
}

/// What is known of one supported display model.
#[derive(Debug, Clone)]
pub struct DeviceSpec {
    /// USB product id.
    pub product_id: u16,
    /// USB vendor id.
    pub vendor_id: u16,
    /// Protocol the display answers to.
    pub protocol: Protocol,
    /// Human-readable model name.
    pub name: &'static str,
    /// Smallest raw value the protocol accepts.
    pub min_brightness_value: u32,
    /// Largest raw value the protocol accepts.
    pub max_brightness_value: u32,
    /// Peak luminance of the panel in nits; informational only.
    pub actual_brightness_nits: u16,
}

/// USB vendor id of Apple.
pub const APPLE_VENDOR_ID: u16 = 0x05ac;

/// USB vendor id of LG Electronics.
pub const LG_VENDOR_ID: u16 = 0x043e;

/// Product id of the Apple Studio Display.
pub const STUDIO_DISPLAY_PRODUCT_ID: u16 = 0x1114;

/// Product id of the Apple Pro Display XDR.
pub const PRO_DISPLAY_XDR_PRODUCT_ID: u16 = 0x9243;

/// Product id of the LG UltraFine 4K.
pub const ULTRAFINE_4K_PRODUCT_ID: u16 = 0x9a63;

/// Product id of the LG UltraFine 5K.
pub const ULTRAFINE_5K_PRODUCT_ID: u16 = 0x9a40;

/// The product ids of the table, in table order.
pub open spec fn supported_ids() -> Seq<u16> {
    seq![
        STUDIO_DISPLAY_PRODUCT_ID,
        PRO_DISPLAY_XDR_PRODUCT_ID,
        ULTRAFINE_4K_PRODUCT_ID,
        ULTRAFINE_5K_PRODUCT_ID,
    ]
}

/// Vendor of a product of the table.
pub open spec fn vendor_of(product_id: u16) -> u16 {
    if product_id == STUDIO_DISPLAY_PRODUCT_ID || product_id == PRO_DISPLAY_XDR_PRODUCT_ID {
        APPLE_VENDOR_ID
    } else {
        LG_VENDOR_ID
    }
}

/// Peak luminance of a product of the table.
pub open spec fn peak_nits_of(product_id: u16) -> u16 {
    if product_id == STUDIO_DISPLAY_PRODUCT_ID {
        600
    } else if product_id == PRO_DISPLAY_XDR_PRODUCT_ID {
        1600
    } else {
        500
    }
}

impl DeviceSpec {
    /// The raw range is not inverted.
    pub open spec fn well_formed(&self) -> bool {
        self.min_brightness_value <= self.max_brightness_value
    }

    /// This is the table's row for `product_id`.
    pub open spec fn is_entry_for(&self, product_id: u16) -> bool {
        &&& self.product_id == product_id
        &&& self.vendor_id == vendor_of(product_id)
        &&& self.protocol == Protocol::AppleHid
        &&& self.min_brightness_value == MIN_BRIGHTNESS_NITS
        &&& self.max_brightness_value == MAX_BRIGHTNESS_NITS
        &&& self.actual_brightness_nits == peak_nits_of(product_id)
    }

    /// Width of the raw value range.
    pub fn brightness_range(&self) -> (range: u32)
        requires
            self.well_formed(),
        ensures
            range == self.max_brightness_value - self.min_brightness_value,
    {
        self.max_brightness_value - self.min_brightness_value
    }
}

fn hid_entry(product_id: u16, vendor_id: u16, name: &'static str, peak_nits: u16) -> (spec: DeviceSpec)
    ensures
        spec.product_id == product_id,
        spec.vendor_id == vendor_id,
        spec.protocol == Protocol::AppleHid,
        spec.name == name,
        spec.min_brightness_value == MIN_BRIGHTNESS_NITS,
        spec.max_brightness_value == MAX_BRIGHTNESS_NITS,
        spec.actual_brightness_nits == peak_nits,
{
    DeviceSpec {
        product_id,
        vendor_id,
        protocol: Protocol::AppleHid,
        name,
        min_brightness_value: MIN_BRIGHTNESS_NITS,
        max_brightness_value: MAX_BRIGHTNESS_NITS,
        actual_brightness_nits: peak_nits,
    }
}

/// Looks a product id up in the table.
pub fn get_device_spec(product_id: u16) -> (found: Option<DeviceSpec>)
    ensures
        found.is_some() <==> supported_ids().contains(product_id),
        found.is_some() ==> found.unwrap().is_entry_for(product_id) && found.unwrap().well_formed(),
        product_id == STUDIO_DISPLAY_PRODUCT_ID ==> found.unwrap().name@ == "Apple Studio Display"@,
        product_id == PRO_DISPLAY_XDR_PRODUCT_ID ==> found.unwrap().name@ == "Apple Pro Display XDR"@,
        product_id == ULTRAFINE_4K_PRODUCT_ID ==> found.unwrap().name@ == "LG UltraFine 4K"@,
        product_id == ULTRAFINE_5K_PRODUCT_ID ==> found.unwrap().name@ == "LG UltraFine 5K"@,
{
    proof {
        let ids = supported_ids();
        assert(ids[0] == STUDIO_DISPLAY_PRODUCT_ID && ids[1] == PRO_DISPLAY_XDR_PRODUCT_ID
            && ids[2] == ULTRAFINE_4K_PRODUCT_ID && ids[3] == ULTRAFINE_5K_PRODUCT_ID);
    }
    if product_id == STUDIO_DISPLAY_PRODUCT_ID {
        Some(hid_entry(product_id, APPLE_VENDOR_ID, "Apple Studio Display", 600))
    } else if product_id == PRO_DISPLAY_XDR_PRODUCT_ID {
        Some(hid_entry(product_id, APPLE_VENDOR_ID, "Apple Pro Display XDR", 1600))
    } else if product_id == ULTRAFINE_4K_PRODUCT_ID {
        Some(hid_entry(product_id, LG_VENDOR_ID, "LG UltraFine 4K", 500))
    } else if product_id == ULTRAFINE_5K_PRODUCT_ID {
        Some(hid_entry(product_id, LG_VENDOR_ID, "LG UltraFine 5K", 500))
    } else {
        None
    }
}

/// Every product id of the table, in table order.
pub fn supported_product_ids() -> (ids: Vec<u16>)
    ensures
        ids@ == supported_ids(),
{
    let mut ids: Vec<u16> = Vec::new();
    ids.push(STUDIO_DISPLAY_PRODUCT_ID);
    ids.push(PRO_DISPLAY_XDR_PRODUCT_ID);
    ids.push(ULTRAFINE_4K_PRODUCT_ID);
    ids.push(ULTRAFINE_5K_PRODUCT_ID);
    assert(ids@ =~= supported_ids());
    ids
}

} // verus!
