//! Displays as the coordinator keeps them, and what passes between the
//! coordinator and its consumer.

use vstd::prelude::*;
use crate::devices::Protocol;
use crate::protocols::apple_hid::AppleHidDisplay;
use crate::protocols::ddc_ci::{DdcCiDisplay, BRIGHTNESS_VCP_CODE};
use crate::protocols::{ReadReply, ReadRequest, WriteRequest};

verus! {

/// Identifies one display for as long as one enumeration stands.
pub type DisplayId = String;

/// A brightness in percent, 0 to 100.
pub type ScreenBrightness = u16;

/// A display by the protocol it is driven with.
#[derive(Debug, Clone)]
pub enum DisplayBackend {
    /// A monitor reached over DDC/CI.
    DdcCi(DdcCiDisplay),
    /// A display reached over USB HID feature reports.
    AppleHid(AppleHidDisplay),
}

/// A display as it was found at enumeration.
#[derive(Debug, Clone)]
pub struct MonitorInfo {
    /// Name shown for the display.
    pub name: String,
    /// Brightness read at enumeration, 0 to 100.
    pub brightness: u16,
}

/// What the consumer asks of the coordinator.
#[derive(Debug, Clone)]
pub enum EventToSub {
    /// Read every display's brightness again.
    Refresh,
    /// Set one display's brightness.
    SetBrightness(DisplayId, ScreenBrightness),
}

/// Tells the consumer that a display now shows this brightness.
#[derive(Debug, Clone)]
pub struct BrightnessUpdated {
    /// The display.
    pub id: DisplayId,
    /// Its brightness, 0 to 100.
    pub brightness: ScreenBrightness,
}

fn duplicate_text(text: &Option<String>) -> (copy: Option<String>)
    ensures
        copy == *text,
{
    match text {
        Some(t) => Some(t.clone()),
        None => None,
    }
}

impl DisplayBackend {
    /// The id under which the display is kept.
    pub open spec fn spec_id(&self) -> Seq<char> {
        match self {
            DisplayBackend::DdcCi(display) => display.spec_id(),
            DisplayBackend::AppleHid(display) => display.spec_id(),
        }
    }

    /// The name shown for the display.
    pub open spec fn spec_name(&self) -> Seq<char> {
        match self {
            DisplayBackend::DdcCi(display) => display.spec_name(),
            DisplayBackend::AppleHid(display) => display.spec_name(),
        }
    }

    /// The protocol the display is driven with.
    pub open spec fn spec_protocol(&self) -> Protocol {
        match self {
            DisplayBackend::DdcCi(_) => Protocol::DdcCi,
            DisplayBackend::AppleHid(_) => Protocol::AppleHid,
        }
    }

    /// `request` is what reads this display's brightness.
    pub open spec fn is_read_request(&self, request: ReadRequest) -> bool {
        match self {
            DisplayBackend::DdcCi(_) => request == ReadRequest::VcpFeature(BRIGHTNESS_VCP_CODE),
            DisplayBackend::AppleHid(_) => request matches ReadRequest::HidFeatureReport(report)
                && crate::protocols::apple_hid::is_brightness_report(report@, 0),
        }
    }

    /// The percentage that `reply` stands for, or nothing where the reply is
    /// not one of this display's protocol.
    pub open spec fn reading(&self, reply: ReadReply) -> Option<u16> {
        match self {
            DisplayBackend::DdcCi(_) => DdcCiDisplay::reading(reply),
            DisplayBackend::AppleHid(_) => AppleHidDisplay::reading(reply),
        }
    }

    /// `request` is what sets this display's brightness to `percentage`.
    pub open spec fn is_write_of(&self, request: WriteRequest, percentage: u16) -> bool {
        match self {
            DisplayBackend::DdcCi(_) => request == WriteRequest::VcpFeature(
                BRIGHTNESS_VCP_CODE,
                crate::protocols::capped(percentage),
            ),
            DisplayBackend::AppleHid(_) => AppleHidDisplay::is_write_of(request, percentage),
        }
    }

    /// The id under which the display is kept.
    pub fn id(&self) -> (id: String)
        ensures
            id@ == self.spec_id(),
    {
        match self {
            DisplayBackend::DdcCi(display) => display.id(),
            DisplayBackend::AppleHid(display) => display.id(),
        }
    }

    /// The name shown for the display.
    pub fn name(&self) -> (name: String)
        ensures
            name@ == self.spec_name(),
    {
        match self {
            DisplayBackend::DdcCi(display) => display.name(),
            DisplayBackend::AppleHid(display) => display.name(),
        }
    }

    /// The protocol the display is driven with.
    pub fn protocol(&self) -> (protocol: Protocol)
        ensures
            protocol == self.spec_protocol(),
    {
        match self {
            DisplayBackend::DdcCi(_) => Protocol::DdcCi,
            DisplayBackend::AppleHid(_) => Protocol::AppleHid,
        }
    }

    /// Whether the display is kept under `id`.
    pub fn has_id(&self, id: &String) -> (yes: bool)
        ensures
            yes == (self.spec_id() == id@),
    {
        let own = self.id();
        own == *id
    }

    /// A second value for the same display.
    pub fn duplicate(&self) -> (copy: DisplayBackend)
        ensures
            copy == *self,
    {
        match self {
            DisplayBackend::DdcCi(display) => DisplayBackend::DdcCi(
                DdcCiDisplay { id: display.id.clone(), model_name: duplicate_text(&display.model_name) },
            ),
            DisplayBackend::AppleHid(display) => DisplayBackend::AppleHid(
                AppleHidDisplay {
                    serial: display.serial.clone(),
                    manufacturer: display.manufacturer.clone(),
                    product: display.product.clone(),
                },
            ),
        }
    }

    /// The request that reads the display's brightness.
    pub fn read_request(&self) -> (request: ReadRequest)
        ensures
            self.is_read_request(request),
    {
        match self {
            DisplayBackend::DdcCi(_) => DdcCiDisplay::read_request(),
            DisplayBackend::AppleHid(_) => AppleHidDisplay::read_request(),
        }
    }

    /// Reads the percentage out of what the display answered.
    pub fn decode_reading(&self, reply: &ReadReply) -> (percentage: Option<u16>)
        ensures
            percentage == self.reading(*reply),
            percentage matches Some(p) ==> p <= 100,
    {
        match self {
            DisplayBackend::DdcCi(_) => DdcCiDisplay::decode_reading(reply),
            DisplayBackend::AppleHid(_) => AppleHidDisplay::decode_reading(reply),
        }
    }

    /// The request that sets the display's brightness to `percentage`,
    /// capped at 100.
    pub fn write_request(&self, percentage: u16) -> (request: WriteRequest)
        ensures
            self.is_write_of(request, percentage),
    {
        match self {
            DisplayBackend::DdcCi(_) => DdcCiDisplay::write_request(percentage),
            DisplayBackend::AppleHid(_) => AppleHidDisplay::write_request(percentage),
        }
    }
}

/// A reply, of whatever protocol, never stands for more than 100 percent.
pub proof fn reading_is_a_percentage(backend: DisplayBackend, reply: ReadReply)
    ensures
        backend.reading(reply) matches Some(p) ==> p <= 100,
{
}

} // verus!
