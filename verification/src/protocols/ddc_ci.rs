//! Brightness over DDC/CI: VCP feature `0x10`, whose values are percentages
//! already.

use vstd::prelude::*;
use crate::protocols::{capped, cap_percentage, ReadReply, ReadRequest, WriteRequest};

verus! {

/// VCP feature code of the brightness (luminance) control.
pub const BRIGHTNESS_VCP_CODE: u8 = 0x10;

/// A display reached over DDC/CI, by what identifies it.
#[derive(Debug, Clone)]
pub struct DdcCiDisplay {
    /// Identifier that the bus gives the display.
    pub id: String,
    /// Model name, where the display reports one.
    pub model_name: Option<String>,
}

impl DdcCiDisplay {
    /// A display from its identifier and model name.
    pub fn new(id: String, model_name: Option<String>) -> (display: DdcCiDisplay)
        ensures
            display.id == id,
            display.model_name == model_name,
    {
        DdcCiDisplay { id, model_name }
    }

    /// The id under which the display is kept.
    pub open spec fn spec_id(&self) -> Seq<char> {
        self.id@
    }

    /// The name shown for the display: its model name, or nothing.
    pub open spec fn spec_name(&self) -> Seq<char> {
        match self.model_name {
            Some(name) => name@,
            None => Seq::empty(),
        }
    }

    /// The id under which the display is kept.
    pub fn id(&self) -> (id: String)
        ensures
            id@ == self.spec_id(),
    {
        self.id.clone()
    }

    /// The name shown for the display.
    pub fn name(&self) -> (name: String)
        ensures
            name@ == self.spec_name(),
    {
        match &self.model_name {
            Some(name) => name.clone(),
            None => String::new(),
        }
    }

    /// The request that reads the brightness.
    pub fn read_request() -> (request: ReadRequest)
        ensures
            request == ReadRequest::VcpFeature(BRIGHTNESS_VCP_CODE),
    {
        ReadRequest::VcpFeature(BRIGHTNESS_VCP_CODE)
    }

    /// The percentage that a reply stands for, where it is a reply of this
    /// protocol.
    pub open spec fn reading(reply: ReadReply) -> Option<u16> {
        match reply {
            ReadReply::VcpValue(value) => Some(capped(value)),
            ReadReply::HidFeatureReport(_) => None,
        }
    }

    /// Reads the percentage out of a reply.
    pub fn decode_reading(reply: &ReadReply) -> (percentage: Option<u16>)
        ensures
            percentage == Self::reading(*reply),
    {
        match reply {
            ReadReply::VcpValue(value) => Some(cap_percentage(*value)),
            ReadReply::HidFeatureReport(_) => None,
        }
    }

    /// The request that sets the brightness to `percentage`, capped at 100.
    pub fn write_request(percentage: u16) -> (request: WriteRequest)
        ensures
            request == WriteRequest::VcpFeature(BRIGHTNESS_VCP_CODE, capped(percentage)),
    {
        WriteRequest::VcpFeature(BRIGHTNESS_VCP_CODE, cap_percentage(percentage))
    }
}

} // verus!
