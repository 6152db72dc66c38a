//! Which icon stands for a brightness.

use vstd::prelude::*;

verus! {

/// Icon for a brightness over 66.
pub const ICON_HIGH: &'static str = "cosmic-applet-battery-display-brightness-high-symbolic";

/// Icon for a brightness over 33.
pub const ICON_MEDIUM: &'static str = "cosmic-applet-battery-display-brightness-medium-symbolic";

/// Icon for a brightness over 0.
pub const ICON_LOW: &'static str = "cosmic-applet-battery-display-brightness-low-symbolic";

/// Icon for a display that is dark.
pub const ICON_OFF: &'static str = "cosmic-applet-battery-display-brightness-off-symbolic";

/// The icon that stands for a brightness in percent.
pub open spec fn icon_for(brightness: u16) -> &'static str {
    if brightness > 66 {
        ICON_HIGH
    } else if brightness > 33 {
        ICON_MEDIUM
    } else if brightness > 0 {
        ICON_LOW
    } else {
        ICON_OFF
    }
}

/// Picks the icon for a brightness in percent.
pub fn brightness_icon(brightness: u16) -> (name: &'static str)
    ensures
        name == icon_for(brightness),
{
    if brightness > 66 {
        ICON_HIGH
    } else if brightness > 33 {
        ICON_MEDIUM
    } else if brightness > 0 {
        ICON_LOW
    } else {
        ICON_OFF
    }
}

} // verus!
