//! What a USB hotplug event means for the dials.
use vstd::prelude::*;
use crate::dial::same_text;

verus! {

/// Whether, and against which service, hotplug events are handled.
#[derive(Clone, Debug)]
pub struct HotplugSettings {
    pub enabled: bool,
    /// The service unit of the dial control server.
    pub hotplug_service: String,
}

/// The kind of a device event.
#[derive(Copy, Clone, Debug, PartialEq, Eq, Structural)]
pub enum DeviceEventType {
    Add,
    Change,
    Remove,
    Other,
}

/// What to do about a device event.
#[derive(Copy, Clone, Debug, PartialEq, Eq, Structural)]
pub enum HotplugAction {
    /// Not the dial hub, or an event that changes nothing.
    Ignore,
    /// The hub went away: write `false` to the running signal.
    Pause,
    /// The hub came back: restart the server, then write `true`.
    RestartThenResume,
}

/// A device is taken for the hub when its vendor is the hub's serial
/// adapter vendor (`0403`) and its model property is not `6015`.
pub open spec fn is_hub(vendor: Option<Seq<char>>, model: Option<Seq<char>>) -> bool {
    vendor == Some("0403"@) && model != Some("6015"@)
}

pub open spec fn spec_hotplug_action(
    event: DeviceEventType,
    vendor: Option<Seq<char>>,
    model: Option<Seq<char>>,
) -> HotplugAction {
    if !is_hub(vendor, model) {
        HotplugAction::Ignore
    } else {
        match event {
            DeviceEventType::Remove => HotplugAction::Pause,
            DeviceEventType::Add | DeviceEventType::Change => HotplugAction::RestartThenResume,
            DeviceEventType::Other => HotplugAction::Ignore,
        }
    }
}

pub open spec fn text_of(s: Option<&str>) -> Option<Seq<char>> {
    match s {
        Some(t) => Some(t@),
        None => None,
    }
}

pub fn hotplug_action(event: DeviceEventType, vendor: Option<&str>, model: Option<&str>) -> (r:
    HotplugAction)
    ensures
        r == spec_hotplug_action(event, text_of(vendor), text_of(model)),
{
    proof {
        reveal_strlit("0403");
        reveal_strlit("6015");
    }
    let vendor_matches = match vendor {
        Some(v) => same_text(v, "0403"),
        None => false,
    };
    let model_matches = match model {
        Some(m) => same_text(m, "6015"),
        None => false,
    };
    if !vendor_matches || model_matches {
        return HotplugAction::Ignore;
    }
    match event {
        DeviceEventType::Remove => HotplugAction::Pause,
        DeviceEventType::Add | DeviceEventType::Change => HotplugAction::RestartThenResume,
        DeviceEventType::Other => HotplugAction::Ignore,
    }
}

} // verus!
