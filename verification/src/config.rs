//! Identity of this device in Home Assistant.
use vstd::prelude::*;

verus! {

/// Device identifier used in discovery topics and unique entity ids.
pub const HA_DEVICE_ID: &'static str = "wooden_box";

/// Human-readable device name shown in Home Assistant.
pub const HA_DEVICE_NAME: &'static str = "Wooden Box";

} // verus!
