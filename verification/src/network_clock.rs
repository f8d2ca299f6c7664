//! The millisecond clock that the TCP stack uses for timeouts and
//! retransmissions.
use vstd::prelude::*;

verus! {

/// Clock ticking once per millisecond (a scaling factor of 1/1000 second per
/// tick) since boot, held in 32 bits.
pub struct EspClock;

/// Numerator of the clock's scaling factor (seconds per tick).
pub const SCALING_NUMERATOR: u32 = 1;

/// Denominator of the clock's scaling factor (seconds per tick).
pub const SCALING_DENOMINATOR: u32 = 1000;

impl EspClock {
    /// The tick count for `millis_since_boot` milliseconds since boot: the
    /// count wraps around in 32 bits (after about 49 days of uptime).
    pub fn try_now(&self, millis_since_boot: u64) -> (ticks: u32)
        ensures
            ticks as int == millis_since_boot as int % 0x1_0000_0000,
    {
        (millis_since_boot % 0x1_0000_0000) as u32
    }
}

} // verus!
