//! Decisions of the board around the MQTT loop: the push button, the LEDs,
//! and what happens after a panic.
use vstd::prelude::*;
use crate::text::occurs_at_exec;

verus! {

/// Time that must have passed since the last reported press before another
/// one is reported, in microseconds (200 ms).
pub const DEBOUNCE_US: u64 = 200_000;

/// The push button (wired to ground, so pressed reads low).
pub struct ButtonDebouncer {
    /// Whether the button was held low when a press was last taken into
    /// account, and has not been released since.
    pub prev_low: bool,
}

/// One poll of the button: whether a press is reported, and whether the
/// button then counts as held.
pub open spec fn button_step(prev_low: bool, is_low: bool, us_since_last_press: u64) -> (
    bool,
    bool,
) {
    if is_low && !prev_low && us_since_last_press > DEBOUNCE_US {
        (true, true)
    } else if !is_low {
        (false, false)
    } else {
        (false, prev_low)
    }
}

impl ButtonDebouncer {
    /// A button not held.
    pub fn new() -> (b: Self)
        ensures
            !b.prev_low,
    {
        ButtonDebouncer { prev_low: false }
    }

    /// Polls the button: `is_low` is its level now, `us_since_last_press` the
    /// time since the last reported press, in microseconds. A press is
    /// reported when the button is low, was not held, and more than
    /// `DEBOUNCE_US` have passed;
    /// it then counts as held until it reads high again.
    pub fn poll(&mut self, is_low: bool, us_since_last_press: u64) -> (pressed: bool)
        ensures
            (pressed, final(self).prev_low) == button_step(
                old(self).prev_low,
                is_low,
                us_since_last_press,
            ),
    {
        if is_low && !self.prev_low && us_since_last_press > DEBOUNCE_US {
            self.prev_low = true;
            true
        } else {
            if !is_low {
                self.prev_low = false;
            }
            false
        }
    }
}

/// Holding the button down reports one press: once a press is reported, no
/// poll reports another until a poll reads the button high.
pub proof fn lemma_held_button_reports_once(prev_low: bool, us1: u64, us2: u64)
    ensures
        button_step(prev_low, true, us1).0 ==> !button_step(button_step(prev_low, true, us1).1, true, us2).0,
        button_step(true, true, us2) == (false, true),
        button_step(prev_low, false, us1) == (false, false),
{
}

/// A press is reported only after the debounce time has passed.
pub proof fn lemma_press_needs_debounce(prev_low: bool, is_low: bool, us: u64)
    ensures
        button_step(prev_low, is_low, us).0 ==> us > DEBOUNCE_US && is_low && !prev_low,
{
}

/// Every poll of the button, for any time since the last press: a press is
/// reported exactly when the button reads low, was not held, and more than
/// 200 ms have passed, and the button then counts as held; a button that
/// reads high counts as released; a button still held stays held.
pub proof fn lemma_button_poll(prev_low: bool, is_low: bool, us: u64)
    ensures
        is_low && !prev_low && us > 200_000 ==> button_step(prev_low, is_low, us) == (true, true),
        is_low && !prev_low && us <= 200_000 ==> button_step(prev_low, is_low, us) == (false, false),
        is_low && prev_low ==> button_step(prev_low, is_low, us) == (false, true),
        !is_low ==> button_step(prev_low, is_low, us) == (false, false),
{
}

/// The level of the lights LED after command `(switch_id, on)`: only the
/// `lights_on` automation drives it, high when on.
pub fn lights_led_level(switch_id: &str, on: bool) -> (level: Option<bool>)
    ensures
        level == (if switch_id@ == "lights_on"@ {
            Some(on)
        } else {
            None
        }),
{
    let n = switch_id.unicode_len();
    let lights = "lights_on";
    let is_lights = n == lights.unicode_len() && occurs_at_exec(switch_id, n, 0, lights);
    proof {
        if is_lights {
            assert(switch_id@ =~= switch_id@.subrange(0, n as int));
        }
        if switch_id@ == "lights_on"@ {
            assert(switch_id@.subrange(0, n as int) =~= switch_id@);
        }
    }
    if is_lights {
        Some(on)
    } else {
        None
    }
}

/// The panic handler's decision, taken on each turn of its wait: whether to
/// resume. It never does, so the handler waits forever.
pub fn panic() -> (resume: bool)
    ensures
        !resume,
{
    false
}

} // verus!
