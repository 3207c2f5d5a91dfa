//! Power LED decisions. The LED is active-low: it is lit (line driven low)
//! while the controlled target is powered on and dark (high) otherwise.

use vstd::prelude::*;

verus! {

/// Output level of a GPIO line.
#[derive(Debug, Clone, Copy, PartialEq, Eq, Structural)]
pub enum Level {
    Low,
    High,
}

/// Line level showing the power state on the LED.
pub open spec fn spec_led_level(power_on: bool) -> Level {
    if power_on { Level::Low } else { Level::High }
}

/// Line level showing the power state on the LED.
pub fn led_level(power_on: bool) -> (r: Level)
    ensures
        r == spec_led_level(power_on),
{
    if power_on {
        Level::Low
    } else {
        Level::High
    }
}

/// Follows the power flag by polling and drives the LED only on changes.
#[derive(Debug, Clone, Copy)]
pub struct LedTracker {
    /// Power state currently shown by the LED.
    pub last_state: bool,
}

impl LedTracker {
    /// Starts tracking: the LED is set to the current state.
    pub fn new(power_on: bool) -> (r: (LedTracker, Level))
        ensures
            r.0.last_state == power_on,
            r.1 == spec_led_level(power_on),
    {
        (LedTracker { last_state: power_on }, led_level(power_on))
    }

    /// One poll of the power flag: a new level when the state changed.
    pub fn poll(&mut self, power_on: bool) -> (r: Option<Level>)
        ensures
            final(self).last_state == power_on,
            r == if power_on != old(self).last_state { Some(spec_led_level(power_on)) } else { None },
    {
        if power_on != self.last_state {
            self.last_state = power_on;
            Some(led_level(power_on))
        } else {
            None
        }
    }
}

} // verus!
