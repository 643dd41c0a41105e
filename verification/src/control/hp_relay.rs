use vstd::prelude::*;
use crate::control::gpio::HypedGpioOutputPin;
use crate::hyped_core::types::DigitalSignal;

verus! {

/// Controls the high power relay by switching it on and off using a GPIO pin.
pub struct HighPowerRelay<'a, T: HypedGpioOutputPin> {
    gpio: &'a mut T,
}

impl<'a, T: HypedGpioOutputPin> HighPowerRelay<'a, T> {
    /// The pin that the relay drives: the reference it was made with, whose
    /// final value is the level the relay leaves on the caller's pin.
    pub closed spec fn pin(&self) -> &'a mut T {
        self.gpio
    }

    pub fn new(gpio: &'a mut T) -> (relay: HighPowerRelay<'a, T>)
        ensures
            *relay.pin() == *old(gpio),
            *final(relay.pin()) == *final(gpio),
    {
        HighPowerRelay { gpio }
    }

    /// Switches the relay on by setting the GPIO pin high.
    pub fn switch_on(&mut self)
        ensures
            final(self).pin().level() == DigitalSignal::High,
            *final(final(self).pin()) == *final(old(self).pin()),
    {
        self.gpio.set_high();
    }

    /// Switches the relay off by setting the GPIO pin low.
    pub fn switch_off(&mut self)
        ensures
            final(self).pin().level() == DigitalSignal::Low,
            *final(final(self).pin()) == *final(old(self).pin()),
    {
        self.gpio.set_low();
    }
}

/// Once a relay will not be used again, its pin holds its final value: the
/// level the relay left on it is the level the caller's pin ends with.
pub proof fn lemma_relay_released<'a, T: HypedGpioOutputPin>(relay: HighPowerRelay<'a, T>)
    requires
        has_resolved(relay),
    ensures
        *relay.pin() == *final(relay.pin()),
{
}

} // verus!
