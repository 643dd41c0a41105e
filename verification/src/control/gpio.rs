use vstd::prelude::*;
use crate::hyped_core::types::DigitalSignal;

verus! {

/// A GPIO output pin that can be driven high or low.
///
/// `level` is the signal that the pin currently drives.
pub trait HypedGpioOutputPin {
    spec fn level(&self) -> DigitalSignal;

    /// Drives the pin high.
    fn set_high(&mut self)
        ensures
            final(self).level() == DigitalSignal::High,
    ;

    /// Drives the pin low.
    fn set_low(&mut self)
        ensures
            final(self).level() == DigitalSignal::Low,
    ;
}

/// An output pin that only records the level it was last set to.
#[derive(Debug, Clone, Copy)]
pub struct MockGpioOutputPin {
    current_value: DigitalSignal,
}

impl MockGpioOutputPin {
    /// The level the pin was last set to.
    pub fn get_value(&self) -> (r: DigitalSignal)
        ensures
            r == self.level(),
    {
        self.current_value
    }
}

impl Default for MockGpioOutputPin {
    /// A pin that starts low.
    fn default() -> (r: Self)
        ensures
            r.level() == DigitalSignal::Low,
    {
        MockGpioOutputPin { current_value: DigitalSignal::Low }
    }
}

impl HypedGpioOutputPin for MockGpioOutputPin {
    closed spec fn level(&self) -> DigitalSignal {
        self.current_value
    }

    fn set_high(&mut self) {
        self.current_value = DigitalSignal::High;
    }

    fn set_low(&mut self) {
        self.current_value = DigitalSignal::Low;
    }
}

} // verus!
