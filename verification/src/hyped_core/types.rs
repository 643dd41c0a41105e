use vstd::prelude::*;
use vstd::std_specs::convert::FromSpecImpl;

verus! {

/// The level of a digital signal.
#[derive(PartialEq, Eq, Debug, Clone, Copy, Structural)]
pub enum DigitalSignal {
    High,
    Low,
}

impl DigitalSignal {
    /// `High` for `true`, `Low` for `false`.
    pub open spec fn from_bool_spec(signal: bool) -> DigitalSignal {
        if signal {
            DigitalSignal::High
        } else {
            DigitalSignal::Low
        }
    }

    pub fn from_bool(signal: bool) -> (r: DigitalSignal)
        ensures
            r == DigitalSignal::from_bool_spec(signal),
    {
        if signal {
            DigitalSignal::High
        } else {
            DigitalSignal::Low
        }
    }
}

impl From<DigitalSignal> for bool {
    fn from(signal: DigitalSignal) -> (r: bool) {
        match signal {
            DigitalSignal::High => true,
            DigitalSignal::Low => false,
        }
    }
}

impl FromSpecImpl<DigitalSignal> for bool {
    open spec fn obeys_from_spec() -> bool {
        true
    }

    open spec fn from_spec(v: DigitalSignal) -> bool {
        v == DigitalSignal::High
    }
}

/// Converting a bool to a signal and back gives the bool, and the other way round.
pub proof fn lemma_digital_signal_roundtrip(signal: DigitalSignal, b: bool)
    ensures
        (DigitalSignal::from_bool_spec(b) == DigitalSignal::High) == b,
        DigitalSignal::from_bool_spec(signal == DigitalSignal::High) == signal,
{
}

/// `true` is the high level and `false` the low one, in both directions.
pub proof fn lemma_digital_signal_levels()
    ensures
        DigitalSignal::from_bool_spec(true) == DigitalSignal::High,
        DigitalSignal::from_bool_spec(false) == DigitalSignal::Low,
        <bool as vstd::std_specs::convert::FromSpec<DigitalSignal>>::from_spec(DigitalSignal::High) == true,
        <bool as vstd::std_specs::convert::FromSpec<DigitalSignal>>::from_spec(DigitalSignal::Low) == false,
{
}

} // verus!
