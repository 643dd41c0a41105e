use vstd::prelude::*;
use vstd::std_specs::convert::TryFromSpecImpl;

verus! {

/// Reason for the emergency stop; its wire code runs from 1 in declaration order.
#[derive(Debug, Clone, Copy, PartialEq, Eq, Structural)]
pub enum Reason {
    Unknown,
    Test,
    CriticalTemperatureLimit,
    NoInitialHeartbeat,
    MissingHeartbeat,
    TemperatureUpperLimitFailure,
    TemperatureLowerLimitFailure,
}

impl Reason {
    /// Wire code of a reason.
    pub open spec fn code_spec(self) -> u8 {
        match self {
            Reason::Unknown => 1,
            Reason::Test => 2,
            Reason::CriticalTemperatureLimit => 3,
            Reason::NoInitialHeartbeat => 4,
            Reason::MissingHeartbeat => 5,
            Reason::TemperatureUpperLimitFailure => 6,
            Reason::TemperatureLowerLimitFailure => 7,
        }
    }

    /// The reason with a given wire code, if any.
    pub open spec fn from_code_spec(code: u8) -> Option<Reason> {
        if code == 1 {
            Some(Reason::Unknown)
        } else if code == 2 {
            Some(Reason::Test)
        } else if code == 3 {
            Some(Reason::CriticalTemperatureLimit)
        } else if code == 4 {
            Some(Reason::NoInitialHeartbeat)
        } else if code == 5 {
            Some(Reason::MissingHeartbeat)
        } else if code == 6 {
            Some(Reason::TemperatureUpperLimitFailure)
        } else if code == 7 {
            Some(Reason::TemperatureLowerLimitFailure)
        } else {
            None
        }
    }

    /// Wire code of the reason.
    pub fn code(self) -> (r: u8)
        ensures
            r == self.code_spec(),
    {
        match self {
            Reason::Unknown => 1,
            Reason::Test => 2,
            Reason::CriticalTemperatureLimit => 3,
            Reason::NoInitialHeartbeat => 4,
            Reason::MissingHeartbeat => 5,
            Reason::TemperatureUpperLimitFailure => 6,
            Reason::TemperatureLowerLimitFailure => 7,
        }
    }
}

impl TryFrom<u8> for Reason {
    type Error = &'static str;

    fn try_from(value: u8) -> (r: Result<Reason, &'static str>) {
        match value {
            1 => Ok(Reason::Unknown),
            2 => Ok(Reason::Test),
            3 => Ok(Reason::CriticalTemperatureLimit),
            4 => Ok(Reason::NoInitialHeartbeat),
            5 => Ok(Reason::MissingHeartbeat),
            6 => Ok(Reason::TemperatureUpperLimitFailure),
            7 => Ok(Reason::TemperatureLowerLimitFailure),
            _ => Err("Invalid reason for emergency stop"),
        }
    }
}

impl TryFromSpecImpl<u8> for Reason {
    open spec fn obeys_try_from_spec() -> bool {
        true
    }

    open spec fn try_from_spec(v: u8) -> Result<Reason, &'static str> {
        match Reason::from_code_spec(v) {
            Some(r) => Ok(r),
            None => Err("Invalid reason for emergency stop"),
        }
    }
}

/// Decoding the code of a reason gives it back; the codes that decode are 1 to 7.
pub proof fn lemma_reason_code_roundtrip(reason: Reason, code: u8)
    ensures
        Reason::from_code_spec(reason.code_spec()) == Some(reason),
        Reason::from_code_spec(code) is Some <==> 1 <= code <= 7,
        Reason::from_code_spec(code) matches Some(r) ==> r.code_spec() == code,
{
}

/// The reasons for an emergency stop have the codes 1 to 7 in declaration
/// order; 0 and codes above 7 name no reason.
pub proof fn lemma_reason_codes(code: u8)
    ensures
        Reason::Unknown.code_spec() == 1,
        Reason::Test.code_spec() == 2,
        Reason::CriticalTemperatureLimit.code_spec() == 3,
        Reason::NoInitialHeartbeat.code_spec() == 4,
        Reason::MissingHeartbeat.code_spec() == 5,
        Reason::TemperatureUpperLimitFailure.code_spec() == 6,
        Reason::TemperatureLowerLimitFailure.code_spec() == 7,
        Reason::from_code_spec(code) is Some <==> 1 <= code <= 7,
{
}

} // verus!
