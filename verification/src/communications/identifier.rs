use vstd::prelude::*;
use vstd::std_specs::convert::FromSpecImpl;
use crate::hyped_core::config::{MeasurementId, MEASUREMENT_COUNT};

verus! {

/// What a CAN message is about; its code travels in the CAN identifier.
#[derive(Debug, Clone, Copy, PartialEq, Eq, Structural)]
pub enum MessageIdentifier {
    Measurement(MeasurementId),
    StateTransitionCommand,
    StateTransitionRequest,
    Heartbeat,
    Emergency,
}

impl MessageIdentifier {
    /// The code of an identifier: a measurement's index, or a fixed code
    /// just below 0x100 for the other kinds.
    pub open spec fn code_spec(self) -> u16 {
        match self {
            MessageIdentifier::Measurement(m) => m.index_spec(),
            MessageIdentifier::Heartbeat => 0xFD,
            MessageIdentifier::StateTransitionRequest => 0xFE,
            MessageIdentifier::StateTransitionCommand => 0xFF,
            MessageIdentifier::Emergency => 0xFC,
        }
    }

    /// The identifier with a given code, if any.
    pub open spec fn from_code_spec(code: u16) -> Option<MessageIdentifier> {
        if code == 0xFF {
            Some(MessageIdentifier::StateTransitionCommand)
        } else if code == 0xFE {
            Some(MessageIdentifier::StateTransitionRequest)
        } else if code == 0xFD {
            Some(MessageIdentifier::Heartbeat)
        } else if code == 0xFC {
            Some(MessageIdentifier::Emergency)
        } else {
            match MeasurementId::from_index_spec(code) {
                Some(m) => Some(MessageIdentifier::Measurement(m)),
                None => None,
            }
        }
    }

    /// The code of the identifier.
    pub fn code(&self) -> (r: u16)
        ensures
            r == self.code_spec(),
    {
        match self {
            MessageIdentifier::Measurement(m) => m.index(),
            MessageIdentifier::Heartbeat => 0xFD,
            MessageIdentifier::StateTransitionRequest => 0xFE,
            MessageIdentifier::StateTransitionCommand => 0xFF,
            MessageIdentifier::Emergency => 0xFC,
        }
    }

    /// The identifier with the given code; the code must name one.
    pub fn from_code(code: u16) -> (r: MessageIdentifier)
        requires
            MessageIdentifier::from_code_spec(code) is Some,
        ensures
            Some(r) == MessageIdentifier::from_code_spec(code),
    {
        match code {
            0xFF => MessageIdentifier::StateTransitionCommand,
            0xFE => MessageIdentifier::StateTransitionRequest,
            0xFD => MessageIdentifier::Heartbeat,
            0xFC => MessageIdentifier::Emergency,
            _ => MessageIdentifier::Measurement(MeasurementId::from_index(code)),
        }
    }
}

impl From<MessageIdentifier> for u16 {
    fn from(id: MessageIdentifier) -> (r: u16) {
        id.code()
    }
}

impl FromSpecImpl<MessageIdentifier> for u16 {
    open spec fn obeys_from_spec() -> bool {
        true
    }

    open spec fn from_spec(v: MessageIdentifier) -> u16 {
        v.code_spec()
    }
}

/// Every identifier's code is below 0x100 and decodes to the identifier; a code
/// that decodes has the decoded identifier's code.
pub proof fn lemma_identifier_code_roundtrip(id: MessageIdentifier, code: u16)
    ensures
        MessageIdentifier::from_code_spec(id.code_spec()) == Some(id),
        id.code_spec() < 0x100,
        MessageIdentifier::from_code_spec(code) matches Some(i) ==> i.code_spec() == code,
{
    crate::hyped_core::config::lemma_measurement_index_roundtrip(
        MeasurementId::Acceleration,
        code,
    );
    if let MessageIdentifier::Measurement(m) = id {
        crate::hyped_core::config::lemma_measurement_index_roundtrip(m, code);
    }
}

/// The fixed message codes: 0xFF for a state transition command, 0xFE for a
/// request, 0xFD for a heartbeat and 0xFC for an emergency, each decoding back
/// to its kind; a measurement's code is its index (0 for acceleration, 1 for
/// thermistor 1); every other code names nothing.
pub proof fn lemma_identifier_codes(code: u16)
    ensures
        MessageIdentifier::StateTransitionCommand.code_spec() == 0xFF,
        MessageIdentifier::StateTransitionRequest.code_spec() == 0xFE,
        MessageIdentifier::Heartbeat.code_spec() == 0xFD,
        MessageIdentifier::Emergency.code_spec() == 0xFC,
        MessageIdentifier::Measurement(MeasurementId::Acceleration).code_spec() == 0,
        MessageIdentifier::Measurement(MeasurementId::Thermistor1).code_spec() == 1,
        MessageIdentifier::from_code_spec(0xFF) == Some(MessageIdentifier::StateTransitionCommand),
        MessageIdentifier::from_code_spec(0xFE) == Some(MessageIdentifier::StateTransitionRequest),
        MessageIdentifier::from_code_spec(0xFD) == Some(MessageIdentifier::Heartbeat),
        MessageIdentifier::from_code_spec(0xFC) == Some(MessageIdentifier::Emergency),
        MessageIdentifier::from_code_spec(0) == Some(
            MessageIdentifier::Measurement(MeasurementId::Acceleration),
        ),
        MessageIdentifier::from_code_spec(1) == Some(
            MessageIdentifier::Measurement(MeasurementId::Thermistor1),
        ),
        code > 1 && code < 0xFC ==> MessageIdentifier::from_code_spec(code) is None,
        code > 0xFF ==> MessageIdentifier::from_code_spec(code) is None,
{
}

} // verus!
