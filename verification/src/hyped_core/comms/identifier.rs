use vstd::prelude::*;
use vstd::std_specs::convert::FromSpecImpl;
use crate::hyped_core::comms::measurements::MeasurementId;

verus! {

/// What a message is about, with fixed codes just below 0x100 for the
/// kinds that are not measurements.
#[derive(Debug, PartialEq, Eq, Clone, Copy, Structural)]
pub enum MessageIdentifier {
    Measurement(MeasurementId),
    StateTransition,
    StateTransitionRequest,
    Heartbeat,
}

impl MessageIdentifier {
    /// The code of an identifier.
    pub open spec fn code_spec(self) -> u16 {
        match self {
            MessageIdentifier::Measurement(m) => m.index_spec(),
            MessageIdentifier::Heartbeat => 0xFD,
            MessageIdentifier::StateTransitionRequest => 0xFE,
            MessageIdentifier::StateTransition => 0xFF,
        }
    }

    /// The identifier with a given code, if any.
    pub open spec fn from_code_spec(code: u16) -> Option<MessageIdentifier> {
        if code == 0xFF {
            Some(MessageIdentifier::StateTransition)
        } else if code == 0xFE {
            Some(MessageIdentifier::StateTransitionRequest)
        } else if code == 0xFD {
            Some(MessageIdentifier::Heartbeat)
        } else {
            match MeasurementId::from_index_spec(code) {
                Some(m) => Some(MessageIdentifier::Measurement(m)),
                None => None,
            }
        }
    }

    /// The identifier with the given code; the code must name one.
    pub fn from_code(code: u16) -> (r: MessageIdentifier)
        requires
            MessageIdentifier::from_code_spec(code) is Some,
        ensures
            Some(r) == MessageIdentifier::from_code_spec(code),
    {
        match code {
            0xFF => MessageIdentifier::StateTransition,
            0xFE => MessageIdentifier::StateTransitionRequest,
            0xFD => MessageIdentifier::Heartbeat,
            _ => MessageIdentifier::Measurement(MeasurementId::from_index(code)),
        }
    }
}

impl From<MessageIdentifier> for u16 {
    fn from(id: MessageIdentifier) -> (r: u16) {
        match id {
            MessageIdentifier::Measurement(measurement_id) => measurement_id.index(),
            MessageIdentifier::Heartbeat => 0xFD,
            MessageIdentifier::StateTransitionRequest => 0xFE,
            MessageIdentifier::StateTransition => 0xFF,
        }
    }
}

impl FromSpecImpl<MessageIdentifier> for u16 {
    open spec fn obeys_from_spec() -> bool {
        true
    }

    open spec fn from_spec(v: MessageIdentifier) -> u16 {
        v.code_spec()
    }
}

/// Every identifier's code decodes to the identifier; a code that decodes has
/// the decoded identifier's code.
pub proof fn lemma_identifier_code_roundtrip(id: MessageIdentifier, code: u16)
    ensures
        MessageIdentifier::from_code_spec(id.code_spec()) == Some(id),
        MessageIdentifier::from_code_spec(code) matches Some(i) ==> i.code_spec() == code,
{
    crate::hyped_core::comms::measurements::lemma_measurement_index_roundtrip(
        MeasurementId::Temperature,
        code,
    );
    if let MessageIdentifier::Measurement(m) = id {
        crate::hyped_core::comms::measurements::lemma_measurement_index_roundtrip(m, code);
    }
}

/// The fixed message codes: 0xFF for a state transition, 0xFE for a request
/// and 0xFD for a heartbeat, each decoding back to its kind; a measurement's
/// code is its index.
pub proof fn lemma_identifier_codes()
    ensures
        MessageIdentifier::StateTransition.code_spec() == 0xFF,
        MessageIdentifier::StateTransitionRequest.code_spec() == 0xFE,
        MessageIdentifier::Heartbeat.code_spec() == 0xFD,
        MessageIdentifier::Measurement(MeasurementId::Temperature).code_spec() == 0,
        MessageIdentifier::from_code_spec(0xFF) == Some(MessageIdentifier::StateTransition),
        MessageIdentifier::from_code_spec(0xFE) == Some(MessageIdentifier::StateTransitionRequest),
        MessageIdentifier::from_code_spec(0xFD) == Some(MessageIdentifier::Heartbeat),
{
}

} // verus!
