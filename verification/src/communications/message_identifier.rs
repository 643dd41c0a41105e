use vstd::prelude::*;
use vstd::std_specs::convert::FromSpecImpl;
use vstd::std_specs::convert::TryFromSpecImpl;
use crate::hyped_core::config::MeasurementId;

verus! {

/// What a CAN message is about, with codes at the top of the 12-bit range
/// for the kinds that are not measurements.
#[derive(Debug, Clone, Copy, PartialEq, Eq, Structural)]
pub enum MessageIdentifier {
    Measurement(MeasurementId),
    StateTransitionCommand,
    StateTransitionRequest,
    Heartbeat,
    Emergency,
}

/// The largest 12-bit message identifier.
pub const MAX_MESSAGE_IDENTIFIER: u16 = 0xFFF;

pub const STATE_TRANSITION_COMMAND_ID: u16 = 0xFFE;

pub const STATE_TRANSITION_REQUEST_ID: u16 = 0xFFD;

pub const HEARTBEAT_ID: u16 = 0xFFC;

pub const EMERGENCY_ID: u16 = 0xFFB;

impl MessageIdentifier {
    /// The code of an identifier.
    pub open spec fn code_spec(self) -> u16 {
        match self {
            MessageIdentifier::Measurement(m) => m.index_spec(),
            MessageIdentifier::Emergency => EMERGENCY_ID,
            MessageIdentifier::Heartbeat => HEARTBEAT_ID,
            MessageIdentifier::StateTransitionRequest => STATE_TRANSITION_REQUEST_ID,
            MessageIdentifier::StateTransitionCommand => STATE_TRANSITION_COMMAND_ID,
        }
    }

    /// The identifier with a given code, if any.
    pub open spec fn from_code_spec(code: u16) -> Option<MessageIdentifier> {
        if code == STATE_TRANSITION_COMMAND_ID {
            Some(MessageIdentifier::StateTransitionCommand)
        } else if code == STATE_TRANSITION_REQUEST_ID {
            Some(MessageIdentifier::StateTransitionRequest)
        } else if code == HEARTBEAT_ID {
            Some(MessageIdentifier::Heartbeat)
        } else if code == EMERGENCY_ID {
            Some(MessageIdentifier::Emergency)
        } else {
            match MeasurementId::from_index_spec(code) {
                Some(m) => Some(MessageIdentifier::Measurement(m)),
                None => None,
            }
        }
    }
}

impl From<MessageIdentifier> for u16 {
    fn from(id: MessageIdentifier) -> (r: u16) {
        match id {
            MessageIdentifier::Measurement(m) => m.index(),
            MessageIdentifier::Emergency => EMERGENCY_ID,
            MessageIdentifier::Heartbeat => HEARTBEAT_ID,
            MessageIdentifier::StateTransitionRequest => STATE_TRANSITION_REQUEST_ID,
            MessageIdentifier::StateTransitionCommand => STATE_TRANSITION_COMMAND_ID,
        }
    }
}

impl FromSpecImpl<MessageIdentifier> for u16 {
    open spec fn obeys_from_spec() -> bool {
        true
    }

    open spec fn from_spec(v: MessageIdentifier) -> u16 {
        v.code_spec()
    }
}

impl TryFrom<u16> for MessageIdentifier {
    type Error = &'static str;

    fn try_from(id: u16) -> (r: Result<MessageIdentifier, &'static str>) {
        match id {
            STATE_TRANSITION_COMMAND_ID => Ok(MessageIdentifier::StateTransitionCommand),
            STATE_TRANSITION_REQUEST_ID => Ok(MessageIdentifier::StateTransitionRequest),
            HEARTBEAT_ID => Ok(MessageIdentifier::Heartbeat),
            EMERGENCY_ID => Ok(MessageIdentifier::Emergency),
            _ => match MeasurementId::try_from(id) {
                Ok(measurement_id) => Ok(MessageIdentifier::Measurement(measurement_id)),
                Err(e) => Err(e),
            },
        }
    }
}

impl TryFromSpecImpl<u16> for MessageIdentifier {
    open spec fn obeys_try_from_spec() -> bool {
        true
    }

    open spec fn try_from_spec(v: u16) -> Result<MessageIdentifier, &'static str> {
        match MessageIdentifier::from_code_spec(v) {
            Some(i) => Ok(i),
            None => Err("Invalid measurement ID"),
        }
    }
}

/// Every identifier's code fits in twelve bits and decodes to the identifier;
/// a code that decodes has the decoded identifier's code.
pub proof fn lemma_message_identifier_roundtrip(id: MessageIdentifier, code: u16)
    ensures
        MessageIdentifier::from_code_spec(id.code_spec()) == Some(id),
        id.code_spec() <= MAX_MESSAGE_IDENTIFIER,
        MessageIdentifier::from_code_spec(code) matches Some(i) ==> i.code_spec() == code,
{
    crate::hyped_core::config::lemma_measurement_index_roundtrip(
        MeasurementId::Acceleration,
        code,
    );
    if let MessageIdentifier::Measurement(m) = id {
        crate::hyped_core::config::lemma_measurement_index_roundtrip(m, code);
    }
}

/// The fixed codes at the top of the 12-bit range: 0xFFE for a state
/// transition command, 0xFFD for a request, 0xFFC for a heartbeat and 0xFFB
/// for an emergency, each decoding back to its kind; a measurement's code is
/// its index (0 for acceleration, 1 for thermistor 1); every other code names
/// nothing.
pub proof fn lemma_message_identifier_codes(code: u16)
    ensures
        MessageIdentifier::StateTransitionCommand.code_spec() == 0xFFE,
        MessageIdentifier::StateTransitionRequest.code_spec() == 0xFFD,
        MessageIdentifier::Heartbeat.code_spec() == 0xFFC,
        MessageIdentifier::Emergency.code_spec() == 0xFFB,
        MessageIdentifier::Measurement(MeasurementId::Acceleration).code_spec() == 0,
        MessageIdentifier::Measurement(MeasurementId::Thermistor1).code_spec() == 1,
        MessageIdentifier::from_code_spec(0xFFE) == Some(MessageIdentifier::StateTransitionCommand),
        MessageIdentifier::from_code_spec(0xFFD) == Some(MessageIdentifier::StateTransitionRequest),
        MessageIdentifier::from_code_spec(0xFFC) == Some(MessageIdentifier::Heartbeat),
        MessageIdentifier::from_code_spec(0xFFB) == Some(MessageIdentifier::Emergency),
        MessageIdentifier::from_code_spec(0) == Some(
            MessageIdentifier::Measurement(MeasurementId::Acceleration),
        ),
        MessageIdentifier::from_code_spec(1) == Some(
            MessageIdentifier::Measurement(MeasurementId::Thermistor1),
        ),
        (code > 1 && code < 0xFFB) || code > 0xFFE ==> MessageIdentifier::from_code_spec(code) is None,
{
}

} // verus!
