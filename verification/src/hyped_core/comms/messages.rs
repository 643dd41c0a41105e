use vstd::prelude::*;
use vstd::std_specs::convert::FromSpecImpl;
use crate::hyped_can::HypedCanFrame;
use crate::hyped_core::comms::can_id::CanId;
use crate::hyped_core::comms::data::CanData;
use crate::hyped_core::comms::measurements::{MeasurementId, MeasurementReading};

verus! {

/// The messages that boards exchange over the CAN bus.
#[derive(PartialEq, Debug, Clone, Copy)]
pub enum CanMessage {
    MeasurementReading(MeasurementReading),
}

/// What a message is about; its code is the measurement's index.
#[derive(Debug, PartialEq, Eq, Clone, Copy, Structural)]
pub enum MessageIdentifier {
    Measurement(MeasurementId),
}

impl MessageIdentifier {
    /// The code of an identifier.
    pub open spec fn code_spec(self) -> u16 {
        match self {
            MessageIdentifier::Measurement(m) => m.index_spec(),
        }
    }

    /// The identifier with a given code, if any.
    pub open spec fn from_code_spec(code: u16) -> Option<MessageIdentifier> {
        match MeasurementId::from_index_spec(code) {
            Some(m) => Some(MessageIdentifier::Measurement(m)),
            None => None,
        }
    }

    /// The identifier with the given code; the code must name a measurement.
    pub fn from_code(code: u16) -> (r: MessageIdentifier)
        requires
            MessageIdentifier::from_code_spec(code) is Some,
        ensures
            Some(r) == MessageIdentifier::from_code_spec(code),
    {
        MessageIdentifier::Measurement(MeasurementId::from_index(code))
    }
}

impl From<MessageIdentifier> for u16 {
    fn from(id: MessageIdentifier) -> (r: u16) {
        match id {
            MessageIdentifier::Measurement(measurement_id) => measurement_id.index(),
        }
    }
}

impl FromSpecImpl<MessageIdentifier> for u16 {
    open spec fn obeys_from_spec() -> bool {
        true
    }

    open spec fn from_spec(v: MessageIdentifier) -> u16 {
        v.code_spec()
    }
}

/// Every identifier's code decodes to the identifier; a code that decodes has
/// the decoded identifier's code.
pub proof fn lemma_message_identifier_roundtrip(id: MessageIdentifier, code: u16)
    ensures
        MessageIdentifier::from_code_spec(id.code_spec()) == Some(id),
        MessageIdentifier::from_code_spec(code) matches Some(i) ==> i.code_spec() == code,
{
    crate::hyped_core::comms::measurements::lemma_measurement_index_roundtrip(
        id->Measurement_0,
        code,
    );
}

impl CanMessage {
    /// The identifier under which a message is sent.
    pub open spec fn can_id_spec(self) -> CanId {
        match self {
            CanMessage::MeasurementReading(m) => CanId {
                board: m.board,
                message_type: m.can_data_type,
                message_identifier: MessageIdentifier::Measurement(m.measurement_id),
            },
        }
    }

    /// The payload with which a message is sent.
    pub open spec fn payload_spec(self) -> CanData {
        match self {
            CanMessage::MeasurementReading(m) => m.reading,
        }
    }

    /// Whether a frame read from the bus stands for a message.
    pub open spec fn frame_decodable_spec(frame: HypedCanFrame) -> bool {
        &&& CanId::decodable_spec(frame.can_id)
        &&& frame.data@[0] < 4
    }

    /// The message that a decodable frame stands for.
    pub open spec fn from_frame_spec(frame: HypedCanFrame) -> CanMessage {
        let can_id = CanId::from_u32_spec(frame.can_id);
        CanMessage::MeasurementReading(
            MeasurementReading {
                reading: CanData::decode_spec(frame.data@),
                can_data_type: can_id.message_type,
                board: can_id.board,
                measurement_id: can_id.message_identifier->Measurement_0,
            },
        )
    }

    /// Converts the message into a frame ready to be sent over the CAN bus.
    pub fn to_frame(self) -> (r: HypedCanFrame)
        ensures
            r.can_id == self.can_id_spec().to_u32_spec(),
            r.data@ == self.payload_spec().encode_spec(),
    {
        match self {
            CanMessage::MeasurementReading(measurement_reading) => {
                let message_identifier = MessageIdentifier::Measurement(
                    measurement_reading.measurement_id,
                );
                let can_id = CanId::new(
                    measurement_reading.board,
                    measurement_reading.can_data_type,
                    message_identifier,
                );
                HypedCanFrame::new(can_id.to_u32(), measurement_reading.reading.to_bytes())
            },
        }
    }

    /// Converts a frame read from the CAN bus into a message; the frame must
    /// stand for one.
    pub fn from_frame(frame: HypedCanFrame) -> (r: CanMessage)
        requires
            CanMessage::frame_decodable_spec(frame),
        ensures
            r == CanMessage::from_frame_spec(frame),
    {
        let can_id = CanId::from_u32(frame.can_id);
        let reading = CanData::from_bytes(frame.data);
        match can_id.message_identifier {
            MessageIdentifier::Measurement(measurement_id) => {
                CanMessage::MeasurementReading(
                    MeasurementReading {
                        reading,
                        can_data_type: can_id.message_type,
                        board: can_id.board,
                        measurement_id,
                    },
                )
            },
        }
    }
}

/// Every message survives the trip through a CAN frame: the frame it is
/// converted into stands for a message, and that message is the one converted.
pub proof fn lemma_can_message_roundtrip(message: CanMessage, frame: HypedCanFrame)
    requires
        frame.can_id == message.can_id_spec().to_u32_spec(),
        frame.data@ == message.payload_spec().encode_spec(),
    ensures
        CanMessage::frame_decodable_spec(frame),
        CanMessage::from_frame_spec(frame) == message,
{
    crate::hyped_core::comms::can_id::lemma_can_id_roundtrip(message.can_id_spec());
    crate::hyped_core::comms::data::lemma_can_data_roundtrip(message.payload_spec());
}

/// The frame of a reading: the identifier is the board's index times 2^24,
/// plus the reading's declared data type index times 2^16, plus the
/// measurement's index; the payload is the reading's bytes.
pub proof fn lemma_message_frame_layout(message: CanMessage)
    ensures
        message matches CanMessage::MeasurementReading(m) ==> {
            &&& message.can_id_spec().to_u32_spec() == m.board.index_spec() * 0x100_0000
                + m.can_data_type.index_spec() * 0x1_0000 + m.measurement_id.index_spec()
            &&& message.payload_spec().encode_spec() == m.reading.encode_spec()
        },
{
    crate::hyped_core::comms::can_id::lemma_can_id_value(message.can_id_spec());
}

} // verus!
