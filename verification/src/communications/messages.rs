use vstd::prelude::*;
use crate::communications::boards::Board;
use crate::communications::can_id::CanId;
use crate::communications::data::{CanData, CanDataType};
use crate::communications::heartbeat::Heartbeat;
use crate::communications::identifier::MessageIdentifier;
use crate::communications::measurements::MeasurementReading;
use crate::communications::state_transition::{StateTransitionCommand, StateTransitionRequest};
use crate::hyped_can::HypedCanFrame;

verus! {

/// The messages that boards exchange over the CAN bus.
#[derive(PartialEq, Debug, Clone, Copy)]
pub enum CanMessage {
    MeasurementReading(MeasurementReading),
    StateTransitionCommand(StateTransitionCommand),
    StateTransitionRequest(StateTransitionRequest),
    Heartbeat(Heartbeat),
}

impl CanMessage {
    /// The identifier under which a message is sent.
    pub open spec fn can_id_spec(self) -> CanId {
        match self {
            CanMessage::MeasurementReading(m) => CanId {
                priority: false,
                board: m.board,
                message_data_type: m.reading.data_type_spec(),
                message_identifier: MessageIdentifier::Measurement(m.measurement_id),
            },
            CanMessage::StateTransitionCommand(c) => CanId {
                priority: false,
                board: c.from_board,
                message_data_type: CanDataType::State,
                message_identifier: MessageIdentifier::StateTransitionCommand,
            },
            CanMessage::StateTransitionRequest(r) => CanId {
                priority: false,
                board: r.requesting_board,
                message_data_type: CanDataType::State,
                message_identifier: MessageIdentifier::StateTransitionRequest,
            },
            CanMessage::Heartbeat(h) => CanId {
                priority: false,
                board: h.from,
                message_data_type: CanDataType::Heartbeat,
                message_identifier: MessageIdentifier::Heartbeat,
            },
        }
    }

    /// The payload with which a message is sent.
    pub open spec fn payload_spec(self) -> CanData {
        match self {
            CanMessage::MeasurementReading(m) => m.reading,
            CanMessage::StateTransitionCommand(c) => CanData::State(c.to_state),
            CanMessage::StateTransitionRequest(r) => CanData::State(r.to_state),
            CanMessage::Heartbeat(h) => CanData::Heartbeat(h.to),
        }
    }

    /// Whether a frame read from the bus stands for a message: its identifier
    /// decodes to a kind other than an emergency, its payload decodes, and a
    /// state transition carries a state and a heartbeat carries a board.
    pub open spec fn frame_decodable_spec(frame: HypedCanFrame) -> bool {
        &&& CanId::decodable_spec(frame.can_id)
        &&& CanData::decodable_spec(frame.data@)
        &&& match CanId::from_u32_spec(frame.can_id).message_identifier {
            MessageIdentifier::Measurement(_) => true,
            MessageIdentifier::StateTransitionCommand => frame.data@[0] == 3,
            MessageIdentifier::StateTransitionRequest => frame.data@[0] == 3,
            MessageIdentifier::Heartbeat => frame.data@[0] == 5,
            MessageIdentifier::Emergency => false,
        }
    }

    /// The message that a decodable frame stands for.
    pub open spec fn from_frame_spec(frame: HypedCanFrame) -> CanMessage {
        let can_id = CanId::from_u32_spec(frame.can_id);
        let board = can_id.board;
        let reading = CanData::decode_spec(frame.data@);
        match can_id.message_identifier {
            MessageIdentifier::Measurement(measurement_id) => CanMessage::MeasurementReading(
                MeasurementReading { reading, board, measurement_id },
            ),
            MessageIdentifier::StateTransitionCommand => CanMessage::StateTransitionCommand(
                StateTransitionCommand { from_board: board, to_state: reading->State_0 },
            ),
            MessageIdentifier::StateTransitionRequest => CanMessage::StateTransitionRequest(
                StateTransitionRequest { requesting_board: board, to_state: reading->State_0 },
            ),
            _ => CanMessage::Heartbeat(Heartbeat { to: reading->Heartbeat_0, from: board }),
        }
    }

    /// Converts the message into a frame ready to be sent over the CAN bus.
    pub fn to_frame(self) -> (r: HypedCanFrame)
        ensures
            r.can_id == self.can_id_spec().to_u32_spec(),
            r.data@ == self.payload_spec().encode_spec(),
    {
        match self {
            CanMessage::MeasurementReading(measurement_reading) => {
                let message_identifier = MessageIdentifier::Measurement(
                    measurement_reading.measurement_id,
                );
                let can_id = CanId::new(
                    measurement_reading.board,
                    measurement_reading.reading.data_type(),
                    message_identifier,
                );
                HypedCanFrame::new(can_id.to_u32(), measurement_reading.reading.to_bytes())
            },
            CanMessage::StateTransitionCommand(state_transition) => {
                let can_id = CanId::new(
                    state_transition.from_board,
                    CanDataType::State,
                    MessageIdentifier::StateTransitionCommand,
                );
                HypedCanFrame::new(can_id.to_u32(), CanData::State(state_transition.to_state).to_bytes())
            },
            CanMessage::StateTransitionRequest(state_transition) => {
                let can_id = CanId::new(
                    state_transition.requesting_board,
                    CanDataType::State,
                    MessageIdentifier::StateTransitionRequest,
                );
                HypedCanFrame::new(can_id.to_u32(), CanData::State(state_transition.to_state).to_bytes())
            },
            CanMessage::Heartbeat(heartbeat) => {
                let can_id = CanId::new(
                    heartbeat.from,
                    CanDataType::Heartbeat,
                    MessageIdentifier::Heartbeat,
                );
                HypedCanFrame::new(can_id.to_u32(), CanData::Heartbeat(heartbeat.to).to_bytes())
            },
        }
    }

    /// Converts a frame read from the CAN bus into a message; the frame must
    /// stand for one.
    pub fn from_frame(frame: HypedCanFrame) -> (r: CanMessage)
        requires
            CanMessage::frame_decodable_spec(frame),
        ensures
            r == CanMessage::from_frame_spec(frame),
    {
        let can_id = CanId::from_u32(frame.can_id);
        let board: Board = can_id.board;
        let reading = CanData::from_bytes(frame.data);
        match can_id.message_identifier {
            MessageIdentifier::Measurement(measurement_id) => {
                CanMessage::MeasurementReading(MeasurementReading { reading, board, measurement_id })
            },
            MessageIdentifier::StateTransitionCommand => {
                let to_state = match reading {
                    CanData::State(state) => state,
                    _ => 0,
                };
                CanMessage::StateTransitionCommand(StateTransitionCommand::new(board, to_state))
            },
            MessageIdentifier::StateTransitionRequest => {
                let to_state = match reading {
                    CanData::State(state) => state,
                    _ => 0,
                };
                CanMessage::StateTransitionRequest(StateTransitionRequest::new(board, to_state))
            },
            _ => {
                let to = match reading {
                    CanData::Heartbeat(to) => to,
                    _ => Board::Test,
                };
                CanMessage::Heartbeat(Heartbeat::new(to, board))
            },
        }
    }
}

/// Every message survives the trip through a CAN frame: the frame it is
/// converted into stands for a message, and that message is the one converted.
pub proof fn lemma_can_message_roundtrip(message: CanMessage, frame: HypedCanFrame)
    requires
        frame.can_id == message.can_id_spec().to_u32_spec(),
        frame.data@ == message.payload_spec().encode_spec(),
    ensures
        CanMessage::frame_decodable_spec(frame),
        CanMessage::from_frame_spec(frame) == message,
{
    crate::communications::can_id::lemma_can_id_roundtrip(message.can_id_spec());
    crate::communications::data::lemma_can_data_roundtrip(message.payload_spec());
}

/// The frame of each message, byte by byte. The identifier carries the
/// sending board in its low byte, the message code from bit 8 (0xFF for a
/// state transition command, 0xFE for a request, 0xFD for a heartbeat, the
/// measurement's index for a reading) and the payload's type from bit 20
/// (3 for a state, 5 for a heartbeat). A state transition's payload is
/// `[3, state, 0, ..]`, and a heartbeat's is `[5, destination board, 0, ..]`.
pub proof fn lemma_message_frame_layout(message: CanMessage)
    ensures
        message matches CanMessage::Heartbeat(h) ==> {
            &&& message.can_id_spec().to_u32_spec() == 5 * 0x10_0000 + 0xFD * 0x100
                + h.from.index_spec()
            &&& message.payload_spec().encode_spec() == seq![
                5u8,
                h.to.index_spec(),
                0u8,
                0u8,
                0u8,
                0u8,
                0u8,
                0u8,
            ]
        },
        message matches CanMessage::StateTransitionCommand(c) ==> {
            &&& message.can_id_spec().to_u32_spec() == 3 * 0x10_0000 + 0xFF * 0x100
                + c.from_board.index_spec()
            &&& message.payload_spec().encode_spec() == seq![
                3u8,
                c.to_state,
                0u8,
                0u8,
                0u8,
                0u8,
                0u8,
                0u8,
            ]
        },
        message matches CanMessage::StateTransitionRequest(r) ==> {
            &&& message.can_id_spec().to_u32_spec() == 3 * 0x10_0000 + 0xFE * 0x100
                + r.requesting_board.index_spec()
            &&& message.payload_spec().encode_spec() == seq![
                3u8,
                r.to_state,
                0u8,
                0u8,
                0u8,
                0u8,
                0u8,
                0u8,
            ]
        },
        message matches CanMessage::MeasurementReading(m) ==> {
            &&& message.can_id_spec().to_u32_spec() == m.reading.type_index_spec() * 0x10_0000
                + m.measurement_id.index_spec() * 0x100 + m.board.index_spec()
            &&& message.payload_spec().encode_spec() == m.reading.encode_spec()
        },
{
    crate::communications::can_id::lemma_can_id_value(message.can_id_spec());
    crate::communications::data::lemma_data_type_matches_tag(message.payload_spec());
}

/// A frame whose identifier is a heartbeat's, sent by board index `from`, and
/// whose payload is `[5, to, 0, ..]` stands for the heartbeat from board `from`
/// to board `to`.
pub proof fn lemma_heartbeat_frame_decodes(frame: HypedCanFrame, from: u8, to: u8)
    requires
        from < 8,
        to < 8,
        frame.can_id == 5 * 0x10_0000 + 0xFD * 0x100 + from,
        frame.data@ == seq![5u8, to, 0u8, 0u8, 0u8, 0u8, 0u8, 0u8],
    ensures
        CanMessage::frame_decodable_spec(frame),
        CanMessage::from_frame_spec(frame) == CanMessage::Heartbeat(
            Heartbeat {
                to: Board::from_index_spec(to).unwrap(),
                from: Board::from_index_spec(from).unwrap(),
            },
        ),
{
    let h = Heartbeat {
        to: Board::from_index_spec(to).unwrap(),
        from: Board::from_index_spec(from).unwrap(),
    };
    crate::communications::boards::lemma_board_from_index(to);
    crate::communications::boards::lemma_board_from_index(from);
    lemma_message_frame_layout(CanMessage::Heartbeat(h));
    lemma_can_message_roundtrip(CanMessage::Heartbeat(h), frame);
}

} // verus!
