use hyped::communications::boards::Board;
use hyped::communications::can_id::CanId;
use hyped::communications::data::{CanData, CanDataType};
use hyped::communications::emergency::Reason;
use hyped::communications::heartbeat::Heartbeat;
use hyped::communications::identifier;
use hyped::communications::measurements::MeasurementReading;
use hyped::communications::message_identifier::MessageIdentifier;
use hyped::communications::messages::CanMessage;
use hyped::communications::state_transition::{StateTransitionCommand, StateTransitionRequest};
use hyped::hyped_can::HypedCanFrame;
use hyped::hyped_core::comms;
use hyped::hyped_core::config::MeasurementId;

/// The wire code of the emergency brake state.
const EMERGENCY_BRAKE: u8 = 1;

#[test]
fn test_board_conversion() {
    assert_eq!(
        Board::Telemetry,
        Board::try_from(Board::Telemetry as u8).unwrap()
    );
    assert_eq!(
        Board::Navigation,
        Board::try_from(Board::Navigation as u8).unwrap()
    );
    assert_eq!(
        Board::Pneumatics,
        Board::try_from(Board::Pneumatics as u8).unwrap()
    );
    assert_eq!(Board::Test, Board::try_from(Board::Test as u8).unwrap());
    assert_eq!(
        Board::TemperatureTester,
        Board::try_from(Board::TemperatureTester as u8).unwrap()
    );
    assert_eq!(
        Board::KeyenceTester,
        Board::try_from(Board::KeyenceTester as u8).unwrap()
    );
    assert_eq!(
        Board::StateMachineTester,
        Board::try_from(Board::StateMachineTester as u8).unwrap()
    );
    assert_eq!(Board::Mqtt, Board::try_from(Board::Mqtt as u8).unwrap());
    assert_eq!(Board::try_from(8), Err("Invalid Board index"));
}

#[test]
fn board_indices_follow_declaration_order() {
    assert_eq!(u8::from(Board::Telemetry), 0);
    assert_eq!(u8::from(Board::Mqtt), 7);
    assert_eq!(Board::try_from(255), Err("Invalid Board index"));
}

#[test]
fn can_id_it_works() {
    let can_id = CanId::new(
        Board::Test,
        CanDataType::State,
        identifier::MessageIdentifier::StateTransitionCommand,
    );
    let id: u32 = can_id.clone().into();

    assert_eq!(can_id, CanId::from_u32(id));
    assert_eq!(
        CanId::from_u32(id).message_identifier,
        identifier::MessageIdentifier::StateTransitionCommand
    );
}

#[test]
fn can_id_layout_exact_value() {
    // priority bit 28, data type from bit 20, identifier from bit 8, board in the low byte
    let can_id = CanId::new_high_priority(
        Board::Navigation,
        CanDataType::U32,
        identifier::MessageIdentifier::Heartbeat,
    );
    let id: u32 = can_id.into();
    assert_eq!(id, (1 << 28) | (4 << 20) | (0xFD << 8) | 1);
    assert_eq!(can_id.to_u32(), id);
    assert_eq!(CanId::from_u32(id), can_id);
}

#[test]
fn identifier_test_message_identifier_into() {
    let measurement_id = MeasurementId::Acceleration;
    let message_identifier = identifier::MessageIdentifier::Measurement(measurement_id);
    let message_identifier: u16 = message_identifier.into();
    assert_eq!(message_identifier, 0x00);

    let message_identifier = identifier::MessageIdentifier::StateTransitionCommand;
    let message_identifier: u16 = message_identifier.into();
    assert_eq!(message_identifier, 0xFF);

    let measurement_id = comms::measurements::MeasurementId::Temperature;
    let message_identifier = comms::identifier::MessageIdentifier::Measurement(measurement_id);
    let message_identifier: u16 = message_identifier.into();
    assert_eq!(message_identifier, 0x00);

    let message_identifier = comms::identifier::MessageIdentifier::StateTransition;
    let message_identifier: u16 = message_identifier.into();
    assert_eq!(message_identifier, 0xFF);
}

#[test]
fn identifier_test_message_identifier_from() {
    let message_identifier = identifier::MessageIdentifier::Measurement(MeasurementId::Acceleration);
    assert_eq!(identifier::MessageIdentifier::from_code(0x00), message_identifier);

    let message_identifier = identifier::MessageIdentifier::StateTransitionCommand;
    assert_eq!(identifier::MessageIdentifier::from_code(0xFF), message_identifier);

    let message_identifier = comms::identifier::MessageIdentifier::Measurement(
        comms::measurements::MeasurementId::Temperature,
    );
    assert_eq!(comms::identifier::MessageIdentifier::from_code(0x00), message_identifier);

    let message_identifier = comms::identifier::MessageIdentifier::StateTransition;
    assert_eq!(comms::identifier::MessageIdentifier::from_code(0xFF), message_identifier);
}

#[test]
fn lib_it_works() {
    let measurement_id = MeasurementId::Acceleration;
    assert_eq!(measurement_id.to_string(), "acceleration");
    assert_eq!(
        MeasurementId::from_string("acceleration"),
        MeasurementId::Acceleration
    );
    let measurement_id_u8: u8 = measurement_id.into();
    assert_eq!(MeasurementId::Acceleration, MeasurementId::try_from(measurement_id_u8).unwrap());
}

#[test]
fn measurement_id_names_and_indices() {
    assert_eq!(MeasurementId::Thermistor1.as_name(), "thermistor_1");
    assert_eq!(MeasurementId::try_from_name("thermistor_1"), Some(MeasurementId::Thermistor1));
    assert_eq!(MeasurementId::try_from_name("acceleratio"), None);
    assert_eq!(MeasurementId::try_from_name(""), None);
    assert_eq!(u16::from(MeasurementId::Thermistor1), 1);
    assert_eq!(MeasurementId::try_from(2u16), Err("Invalid measurement ID"));
    assert_eq!(MeasurementId::try_from_index(1), Some(MeasurementId::Thermistor1));
    assert_eq!(MeasurementId::from_index(0), MeasurementId::Acceleration);
}

#[test]
fn test_message_identifier_state_transition_command() {
    let message_identifier = MessageIdentifier::StateTransitionCommand;
    let encoded_message_identifier: u16 = message_identifier.clone().into();

    let decoded_message_identifier = MessageIdentifier::try_from(encoded_message_identifier)
        .expect("Failed to decode message identifier");
    assert_eq!(message_identifier, decoded_message_identifier);
}

#[test]
fn test_message_identifier_state_transition_request() {
    let message_identifier = MessageIdentifier::StateTransitionRequest;
    let encoded_message_identifier: u16 = message_identifier.clone().into();

    let decoded_message_identifier = MessageIdentifier::try_from(encoded_message_identifier)
        .expect("Failed to decode message identifier");
    assert_eq!(message_identifier, decoded_message_identifier);
}

#[test]
fn test_message_identifier_heartbeat() {
    let message_identifier = MessageIdentifier::Heartbeat;
    let encoded_message_identifier: u16 = message_identifier.clone().into();

    let decoded_message_identifier = MessageIdentifier::try_from(encoded_message_identifier)
        .expect("Failed to decode message identifier");
    assert_eq!(message_identifier, decoded_message_identifier);
}

#[test]
fn test_message_identifier_measurement() {
    let message_identifier = MessageIdentifier::Measurement(MeasurementId::Thermistor1);
    let encoded_message_identifier: u16 = message_identifier.clone().into();

    let decoded_message_identifier = MessageIdentifier::try_from(encoded_message_identifier)
        .expect("Failed to decode message identifier");
    assert_eq!(message_identifier, decoded_message_identifier);
}

#[test]
fn test_invalid_message_identifier() {
    assert!(MessageIdentifier::try_from(0xABCD).is_err());
}

#[test]
fn message_identifier_codes() {
    assert_eq!(u16::from(MessageIdentifier::StateTransitionCommand), 0xFFE);
    assert_eq!(u16::from(MessageIdentifier::Emergency), 0xFFB);
    assert_eq!(MessageIdentifier::try_from(0xFFB), Ok(MessageIdentifier::Emergency));
    assert_eq!(MessageIdentifier::try_from(0x0002), Err("Invalid measurement ID"));
}

#[test]
fn messages_it_works() {
    let measurement_reading = MeasurementReading::new(
        CanData::F32(0.0f32.to_bits()),
        Board::Telemetry,
        MeasurementId::Acceleration,
    );
    let can_message = CanMessage::MeasurementReading(measurement_reading);

    let can_frame: HypedCanFrame = can_message.clone().to_frame();
    let can_message_from_frame: CanMessage = CanMessage::from_frame(can_frame);

    assert_eq!(can_message, can_message_from_frame);

    let measurement_reading = comms::measurements::MeasurementReading::new(
        comms::data::CanData::F32(0.0f32.to_bits()),
        comms::data::CanDataType::F32,
        comms::boards::Board::Telemetry,
        comms::measurements::MeasurementId::Temperature,
    );
    let can_message = comms::messages::CanMessage::MeasurementReading(measurement_reading);

    let can_frame: HypedCanFrame = can_message.clone().to_frame();
    let can_message_from_frame = comms::messages::CanMessage::from_frame(can_frame);

    assert_eq!(can_message, can_message_from_frame);
}

#[test]
fn it_works_state_transition_command() {
    let state_transition = StateTransitionCommand::new(Board::Test, EMERGENCY_BRAKE);
    let state_transition = CanMessage::StateTransitionCommand(state_transition);
    let can_frame: HypedCanFrame = state_transition.clone().to_frame();
    let can_message_from_frame: CanMessage = CanMessage::from_frame(can_frame);
    assert_eq!(state_transition, can_message_from_frame)
}

#[test]
fn it_works_state_transition_request() {
    let state_transition = StateTransitionRequest::new(Board::Test, EMERGENCY_BRAKE);
    let state_transition = CanMessage::StateTransitionRequest(state_transition);
    let can_frame: HypedCanFrame = state_transition.clone().to_frame();
    let can_message_from_frame: CanMessage = CanMessage::from_frame(can_frame);
    assert_eq!(state_transition, can_message_from_frame)
}

#[test]
fn it_works_heartbeat() {
    let heartbeat = CanMessage::Heartbeat(Heartbeat::new(Board::KeyenceTester, Board::Test));
    let can_frame: HypedCanFrame = heartbeat.clone().to_frame();
    let can_message_from_frame: CanMessage = CanMessage::from_frame(can_frame);
    assert_eq!(heartbeat, can_message_from_frame)
}

#[test]
fn measurement_frame_exact_bytes() {
    let reading = MeasurementReading::new(
        CanData::TwoU16([0x1234, 0x0005]),
        Board::Navigation,
        MeasurementId::Thermistor1,
    );
    let frame = CanMessage::MeasurementReading(reading).to_frame();
    assert_eq!(frame.data, [1, 0x34, 0x12, 0x05, 0x00, 0, 0, 0]);
    assert_eq!(frame.can_id, (1 << 20) | (1 << 8) | 1);
    let can_id = CanId::from_u32(frame.can_id);
    assert_eq!(can_id.board, Board::Navigation);
    assert_eq!(can_id.message_data_type, CanDataType::TwoU16);
    assert_eq!(
        can_id.message_identifier,
        identifier::MessageIdentifier::Measurement(MeasurementId::Thermistor1)
    );
}

#[test]
fn can_data_bytes_roundtrip() {
    let values = [
        CanData::Bool(true),
        CanData::TwoU16([7, 0xBEEF]),
        CanData::F32(1.5f32.to_bits()),
        CanData::State(3),
        CanData::U32(0xDEAD_BEEF),
        CanData::Heartbeat(Board::Mqtt),
        CanData::Emergency(Reason::MissingHeartbeat),
    ];
    for v in values {
        assert_eq!(CanData::from_bytes(v.to_bytes()), v);
    }
    assert_eq!(CanData::U32(0x0102_0304).to_bytes(), [4, 4, 3, 2, 1, 0, 0, 0]);
    assert_eq!(CanData::Emergency(Reason::Test).to_bytes(), [6, 2, 0, 0, 0, 0, 0, 0]);
    assert_eq!(CanData::U32(9).data_type(), CanDataType::U32);
    assert_eq!(CanDataType::from(CanData::U32(9)), CanDataType::U32);
    assert_eq!(u8::from(CanData::U32(9).data_type()), u8::from(CanData::U32(9)));
    assert_eq!(CanData::State(9).data_type(), CanDataType::State);
    assert_eq!(CanDataType::try_from(7), Err("Invalid CanDataType index"));
    assert_eq!(CanDataType::try_from(4), Ok(CanDataType::U32));
}

#[test]
fn emergency_reason_codes() {
    assert_eq!(Reason::try_from(Reason::Unknown.code()), Ok(Reason::Unknown));
    assert_eq!(Reason::try_from(200), Err("Invalid reason for emergency stop"));
}
