use hyped::hyped_core::can_sendable::{
    build_can_header, can_msg_type_from_u8, CanMsgType, CanSendable, F32Bits, PositionDelta,
    PositionDeltaDecodeError,
};
use hyped::hyped_core::comms;
use hyped::hyped_core::config::{pods_config, MeasurementId, POD_NAME};
use hyped::hyped_core::format_string::{show, FormatError, FormatString};
use hyped::hyped_core::mqtt_topics::MqttTopic;
use hyped::hyped_core::types::DigitalSignal;
use hyped::hyped_config::{LimitLevel, MeasurementFormat};

#[test]
fn test_config() {
    let pod_name = pods_config().pods.poddington.label;
    assert_eq!(pod_name, "Poddington");
}

#[test]
fn pod_name_is_poddington() {
    assert_eq!(POD_NAME, "poddington");
}

#[test]
fn test_from_bool() {
    assert_eq!(DigitalSignal::from_bool(true), DigitalSignal::High);
    assert_eq!(DigitalSignal::from_bool(false), DigitalSignal::Low);
}

#[test]
fn digital_signal_back_to_bool() {
    assert!(bool::from(DigitalSignal::from_bool(true)));
    assert!(!bool::from(DigitalSignal::from_bool(false)));
    assert!(bool::from(DigitalSignal::High));
    assert!(!bool::from(DigitalSignal::Low));
}

#[test]
fn config_kinds_compare() {
    assert_ne!(MeasurementFormat::Float, MeasurementFormat::Int);
    assert_ne!(LimitLevel::Warning, LimitLevel::Critical);
}

#[test]
fn can_header_packs_board_and_type() {
    assert_eq!(build_can_header(0x3, 0x2), 0x32);
    assert_eq!(build_can_header(0xF, 0xF), 0xFF);
    assert_eq!(build_can_header(0, 0), 0);
    assert_eq!(can_msg_type_from_u8(&[0x31, 0, 0, 0, 0, 0, 0, 0]), CanMsgType::F32);
    assert_eq!(can_msg_type_from_u8(&[0x13, 0, 0, 0, 0, 0, 0, 0]), CanMsgType::PosDelta);
    assert_eq!(can_msg_type_from_u8(&[0x20, 0, 0, 0, 0, 0, 0, 0]), CanMsgType::Bool);
    assert_eq!(can_msg_type_from_u8(&[0x22, 0, 0, 0, 0, 0, 0, 0]), CanMsgType::U32);
}

#[test]
fn single_frame_values_roundtrip() {
    let frame = true.encode_to_can(2);
    assert_eq!(frame, [0x20, 1, 0, 0, 0, 0, 0, 0]);
    assert!(bool::can_decode(&frame));
    assert!(!bool::can_decode(&false.encode_to_can(2)));

    let pair: [u16; 2] = [0x1234, 0xABCD];
    let frame = pair.encode_to_can(1);
    assert_eq!(frame, [0x12, 0x34, 0x12, 0xCD, 0xAB, 0, 0, 0]);
    assert_eq!(<[u16; 2]>::can_decode(&frame), pair);

    let value = F32Bits { bits: (-2.5f32).to_bits() };
    let frame = value.encode_to_can(4);
    assert_eq!(frame[0], 0x41);
    assert_eq!(f32::from_bits(F32Bits::can_decode(&frame).bits), -2.5f32);
}

#[test]
fn position_delta_encodes_three_frames() {
    let delta = PositionDelta::new(7, 1.0f32.to_bits(), 2.0f32.to_bits(), 3.0f32.to_bits());
    let frames = delta.encode_to_can(1);
    for (axis, frame) in frames.iter().enumerate() {
        assert_eq!(frame[0], 0x13);
        assert_eq!(frame[5] as usize, axis);
        assert_eq!(frame[6], 7);
        assert_eq!(frame[7], 0);
    }
    assert_eq!(&frames[1][1..5], &2.0f32.to_bits().to_le_bytes());
}

#[test]
fn position_delta_reassembles_in_any_order() {
    let sent = PositionDelta::new(200, 11, 22, 33);
    let frames = sent.encode_to_can(5);
    let mut received = PositionDelta::create_new();
    assert!(!received.is_complete());
    assert_eq!(received.can_decode_step(frames[2]), None);
    assert_eq!(received.can_decode_step(frames[0]), None);
    assert!(!received.is_complete());
    assert_eq!(received.can_decode_step(frames[1]), None);
    assert!(received.is_complete());
    assert_eq!(received.return_complete(), [11, 22, 33]);
    assert_eq!(received, sent);
}

#[test]
fn position_delta_rejects_repeats_and_other_cycles() {
    let frames = PositionDelta::new(10, 1, 2, 3).encode_to_can(0);
    let mut received = PositionDelta::create_new();
    assert_eq!(received.can_decode_step(frames[0]), None);
    assert_eq!(
        received.can_decode_step(frames[0]),
        Some(PositionDeltaDecodeError::PositionAlreadyReceived)
    );
    let future = PositionDelta::new(11, 1, 2, 3).encode_to_can(0);
    assert_eq!(
        received.can_decode_step(future[1]),
        Some(PositionDeltaDecodeError::ClockInFuture)
    );
    let past = PositionDelta::new(9, 1, 2, 3).encode_to_can(0);
    assert_eq!(
        received.can_decode_step(past[1]),
        Some(PositionDeltaDecodeError::ClockOutdated)
    );
    assert_eq!(received.y, None);
    received.clear();
    assert_eq!(received, PositionDelta::create_new());
    assert_eq!(received.can_decode_step(past[1]), None);
    assert_eq!(received.clock, Some(9));
}

#[test]
fn clock_wraps() {
    assert_eq!(PositionDelta::next_clock(255), 0);
    assert_eq!(PositionDelta::next_clock(4), 5);
    assert!(PositionDelta::is_clock_infuture(255, 0));
    assert!(PositionDelta::is_clock_infuture(0, 127));
    assert!(!PositionDelta::is_clock_infuture(0, 128));
    assert!(!PositionDelta::is_clock_infuture(5, 4));
    assert!(PositionDelta::is_clock_infuture(5, 5));
}

#[test]
fn format_string_writes_and_reads_back() {
    let mut buffer = [0u8; 16];
    let mut w = FormatString::new(&mut buffer);
    assert_eq!(w.write_str("héllo"), Ok(()));
    assert_eq!(w.write_str(" w"), Ok(()));
    assert_eq!(w.as_str(), Some("héllo w"));
}

#[test]
fn format_string_overflow_fails() {
    let mut buffer = [0u8; 4];
    let mut w = FormatString::new(&mut buffer);
    assert_eq!(w.write_str("abc"), Ok(()));
    assert_eq!(w.write_str("de"), Err(FormatError));
    assert_eq!(w.as_str(), None);
}

#[test]
fn format_string_keeps_prefix_after_overrun() {
    let mut buffer = [b'.'; 6];
    {
        let mut w = FormatString::new(&mut buffer);
        assert_eq!(w.write_str("ab"), Ok(()));
        assert_eq!(w.write_str("cdefg"), Err(FormatError));
        assert_eq!(w.write_str("h"), Err(FormatError));
        assert_eq!(w.as_str(), None);
    }
    assert_eq!(&buffer, b"abcdef");
}

#[test]
fn show_leaves_the_rest_of_the_buffer() {
    let mut buffer = [7u8; 1024];
    assert_eq!(show(&mut buffer, "hi"), Ok("hi"));
    assert_eq!(&buffer[..2], b"hi");
    assert!(buffer[2..].iter().all(|b| *b == 7));
}

#[test]
fn show_formats_into_buffer() {
    let mut buffer = [0u8; 1024];
    assert_eq!(show(&mut buffer, "temperature: 21"), Ok("temperature: 21"));
    let long = "x".repeat(1025);
    let mut buffer = [0u8; 1024];
    assert_eq!(show(&mut buffer, &long), Err(FormatError));
    let exact = "y".repeat(1024);
    let mut buffer = [0u8; 1024];
    assert_eq!(show(&mut buffer, &exact), Ok(exact.as_str()));
}

#[test]
fn mqtt_topic_strings() {
    assert_eq!(MqttTopic::State.to_topic_string().as_str(), "hyped/poddington/state/state");
    assert_eq!(
        MqttTopic::Measurement(MeasurementId::Thermistor1).to_topic_string().as_str(),
        "hyped/poddington/measurement/thermistor_1"
    );
    assert_eq!(MqttTopic::Debug.to_topic_string().as_str(), "debug");
}

#[test]
fn mqtt_topic_parse_roundtrip() {
    let topics = [
        MqttTopic::Measurement(MeasurementId::Acceleration),
        MqttTopic::Measurement(MeasurementId::Thermistor1),
        MqttTopic::State,
        MqttTopic::StateRequest,
        MqttTopic::Heartbeat,
        MqttTopic::Logs,
        MqttTopic::Debug,
        MqttTopic::Test,
    ];
    for topic in topics {
        let text = topic.to_topic_string();
        assert_eq!(MqttTopic::parse_topic(text.as_str()), Ok(topic));
    }
    assert_eq!(MqttTopic::parse_topic("hyped/poddington/nope"), Err("Invalid topic"));
    assert_eq!(MqttTopic::parse_topic(""), Err("Invalid topic"));
}

#[test]
fn core_can_id_roundtrip() {
    let can_id = comms::can_id::CanId::new(
        comms::boards::Board::Pneumatics,
        comms::data::CanDataType::State,
        comms::messages::MessageIdentifier::Measurement(comms::measurements::MeasurementId::Test),
    );
    let id: u32 = can_id.into();
    assert_eq!(id, (2 << 24) | (3 << 16) | 0x01);
    assert_eq!(comms::can_id::CanId::from_u32(id), can_id);
}

#[test]
fn core_measurement_frame_roundtrip() {
    let reading = comms::measurements::MeasurementReading::new(
        comms::data::CanData::TwoU16([3, 0x1FF]),
        comms::data::CanDataType::TwoU16,
        comms::boards::Board::Test,
        comms::measurements::MeasurementId::KeyenceStripeCount,
    );
    let message = comms::messages::CanMessage::MeasurementReading(reading);
    let frame = message.to_frame();
    assert_eq!(frame.can_id, (3 << 24) | (1 << 16) | 2);
    assert_eq!(comms::messages::CanMessage::from_frame(frame), message);
}
