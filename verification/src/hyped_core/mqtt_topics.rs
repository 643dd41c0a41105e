//! The MQTT topics used by the pod, and their conversion from and to text.

use vstd::prelude::*;
use vstd::string::{StrSliceExecFns, StringSliceAdditionalSpecFns};
use vstd::utf8::encode_utf8;
use crate::hyped_core::config::MeasurementId;
use crate::text::{all_ascii, lemma_all_ascii_encoding, lemma_encode_utf8_concat, str_eq, str_starts_with};

verus! {

/// Prefix of the topic of every measurement.
pub const MQTT_MEASUREMENT_TOPIC_PREFIX: &'static str = "hyped/poddington/measurement/";

/// Enum representing all MQTT topics used by the pod.
#[derive(Debug, PartialEq, Eq, Clone, Copy, Structural)]
pub enum MqttTopic {
    Measurement(MeasurementId),
    State,
    StateRequest,
    Heartbeat,
    Logs,
    Debug,
    Test,
}

#[verifier::external_type_specification]
#[verifier::external_body]
pub struct ExHeaplessString<const N: usize>(heapless::String<N>);

/// The bytes that a 100-byte `heapless::String` holds.
pub uninterp spec fn topic_buffer_bytes(s: heapless::String<100>) -> Seq<u8>;

/// `heapless::String::<100>::new`: an empty string.
#[verifier::external_body]
fn topic_buffer_new() -> (r: heapless::String<100>)
    ensures
        topic_buffer_bytes(r) == Seq::<u8>::empty(),
{
    heapless::String::new()
}

/// `heapless::String::<100>::push_str`: appends the UTF-8 bytes of `s` when
/// they fit in the capacity of 100 bytes, and otherwise fails and leaves the
/// string unchanged.
#[verifier::external_body]
fn topic_buffer_push_str(buffer: &mut heapless::String<100>, s: &str) -> (r: Result<(), ()>)
    ensures
        r is Ok <==> topic_buffer_bytes(*old(buffer)).len() + s.spec_bytes().len() <= 100,
        r is Ok ==> topic_buffer_bytes(*final(buffer)) == topic_buffer_bytes(*old(buffer))
            + s.spec_bytes(),
        r is Err ==> topic_buffer_bytes(*final(buffer)) == topic_buffer_bytes(*old(buffer)),
{
    buffer.push_str(s)
}

/// The characters of the measurement topic prefix.
pub open spec fn measurement_prefix_chars() -> Seq<char> {
    MQTT_MEASUREMENT_TOPIC_PREFIX@
}

impl MqttTopic {
    /// The topic string of a topic.
    pub open spec fn topic_chars_spec(self) -> Seq<char> {
        match self {
            MqttTopic::State => "hyped/poddington/state/state"@,
            MqttTopic::StateRequest => "hyped/poddington/state/state_request"@,
            MqttTopic::Heartbeat => "hyped/poddington/heartbeat"@,
            MqttTopic::Logs => "hyped/poddington/logs"@,
            MqttTopic::Debug => "debug"@,
            MqttTopic::Test => "test"@,
            MqttTopic::Measurement(m) => measurement_prefix_chars() + m.name_spec(),
        }
    }

    /// Whether a topic string begins with the measurement prefix.
    pub open spec fn has_measurement_prefix(s: Seq<char>) -> bool {
        measurement_prefix_chars().len() <= s.len() && s.subrange(
            0,
            measurement_prefix_chars().len() as int,
        ) == measurement_prefix_chars()
    }

    /// The rest of a topic string after the measurement prefix.
    pub open spec fn measurement_suffix(s: Seq<char>) -> Seq<char> {
        s.subrange(measurement_prefix_chars().len() as int, s.len() as int)
    }

    /// The topic that a topic string names, if any.
    pub open spec fn from_chars_spec(s: Seq<char>) -> Option<MqttTopic> {
        if s == "hyped/poddington/state/state"@ {
            Some(MqttTopic::State)
        } else if s == "hyped/poddington/state/state_request"@ {
            Some(MqttTopic::StateRequest)
        } else if s == "hyped/poddington/heartbeat"@ {
            Some(MqttTopic::Heartbeat)
        } else if s == "hyped/poddington/logs"@ {
            Some(MqttTopic::Logs)
        } else if s == "debug"@ {
            Some(MqttTopic::Debug)
        } else if s == "test"@ {
            Some(MqttTopic::Test)
        } else if MqttTopic::has_measurement_prefix(s) {
            match MeasurementId::from_name_spec(MqttTopic::measurement_suffix(s)) {
                Some(m) => Some(MqttTopic::Measurement(m)),
                None => None,
            }
        } else {
            None
        }
    }

    /// Whether a topic string can be parsed: a string with the measurement
    /// prefix must end in the name of a measurement.
    pub open spec fn parsable_spec(s: Seq<char>) -> bool {
        MqttTopic::has_measurement_prefix(s) ==> MeasurementId::from_name_spec(
            MqttTopic::measurement_suffix(s),
        ) is Some
    }

    /// The topic that a topic string names, or "Invalid topic"; a string with
    /// the measurement prefix must end in the name of a measurement.
    pub fn parse_topic(s: &str) -> (r: Result<MqttTopic, &'static str>)
        requires
            MqttTopic::parsable_spec(s@),
        ensures
            r == match MqttTopic::from_chars_spec(s@) {
                Some(t) => Ok(t),
                None => Err("Invalid topic"),
            },
    {
        if str_eq(s, "hyped/poddington/state/state") {
            Ok(MqttTopic::State)
        } else if str_eq(s, "hyped/poddington/state/state_request") {
            Ok(MqttTopic::StateRequest)
        } else if str_eq(s, "hyped/poddington/heartbeat") {
            Ok(MqttTopic::Heartbeat)
        } else if str_eq(s, "hyped/poddington/logs") {
            Ok(MqttTopic::Logs)
        } else if str_eq(s, "debug") {
            Ok(MqttTopic::Debug)
        } else if str_eq(s, "test") {
            Ok(MqttTopic::Test)
        } else if str_starts_with(s, MQTT_MEASUREMENT_TOPIC_PREFIX) {
            let start = MQTT_MEASUREMENT_TOPIC_PREFIX.unicode_len();
            let measurement_id_string = s.substring_char(start, s.unicode_len());
            let measurement_id = MeasurementId::from_string(measurement_id_string);
            Ok(MqttTopic::Measurement(measurement_id))
        } else {
            Err("Invalid topic")
        }
    }

    /// The topic string in a 100-byte `heapless::String`.
    pub fn to_topic_string(self) -> (r: heapless::String<100>)
        ensures
            topic_buffer_bytes(r) == encode_utf8(self.topic_chars_spec()),
    {
        let mut topic = topic_buffer_new();
        match self {
            MqttTopic::State => {
                proof {
                    reveal_strlit("hyped/poddington/state/state");
                    reveal_with_fuel(all_ascii, 40);
                }
                push_topic_part(&mut topic, "hyped/poddington/state/state");
            },
            MqttTopic::StateRequest => {
                proof {
                    reveal_strlit("hyped/poddington/state/state_request");
                    reveal_with_fuel(all_ascii, 40);
                }
                push_topic_part(&mut topic, "hyped/poddington/state/state_request");
            },
            MqttTopic::Heartbeat => {
                proof {
                    reveal_strlit("hyped/poddington/heartbeat");
                    reveal_with_fuel(all_ascii, 40);
                }
                push_topic_part(&mut topic, "hyped/poddington/heartbeat");
            },
            MqttTopic::Logs => {
                proof {
                    reveal_strlit("hyped/poddington/logs");
                    reveal_with_fuel(all_ascii, 40);
                }
                push_topic_part(&mut topic, "hyped/poddington/logs");
            },
            MqttTopic::Debug => {
                proof {
                    reveal_strlit("debug");
                    reveal_with_fuel(all_ascii, 40);
                }
                push_topic_part(&mut topic, "debug");
            },
            MqttTopic::Test => {
                proof {
                    reveal_strlit("test");
                    reveal_with_fuel(all_ascii, 40);
                }
                push_topic_part(&mut topic, "test");
            },
            MqttTopic::Measurement(measurement_id) => {
                proof {
                    reveal_strlit("hyped/poddington/measurement/");
                    reveal_with_fuel(all_ascii, 40);
                }
                push_topic_part(&mut topic, MQTT_MEASUREMENT_TOPIC_PREFIX);
                proof {
                    lemma_all_ascii_encoding(measurement_prefix_chars());
                    assert(Seq::<u8>::empty() + encode_utf8(measurement_prefix_chars()) =~= encode_utf8(
                        measurement_prefix_chars(),
                    ));
                }
                let name = measurement_id.as_name();
                push_topic_part(&mut topic, name);
                proof {
                    lemma_encode_utf8_concat(measurement_prefix_chars(), measurement_id.name_spec());
                }
            },
        }
        proof {
            assert(Seq::<u8>::empty() + encode_utf8(self.topic_chars_spec()) =~= encode_utf8(
                self.topic_chars_spec(),
            ));
        }
        topic
    }
}

/// Appends an ASCII part of a topic that fits in the remaining capacity.
fn push_topic_part(topic: &mut heapless::String<100>, part: &str)
    requires
        all_ascii(part@),
        topic_buffer_bytes(*old(topic)).len() + part@.len() <= 100,
    ensures
        topic_buffer_bytes(*final(topic)) == topic_buffer_bytes(*old(topic)) + encode_utf8(part@),
{
    proof {
        lemma_all_ascii_encoding(part@);
    }
    let _ = topic_buffer_push_str(topic, part);
}

/// The topic string of every topic can be parsed and names that topic.
pub proof fn lemma_mqtt_topic_roundtrip(topic: MqttTopic)
    ensures
        MqttTopic::parsable_spec(topic.topic_chars_spec()),
        MqttTopic::from_chars_spec(topic.topic_chars_spec()) == Some(topic),
{
    reveal_strlit("hyped/poddington/state/state");
    reveal_strlit("hyped/poddington/state/state_request");
    reveal_strlit("hyped/poddington/heartbeat");
    reveal_strlit("hyped/poddington/logs");
    reveal_strlit("debug");
    reveal_strlit("test");
    reveal_strlit("hyped/poddington/measurement/");
    let s = topic.topic_chars_spec();
    match topic {
        MqttTopic::Measurement(m) => {
            crate::hyped_core::config::lemma_measurement_name_roundtrip(m);
            assert(s.subrange(0, measurement_prefix_chars().len() as int)
                =~= measurement_prefix_chars());
            assert(MqttTopic::measurement_suffix(s) =~= m.name_spec());
        },
        MqttTopic::StateRequest => {
            assert(s.subrange(0, measurement_prefix_chars().len() as int)[17]
                != measurement_prefix_chars()[17]);
        },
        _ => {},
    }
}

/// The topic string of each topic: the state topics under
/// "hyped/poddington/state/", the heartbeat and logs topics under
/// "hyped/poddington/", "debug", "test", and each measurement's name after
/// "hyped/poddington/measurement/"; each string parses back to its topic.
pub proof fn lemma_topic_strings()
    ensures
        MqttTopic::State.topic_chars_spec() == "hyped/poddington/state/state"@,
        MqttTopic::StateRequest.topic_chars_spec() == "hyped/poddington/state/state_request"@,
        MqttTopic::Heartbeat.topic_chars_spec() == "hyped/poddington/heartbeat"@,
        MqttTopic::Logs.topic_chars_spec() == "hyped/poddington/logs"@,
        MqttTopic::Debug.topic_chars_spec() == "debug"@,
        MqttTopic::Test.topic_chars_spec() == "test"@,
        MqttTopic::Measurement(MeasurementId::Acceleration).topic_chars_spec() == "hyped/poddington/measurement/acceleration"@,
        MqttTopic::Measurement(MeasurementId::Thermistor1).topic_chars_spec() == "hyped/poddington/measurement/thermistor_1"@,
        MqttTopic::from_chars_spec("hyped/poddington/state/state"@) == Some(MqttTopic::State),
        MqttTopic::from_chars_spec("hyped/poddington/state/state_request"@) == Some(MqttTopic::StateRequest),
        MqttTopic::from_chars_spec("hyped/poddington/heartbeat"@) == Some(MqttTopic::Heartbeat),
        MqttTopic::from_chars_spec("hyped/poddington/logs"@) == Some(MqttTopic::Logs),
        MqttTopic::from_chars_spec("debug"@) == Some(MqttTopic::Debug),
        MqttTopic::from_chars_spec("test"@) == Some(MqttTopic::Test),
        MqttTopic::from_chars_spec("hyped/poddington/measurement/acceleration"@) == Some(MqttTopic::Measurement(MeasurementId::Acceleration)),
        MqttTopic::from_chars_spec("hyped/poddington/measurement/thermistor_1"@) == Some(MqttTopic::Measurement(MeasurementId::Thermistor1)),
{
    reveal_strlit("hyped/poddington/state/state");
    reveal_strlit("hyped/poddington/state/state_request");
    reveal_strlit("hyped/poddington/heartbeat");
    reveal_strlit("hyped/poddington/logs");
    reveal_strlit("debug");
    reveal_strlit("test");
    reveal_strlit("hyped/poddington/measurement/acceleration");
    reveal_strlit("hyped/poddington/measurement/thermistor_1");
    reveal_strlit("hyped/poddington/measurement/");
    assert(MqttTopic::Measurement(MeasurementId::Acceleration).topic_chars_spec() =~= "hyped/poddington/measurement/acceleration"@);
    assert(MqttTopic::Measurement(MeasurementId::Thermistor1).topic_chars_spec() =~= "hyped/poddington/measurement/thermistor_1"@);
    lemma_mqtt_topic_roundtrip(MqttTopic::State);
    lemma_mqtt_topic_roundtrip(MqttTopic::StateRequest);
    lemma_mqtt_topic_roundtrip(MqttTopic::Heartbeat);
    lemma_mqtt_topic_roundtrip(MqttTopic::Logs);
    lemma_mqtt_topic_roundtrip(MqttTopic::Debug);
    lemma_mqtt_topic_roundtrip(MqttTopic::Test);
    lemma_mqtt_topic_roundtrip(MqttTopic::Measurement(MeasurementId::Acceleration));
    lemma_mqtt_topic_roundtrip(MqttTopic::Measurement(MeasurementId::Thermistor1));
}

} // verus!
