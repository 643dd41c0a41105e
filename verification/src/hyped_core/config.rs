//! Pod configuration values and the measurement identifiers of the pod.

use vstd::prelude::*;
use vstd::std_specs::convert::FromSpecImpl;
use vstd::std_specs::convert::TryFromSpecImpl;
use vstd::string::StringSliceAdditionalSpecFns;
use vstd::utf8::encode_utf8;
use crate::text::{all_ascii, lemma_all_ascii_encoding, str_eq};

verus! {

/// The measurements that the pod reports, numbered in declaration order.
#[derive(Debug, Clone, Copy, PartialEq, Eq, Hash, Structural)]
pub enum MeasurementId {
    Acceleration,
    Thermistor1,
}

/// The bytes that a 50-byte `heapless::String` holds.
pub uninterp spec fn name_buffer_bytes(s: heapless::String<50>) -> Seq<u8>;

/// `heapless::String::<50>::from_str`: a string holding the UTF-8 bytes of
/// `s` when they fit in 50 bytes, else an error (here `None`).
#[verifier::external_body]
fn name_buffer_from_str(s: &str) -> (r: Option<heapless::String<50>>)
    ensures
        r is Some <==> s.spec_bytes().len() <= 50,
        r matches Some(b) ==> name_buffer_bytes(b) == s.spec_bytes(),
{
    <heapless::String<50> as core::str::FromStr>::from_str(s).ok()
}

/// Number of measurements; every index below it names a measurement.
pub const MEASUREMENT_COUNT: u16 = 2;

impl MeasurementId {
    /// Index of a measurement.
    pub open spec fn index_spec(self) -> u16 {
        match self {
            MeasurementId::Acceleration => 0,
            MeasurementId::Thermistor1 => 1,
        }
    }

    /// The measurement with a given index, if any.
    pub open spec fn from_index_spec(index: u16) -> Option<MeasurementId> {
        if index == 0 {
            Some(MeasurementId::Acceleration)
        } else if index == 1 {
            Some(MeasurementId::Thermistor1)
        } else {
            None
        }
    }

    /// The snake-case name of a measurement.
    pub open spec fn name_spec(self) -> Seq<char> {
        match self {
            MeasurementId::Acceleration => seq!['a', 'c', 'c', 'e', 'l', 'e', 'r', 'a', 't', 'i', 'o', 'n'],
            MeasurementId::Thermistor1 => seq!['t', 'h', 'e', 'r', 'm', 'i', 's', 't', 'o', 'r', '_', '1'],
        }
    }

    /// The measurement with a given snake-case name, if any.
    pub open spec fn from_name_spec(name: Seq<char>) -> Option<MeasurementId> {
        if name == MeasurementId::Acceleration.name_spec() {
            Some(MeasurementId::Acceleration)
        } else if name == MeasurementId::Thermistor1.name_spec() {
            Some(MeasurementId::Thermistor1)
        } else {
            None
        }
    }

    /// The snake-case name of the measurement.
    pub fn as_name(&self) -> (r: &'static str)
        ensures
            r@ == self.name_spec(),
    {
        match self {
            MeasurementId::Acceleration => {
                let s = "acceleration";
                proof {
                    reveal_strlit("acceleration");
                }
                s
            },
            MeasurementId::Thermistor1 => {
                let s = "thermistor_1";
                proof {
                    reveal_strlit("thermistor_1");
                }
                s
            },
        }
    }

    /// The snake-case name of the measurement in a 50-byte string.
    pub fn to_string(&self) -> (r: heapless::String<50>)
        ensures
            name_buffer_bytes(r) == encode_utf8(self.name_spec()),
    {
        let name = self.as_name();
        proof {
            reveal_with_fuel(all_ascii, 13);
            lemma_all_ascii_encoding(name@);
        }
        name_buffer_from_str(name).unwrap()
    }

    /// The measurement with the given snake-case name, if the name is known.
    pub fn try_from_name(name: &str) -> (r: Option<MeasurementId>)
        ensures
            r == MeasurementId::from_name_spec(name@),
    {
        if str_eq(name, MeasurementId::Acceleration.as_name()) {
            Some(MeasurementId::Acceleration)
        } else if str_eq(name, MeasurementId::Thermistor1.as_name()) {
            Some(MeasurementId::Thermistor1)
        } else {
            None
        }
    }

    /// The measurement with the given snake-case name; the name must be known.
    pub fn from_string(name: &str) -> (r: MeasurementId)
        requires
            MeasurementId::from_name_spec(name@) is Some,
        ensures
            Some(r) == MeasurementId::from_name_spec(name@),
    {
        match MeasurementId::try_from_name(name) {
            Some(id) => id,
            None => MeasurementId::Acceleration,
        }
    }

    /// The index of the measurement.
    pub fn index(&self) -> (r: u16)
        ensures
            r == self.index_spec(),
    {
        match self {
            MeasurementId::Acceleration => 0,
            MeasurementId::Thermistor1 => 1,
        }
    }

    /// The measurement with a given index, if the index is below the count.
    pub fn try_from_index(index: u16) -> (r: Option<MeasurementId>)
        ensures
            r == MeasurementId::from_index_spec(index),
    {
        if index == 0 {
            Some(MeasurementId::Acceleration)
        } else if index == 1 {
            Some(MeasurementId::Thermistor1)
        } else {
            None
        }
    }

    /// The measurement with a given index; the index must be below the count.
    pub fn from_index(index: u16) -> (r: MeasurementId)
        requires
            index < MEASUREMENT_COUNT,
        ensures
            Some(r) == MeasurementId::from_index_spec(index),
    {
        match MeasurementId::try_from_index(index) {
            Some(id) => id,
            None => MeasurementId::Acceleration,
        }
    }
}

impl From<MeasurementId> for u16 {
    fn from(id: MeasurementId) -> (r: u16) {
        id.index()
    }
}

impl FromSpecImpl<MeasurementId> for u16 {
    open spec fn obeys_from_spec() -> bool {
        true
    }

    open spec fn from_spec(v: MeasurementId) -> u16 {
        v.index_spec()
    }
}

impl From<MeasurementId> for u8 {
    fn from(id: MeasurementId) -> (r: u8) {
        match id {
            MeasurementId::Acceleration => 0,
            MeasurementId::Thermistor1 => 1,
        }
    }
}

impl FromSpecImpl<MeasurementId> for u8 {
    open spec fn obeys_from_spec() -> bool {
        true
    }

    open spec fn from_spec(v: MeasurementId) -> u8 {
        v.index_spec() as u8
    }
}

impl TryFrom<u16> for MeasurementId {
    type Error = &'static str;

    fn try_from(index: u16) -> (r: Result<MeasurementId, &'static str>) {
        match MeasurementId::try_from_index(index) {
            Some(id) => Ok(id),
            None => Err("Invalid measurement ID"),
        }
    }
}

impl TryFromSpecImpl<u16> for MeasurementId {
    open spec fn obeys_try_from_spec() -> bool {
        true
    }

    open spec fn try_from_spec(v: u16) -> Result<MeasurementId, &'static str> {
        match MeasurementId::from_index_spec(v) {
            Some(id) => Ok(id),
            None => Err("Invalid measurement ID"),
        }
    }
}

impl TryFrom<u8> for MeasurementId {
    type Error = &'static str;

    fn try_from(index: u8) -> (r: Result<MeasurementId, &'static str>) {
        match MeasurementId::try_from_index(index as u16) {
            Some(id) => Ok(id),
            None => Err("Invalid measurement ID"),
        }
    }
}

impl TryFromSpecImpl<u8> for MeasurementId {
    open spec fn obeys_try_from_spec() -> bool {
        true
    }

    open spec fn try_from_spec(v: u8) -> Result<MeasurementId, &'static str> {
        match MeasurementId::from_index_spec(v as u16) {
            Some(id) => Ok(id),
            None => Err("Invalid measurement ID"),
        }
    }
}

/// Decoding the index of a measurement gives it back, and every index below
/// the count names a measurement with that index.
pub proof fn lemma_measurement_index_roundtrip(id: MeasurementId, index: u16)
    ensures
        MeasurementId::from_index_spec(id.index_spec()) == Some(id),
        id.index_spec() < MEASUREMENT_COUNT,
        MeasurementId::from_index_spec(index) is Some <==> index < MEASUREMENT_COUNT,
        MeasurementId::from_index_spec(index) matches Some(m) ==> m.index_spec() == index,
{
}

/// Looking up the name of a measurement gives the measurement back.
pub proof fn lemma_measurement_name_roundtrip(id: MeasurementId)
    ensures
        MeasurementId::from_name_spec(id.name_spec()) == Some(id),
{
    assert(MeasurementId::Acceleration.name_spec() != MeasurementId::Thermistor1.name_spec()) by {
        assert(MeasurementId::Acceleration.name_spec()[0] != MeasurementId::Thermistor1.name_spec()[0]);
    }
}

/// The name of the pod whose configuration is in use.
pub const POD_NAME: &'static str = "poddington";

/// One pod's entry in the pods configuration.
#[derive(Debug, Clone, Copy, PartialEq, Eq)]
pub struct PodEntry {
    pub label: &'static str,
}

/// The pods of the pods configuration.
#[derive(Debug, Clone, Copy, PartialEq, Eq)]
pub struct Pods {
    pub poddington: PodEntry,
}

/// Configuration for the pods, as read from the pods configuration file.
#[derive(Debug, Clone, Copy, PartialEq, Eq)]
pub struct PodsConfig {
    pub pods: Pods,
}

/// The pods configuration of the pod.
pub fn pods_config() -> (r: PodsConfig)
    ensures
        r.pods.poddington.label@ == "Poddington"@,
{
    PodsConfig { pods: Pods { poddington: PodEntry { label: "Poddington" } } }
}

/// Configuration of the sensors.
pub struct SensorsConfig;

/// Configuration of telemetry.
pub struct TelemetryConfig;

/// Configuration of heartbeats.
pub struct HeartbeatConfig;

/// Configuration of localisation.
pub struct LocalisationConfig;

/// Configuration of control.
pub struct ControlConfig;

/// Configuration of levitation.
pub struct LevitationConfig;

/// The measurements of the pod: acceleration, index 0, named "acceleration";
/// thermistor 1, index 1, named "thermistor_1".
pub proof fn lemma_measurement_ids()
    ensures
        MeasurementId::Acceleration.index_spec() == 0,
        MeasurementId::Thermistor1.index_spec() == 1,
        MeasurementId::Acceleration.name_spec() == "acceleration"@,
        MeasurementId::Thermistor1.name_spec() == "thermistor_1"@,
        MeasurementId::from_name_spec("acceleration"@) == Some(MeasurementId::Acceleration),
        MeasurementId::from_name_spec("thermistor_1"@) == Some(MeasurementId::Thermistor1),
{
    reveal_strlit("acceleration");
    reveal_strlit("thermistor_1");
    assert(MeasurementId::Acceleration.name_spec() =~= "acceleration"@);
    assert(MeasurementId::Thermistor1.name_spec() =~= "thermistor_1"@);
    lemma_measurement_name_roundtrip(MeasurementId::Acceleration);
    lemma_measurement_name_roundtrip(MeasurementId::Thermistor1);
}

} // verus!
