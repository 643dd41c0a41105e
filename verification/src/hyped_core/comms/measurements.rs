use vstd::prelude::*;
use vstd::std_specs::convert::FromSpecImpl;
use crate::hyped_core::comms::boards::Board;
use crate::hyped_core::comms::data::{CanData, CanDataType};

verus! {

/// A reading of one measurement taken on one board, with its data type.
#[derive(Debug, PartialEq, Clone, Copy)]
pub struct MeasurementReading {
    pub reading: CanData,
    pub can_data_type: CanDataType,
    pub board: Board,
    pub measurement_id: MeasurementId,
}

/// The measurements on the bus, numbered in declaration order.
#[derive(Debug, Clone, Copy, PartialEq, Eq, Structural)]
pub enum MeasurementId {
    Temperature,
    Test,
    KeyenceStripeCount,
}

impl MeasurementId {
    /// Index of a measurement.
    pub open spec fn index_spec(self) -> u16 {
        match self {
            MeasurementId::Temperature => 0x00,
            MeasurementId::Test => 0x01,
            MeasurementId::KeyenceStripeCount => 0x02,
        }
    }

    /// The measurement with a given index, if any.
    pub open spec fn from_index_spec(index: u16) -> Option<MeasurementId> {
        if index == 0 {
            Some(MeasurementId::Temperature)
        } else if index == 1 {
            Some(MeasurementId::Test)
        } else if index == 2 {
            Some(MeasurementId::KeyenceStripeCount)
        } else {
            None
        }
    }

    /// The index of the measurement.
    pub fn index(&self) -> (r: u16)
        ensures
            r == self.index_spec(),
    {
        match self {
            MeasurementId::Temperature => 0x00,
            MeasurementId::Test => 0x01,
            MeasurementId::KeyenceStripeCount => 0x02,
        }
    }

    /// The measurement with the given index; the index must be below 3.
    pub fn from_index(index: u16) -> (r: MeasurementId)
        requires
            index < 3,
        ensures
            Some(r) == MeasurementId::from_index_spec(index),
    {
        match index {
            0x00 => MeasurementId::Temperature,
            0x01 => MeasurementId::Test,
            _ => MeasurementId::KeyenceStripeCount,
        }
    }
}

impl From<MeasurementId> for u16 {
    fn from(id: MeasurementId) -> (r: u16) {
        id.index()
    }
}

impl FromSpecImpl<MeasurementId> for u16 {
    open spec fn obeys_from_spec() -> bool {
        true
    }

    open spec fn from_spec(v: MeasurementId) -> u16 {
        v.index_spec()
    }
}

impl MeasurementReading {
    pub fn new(
        reading: CanData,
        can_data_type: CanDataType,
        board: Board,
        measurement_id: MeasurementId,
    ) -> (r: Self)
        ensures
            r == (MeasurementReading { reading, can_data_type, board, measurement_id }),
    {
        MeasurementReading { reading, can_data_type, board, measurement_id }
    }
}

/// Decoding a measurement's index gives it back; the indices that decode are 0 to 2.
pub proof fn lemma_measurement_index_roundtrip(id: MeasurementId, index: u16)
    ensures
        MeasurementId::from_index_spec(id.index_spec()) == Some(id),
        id.index_spec() < 3,
        MeasurementId::from_index_spec(index) is Some <==> index < 3,
        MeasurementId::from_index_spec(index) matches Some(m) ==> m.index_spec() == index,
{
}

/// The measurements are numbered in declaration order: temperature 0, test 1,
/// keyence stripe count 2.
pub proof fn lemma_measurement_indices()
    ensures
        MeasurementId::Temperature.index_spec() == 0,
        MeasurementId::Test.index_spec() == 1,
        MeasurementId::KeyenceStripeCount.index_spec() == 2,
{
}

} // verus!
