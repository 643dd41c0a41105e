use vstd::prelude::*;
use crate::communications::boards::Board;
use crate::communications::data::CanData;
use crate::hyped_core::config::MeasurementId;

verus! {

/// A reading of one measurement taken on one board.
#[derive(Debug, PartialEq, Clone, Copy)]
pub struct MeasurementReading {
    pub reading: CanData,
    pub board: Board,
    pub measurement_id: MeasurementId,
}

impl MeasurementReading {
    pub fn new(reading: CanData, board: Board, measurement_id: MeasurementId) -> (r: Self)
        ensures
            r == (MeasurementReading { reading, board, measurement_id }),
    {
        MeasurementReading { reading, board, measurement_id }
    }
}

} // verus!
