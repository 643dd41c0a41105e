//! The kinds that the pod configuration file gives its measurements.

use vstd::prelude::*;

verus! {

/// How a measurement's values are written.
#[derive(Debug, PartialEq, Eq, Clone, Copy, Structural)]
pub enum MeasurementFormat {
    Float,
    Int,
}

/// The severity of a measurement limit.
#[derive(Debug, PartialEq, Eq, Hash, Clone, Copy, Structural)]
pub enum LimitLevel {
    Warning,
    Critical,
}

} // verus!
