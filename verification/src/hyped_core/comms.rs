//! The first generation of the CAN message types: a 4-board bus, 32-bit
//! identifiers of board, data type and measurement.

pub mod boards;
pub mod can_id;
pub mod data;
pub mod identifier;
pub mod measurements;
pub mod messages;
pub mod state_transition;
