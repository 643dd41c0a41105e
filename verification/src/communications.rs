//! Messages exchanged between the boards of the pod over the CAN bus.

pub mod boards;
pub mod emergency;
pub mod data;
pub mod heartbeat;
pub mod identifier;
pub mod measurements;
pub mod message_identifier;
pub mod state_transition;
pub mod can_id;
pub mod messages;
