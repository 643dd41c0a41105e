//! Verified core of the HYPED pod software: CAN identifiers and payload
//! encodings, message conversion, position-delta reassembly, bounded text
//! formatting and the pneumatics decision logic.

pub mod bytes;
pub mod hyped_can;
pub mod hyped_config;
pub mod communications;
pub mod control;
pub mod debugger;
pub mod hyped_core;
pub mod text;
