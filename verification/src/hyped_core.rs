//! Core types shared by the pod's boards: configuration, CAN payloads,
//! bounded text formatting and MQTT topics.

pub mod config;
pub mod comms;
pub mod can_sendable;
pub mod format_string;
pub mod log_types;
pub mod types;
pub mod mqtt_topics;
