//! Control of the pod's actuators: GPIO output pins, the high power relay and
//! the pneumatics (brakes and lateral suspension).

pub mod gpio;
pub mod hp_relay;
pub mod pneumatics;
