//! Behaviour core of a mesh node with a temperature sensor, two buttons,
//! an LED display and a battery endpoint.
//!
//! Each endpoint is a reactive state machine: the surrounding runtime waits
//! for an inbound message, a timer tick or a hardware edge, hands the event to
//! the endpoint, and performs the action it gets back.

pub mod time;
pub mod sensor;
pub mod trace;
pub mod race;
pub mod onoff;
pub mod battery;
pub mod device;
