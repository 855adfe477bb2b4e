//! Control logic for an automated coop door.
//!
//! The door is opened and closed by time of day and by ambient light, with a
//! manual override. This crate holds the decisions: the door's state machine
//! and the timed sequences that drive its motor, the conversion of light
//! sensor samples, the settings store and the policy of the periodic
//! automation. Hardware access, the clock, files and locks stay with the
//! program that links this crate; it hands their results in as plain values.

pub mod actuator;
pub mod automation;
pub mod config;
pub mod controller;
pub mod door;
pub mod sensor;
pub mod settings;
pub mod time;
