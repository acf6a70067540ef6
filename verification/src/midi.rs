//! MIDI messages, their validated byte types, and the sender/receiver
//! interfaces to the pad device.

pub mod controller;
pub mod model;
pub mod registry;
