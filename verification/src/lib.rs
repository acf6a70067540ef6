//! Drives a grid of MIDI pads that surface the live status of external
//! checks (Kubernetes deployments, script runs) and lets a human pause or
//! resume each check by pressing its pad.
//!
//! The core is the per-pad actor state machine, the input demultiplexer
//! that routes button presses to the right actor, and the pure status
//! resolution logic. Device transport, the network query itself, process
//! spawning and configuration loading are external collaborators: this
//! library ships no device backend, only the `MidiSender` and
//! `MidiReceiver` interfaces (plus the `JustPrint` logging sink) that a
//! transport must implement for signals to reach real hardware.

pub mod configuration;
pub mod extension;
pub mod kubernetes;
pub mod mappings;
pub mod scheduler;
pub mod midi;
pub mod worker;
