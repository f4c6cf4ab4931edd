//! Core logic of a USB HID mouse firmware that periodically replays a fixed
//! circular motion script.
//!
//! The crate verifies the coordination logic that the firmware's two execution
//! contexts (a foreground control loop and a USB interrupt handler) share: the
//! bring-up ordering of the peripheral singleton store, the interrupt handler's
//! guard on uninitialized state, the report scheduler's retry-on-backpressure
//! protocol and cycle pacing, and the terminal fault escalation policy.
//! Hardware access itself (GPIO, USB transceiver, delays) is left to the
//! surrounding program, which performs each action the core decides on and
//! hands the observed outcome back.

pub mod config;
pub mod fault;
pub mod report;
pub mod scheduler;
pub mod script;
pub mod store;
