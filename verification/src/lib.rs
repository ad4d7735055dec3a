//! Device communication subsystem for a toy control server.
//!
//! Three cores, each with a full functional specification:
//!
//! * `state_machine`: the dongle session state machine, a finite-state
//!   automaton driving a single serial dongle through wait-for-hardware,
//!   idle, scanning and device-attached phases.
//! * `xinput`: the gamepad connection tracker and scanner, a four-slot
//!   bitmap of connected controllers together with the sweep logic of the
//!   polling and scanning loops.
//! * `protocol`: the vibration command handler for a representative
//!   two-motor device, which coalesces commands and renders full-snapshot
//!   wire frames.
//!
//! Beside them, `messages` holds the wire-level message and event types
//! with their mathematical views, and `connector` the embedded client
//! connector.
//!
//! The asynchronous shell around these cores (channels, timers, task
//! spawning) lives outside the library; the library itself is the pure
//! decision and serialization logic, stated and proved here.

pub mod connector;
pub mod messages;
pub mod protocol;
pub mod state_machine;
pub mod xinput;
