//! Core logic of a sandboxed scripting environment for input devices.
//!
//! The library covers the decision-making parts of the system: tagging and
//! validating event records that cross the script boundary, selecting the
//! ready device during multiplexing, resolving the embedded script
//! configuration into a device-registration plan, preparing script source
//! text, and the ordered privilege-drop state machine.  The surrounding
//! process (argument handling, device I/O, the script interpreter) lives
//! outside the library and consults it for every decision.

pub mod config;
pub mod device;
pub mod events;
pub mod mux;
pub mod privdrop;
pub mod script;
