//! Motion classification core for a macro-pad game plugin, together with the
//! plain data types and pure helpers that the plugin's input-binding and
//! template layers share.
//!
//! The classification pipeline consumes raw position/facing telemetry in a
//! fixed-point convention (millimeters for distances, milli-units per second
//! for speeds, milliseconds for time), estimates a smoothed velocity, maps it
//! to a discrete movement label, and stabilizes that label over time with a
//! hysteresis state machine.

pub mod math;
pub mod speed;
pub mod classify;
pub mod temporal;
pub mod runtime;
pub mod laws;
pub mod key_control;
pub mod key_code;
pub mod parse;
pub mod bindings;
pub mod templates;
pub mod state;
pub mod protocol;
pub mod ui_state;
