//! A small immediate-mode 2D rendering core.
//!
//! Coordinates and color channels are fixed-point values (see [`fixed`]),
//! so that geometry synthesis, surface configuration and per-frame command
//! recording are exact, machine-checked logic.  The GPU and windowing
//! plumbing that executes the recorded commands lives outside this crate.

pub mod fixed;
pub mod graphics;
pub mod input;
pub mod schedule;
