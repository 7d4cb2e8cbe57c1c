//! A command-driven control loop that coordinates a mutable application-state
//! object (the model) shared through a reference-counted handle.
//!
//! The manager reclaims exclusive write access by bounded polling instead of a
//! lock, runs a two-phase update cycle (a read-only phase that may overlap with
//! readers, and a write phase that needs sole ownership), and turns failures of
//! either phase into notifications instead of crashing the loop.

pub mod channel;
pub mod handle;
pub mod input;
pub mod model;
pub mod utils;
