//! Runtime bridge between a host shell's event loop and an embedded engine.
//!
//! The bridge reconciles two independently scheduled loops into one frame
//! cadence: each host iteration delivers host events, advances the engine by
//! one discrete step, and paces the loop to a fixed frame budget. The engine,
//! the host shell and the graphics stack are external collaborators; this
//! crate holds the decision logic that drives them, stated over plain values
//! so that every rule is verified.

pub mod commands;
pub mod driver;
pub mod pacer;
pub mod readiness;
pub mod translator;
