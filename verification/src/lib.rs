//! Verified core of a substepped tether simulation.
//!
//! A tether is a linear chain of rigid capsule particles connected by
//! revolute joints. This crate covers the two pieces of that simulation
//! worth proving: the topology construction that turns a chain
//! specification into body and joint descriptors (`chain`), and the
//! deterministic time-control layer — a fixed-timestep clock with pause
//! and manual single-step support, gated by a two-state run machine
//! (`clock`, `state`). The constraint solver that consumes the
//! descriptors, rendering, and input polling are external collaborators
//! and live outside this crate.
//!
//! All lengths, positions and durations are fixed-point integers:
//! millionths of a world unit or of a second. This keeps every quantity
//! exact and lets each contract state the result of a computation
//! precisely.

pub mod chain;
pub mod clock;
pub mod state;
