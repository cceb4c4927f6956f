//! Core of a small framework layered over an entity-component runtime:
//! a hierarchical, gated state machine and a generic validation rule
//! engine that reports violations through an event channel.

pub mod debug;
pub mod gate;
pub mod state;
pub mod text;
