//! Discrete core of a strafe-jumping movement trainer: key-state algebra,
//! key bindings, the choice of movement model for a simulation tick, and the
//! state machine of the strafe autopilot.

pub mod input;
pub mod movement;
pub mod autopilot;
