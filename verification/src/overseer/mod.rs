//! The overseer: follows the active leaves and tells a subsystem of every change.
pub mod events;
pub mod known;
pub mod laws;
pub mod leaves;
pub mod operations;
pub mod state;
