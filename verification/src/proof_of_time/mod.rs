//! The source of proofs of time: where its timekeeper starts, the timekeeper's loop, and what is
//! done with the checkpoints that it proves.
pub mod laws;
pub mod operations;
pub mod slots;
pub mod source;
pub mod timekeeper;
