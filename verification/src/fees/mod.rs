//! Transaction fees of a domain: what is withdrawn, what is refunded, and how the rest is split
//! between storage and execution.
pub mod charge;
pub mod imbalance;
pub mod laws;
pub mod operations;
