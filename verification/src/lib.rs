//! Parts of a Subspace node: the overseer that follows the active leaves, the source of proofs of
//! time, and the fees of domain transactions.
pub mod fees;
pub mod overseer;
pub mod primitives;
pub mod proof_of_time;
