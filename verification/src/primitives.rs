//! Plain values that the whole library speaks of.
use vstd::prelude::*;

verus! {

/// A 256-bit block hash: its upper and its lower half.
pub type BlockHash = (u128, u128);

/// The height of a block.
pub type BlockNumber = u32;

/// An amount of funds.
pub type Balance = u128;

/// Whether two hashes are the same, both halves of them.
pub fn same_hash(left: &BlockHash, right: &BlockHash) -> (same: bool)
    ensures
        same == (*left == *right),
{
    left.0 == right.0 && left.1 == right.1
}

} // verus!
