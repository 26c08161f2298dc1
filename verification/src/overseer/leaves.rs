//! Changes in the set of active leaves.
use crate::primitives::{same_hash, BlockHash, BlockNumber};
use smallvec::SmallVec;
use vstd::prelude::*;

verus! {

/// How many slots are stack-reserved for active leaves updates.
///
/// If there are fewer than this number of slots, then some stack space is wasted.
/// If there are greater than this number of slots, then the hashes fall back to a heap vector.
const ACTIVE_LEAVES_SMALLVEC_CAPACITY: usize = 8;

/// Activated leaf.
#[derive(Debug)]
pub struct ActivatedLeaf {
    /// The block hash.
    pub hash: BlockHash,
    /// The block number.
    pub number: BlockNumber,
}

impl Clone for ActivatedLeaf {
    fn clone(&self) -> (leaf: Self)
        ensures
            leaf == *self,
    {
        ActivatedLeaf { hash: self.hash, number: self.number }
    }
}

/// The hashes of an update that are no longer of interest, in a `smallvec::SmallVec`.
#[verifier::external_body]
pub struct DeactivatedLeaves(SmallVec<[BlockHash; ACTIVE_LEAVES_SMALLVEC_CAPACITY]>);

/// The hashes that a small vector holds, first to last.
pub uninterp spec fn deactivated_hashes(leaves: DeactivatedLeaves) -> Seq<BlockHash>;

impl View for DeactivatedLeaves {
    type V = Seq<BlockHash>;

    open spec fn view(&self) -> Seq<BlockHash> {
        deactivated_hashes(*self)
    }
}

/// `SmallVec::new`: the vector it makes holds nothing.
#[verifier::external_body]
fn small_vec_new() -> (leaves: DeactivatedLeaves)
    ensures
        deactivated_hashes(leaves) == Seq::<BlockHash>::empty(),
{
    DeactivatedLeaves(SmallVec::new())
}

/// Whether so many hashes leave room for one more: a vector grows to the next power of two, and
/// its hashes, of 32 bytes each, must not take more than `isize::MAX` bytes.
pub open spec fn can_grow(len: nat) -> bool {
    len < isize::MAX as int / 64
}

/// `SmallVec::from` of a slice that a vector has room for: the vector holds the slice's hashes, in
/// their order.
#[verifier::external_body]
fn small_vec_from(hashes: &[BlockHash]) -> (leaves: DeactivatedLeaves)
    requires
        can_grow(hashes@.len()),
    ensures
        deactivated_hashes(leaves) == hashes@,
{
    DeactivatedLeaves(SmallVec::from(hashes))
}

/// `SmallVec::clone`: the new vector holds the same hashes, in the same order.
#[verifier::external_body]
fn small_vec_clone(leaves: &DeactivatedLeaves) -> (copy: DeactivatedLeaves)
    ensures
        deactivated_hashes(copy) == deactivated_hashes(*leaves),
{
    DeactivatedLeaves(leaves.0.clone())
}

/// `SmallVec::push` where there is room: appends the hash behind those already held.
#[verifier::external_body]
fn small_vec_push(leaves: &mut DeactivatedLeaves, hash: BlockHash)
    requires
        can_grow(deactivated_hashes(*old(leaves)).len()),
    ensures
        deactivated_hashes(*final(leaves)) == deactivated_hashes(*old(leaves)).push(hash),
{
    leaves.0.push(hash)
}

/// `SmallVec::is_empty`: whether the vector holds no hash.
#[verifier::external_body]
fn small_vec_is_empty(leaves: &DeactivatedLeaves) -> (empty: bool)
    ensures
        empty == (deactivated_hashes(*leaves).len() == 0),
{
    leaves.0.is_empty()
}

/// `SmallVec::as_slice`: the slice over all the hashes that the vector holds.
#[verifier::external_body]
fn small_vec_as_slice(leaves: &DeactivatedLeaves) -> (hashes: &[BlockHash])
    ensures
        hashes@ == deactivated_hashes(*leaves),
{
    leaves.0.as_slice()
}

impl DeactivatedLeaves {
    /// The hashes, in the order in which they were deactivated.
    pub fn as_slice(&self) -> (hashes: &[BlockHash])
        ensures
            hashes@ == self@,
    {
        small_vec_as_slice(self)
    }

    /// Appends a hash.
    pub fn push(&mut self, hash: BlockHash)
        requires
            can_grow(old(self)@.len()),
        ensures
            final(self)@ == old(self)@.push(hash),
    {
        small_vec_push(self, hash)
    }

    /// Whether `hash` is among the deactivated ones.
    pub fn contains(&self, hash: &BlockHash) -> (found: bool)
        ensures
            found == self@.contains(*hash),
    {
        let hashes = self.as_slice();
        let mut i: usize = 0;
        while i < hashes.len()
            invariant
                i <= hashes@.len(),
                hashes@ == self@,
                forall|j: int| 0 <= j < i ==> hashes@[j] != *hash,
            decreases hashes@.len() - i,
        {
            if same_hash(&hashes[i], hash) {
                assert(self@[i as int] == *hash);
                return true;
            }
            i += 1;
        }
        false
    }

    /// Whether every hash held here is held by `other` too.
    fn all_in(&self, other: &DeactivatedLeaves) -> (all: bool)
        ensures
            all == self@.to_set().subset_of(other@.to_set()),
    {
        let hashes = self.as_slice();
        let mut i: usize = 0;
        while i < hashes.len()
            invariant
                i <= hashes@.len(),
                hashes@ == self@,
                forall|j: int| 0 <= j < i ==> other@.contains(#[trigger] hashes@[j]),
            decreases hashes@.len() - i,
        {
            if !other.contains(&hashes[i]) {
                assert(self@.to_set().contains(hashes@[i as int]));
                return false;
            }
            i += 1;
        }
        true
    }
}

impl Clone for DeactivatedLeaves {
    fn clone(&self) -> (leaves: Self)
        ensures
            leaves@ == self@,
    {
        small_vec_clone(self)
    }
}

/// Changes in the set of active leaves: the parachain heads which we care to work on.
///
/// Note that the activated and deactivated fields indicate deltas, not complete sets.
pub struct ActiveLeavesUpdate {
    /// New relay chain block of interest.
    pub activated: Option<ActivatedLeaf>,
    /// Relay chain block hashes no longer of interest.
    pub deactivated: DeactivatedLeaves,
}

/// What an update says: the leaf it activates and the hashes it deactivates, in order.
pub struct UpdateView {
    pub activated: Option<ActivatedLeaf>,
    pub deactivated: Seq<BlockHash>,
}

impl UpdateView {
    /// The hash of the activated leaf, by which it is told from other leaves.
    pub open spec fn activated_hash(self) -> Option<BlockHash> {
        match self.activated {
            Some(leaf) => Some(leaf.hash),
            None => None,
        }
    }

    /// The activated leaves as a set.
    pub open spec fn activated_set(self) -> Set<BlockHash> {
        match self.activated {
            Some(leaf) => set![leaf.hash],
            None => Set::empty(),
        }
    }

    /// The deactivated leaves as a set.
    pub open spec fn deactivated_set(self) -> Set<BlockHash> {
        self.deactivated.to_set()
    }

    /// Whether the update carries no information.
    pub open spec fn is_empty(self) -> bool {
        self.activated is None && self.deactivated.len() == 0
    }

    /// Equality of updates: `activated` and `deactivated` are considered as sets.
    pub open spec fn same_as(self, other: UpdateView) -> bool {
        &&& self.activated_set() == other.activated_set()
        &&& self.deactivated_set() == other.deactivated_set()
    }
}

impl View for ActiveLeavesUpdate {
    type V = UpdateView;

    open spec fn view(&self) -> UpdateView {
        UpdateView { activated: self.activated, deactivated: self.deactivated@ }
    }
}

impl Clone for ActiveLeavesUpdate {
    fn clone(&self) -> (update: Self)
        ensures
            update@ == self@,
    {
        ActiveLeavesUpdate {
            activated: self.activated.clone(),
            deactivated: self.deactivated.clone(),
        }
    }
}

impl Default for ActiveLeavesUpdate {
    fn default() -> (update: Self)
        ensures
            update@ == (UpdateView { activated: None, deactivated: Seq::empty() }),
    {
        ActiveLeavesUpdate { activated: None, deactivated: small_vec_new() }
    }
}

impl ActiveLeavesUpdate {
    /// Create a `ActiveLeavesUpdate` with a single activated hash
    pub fn start_work(activated: ActivatedLeaf) -> (update: Self)
        ensures
            update@ == (UpdateView { activated: Some(activated), deactivated: Seq::empty() }),
    {
        ActiveLeavesUpdate { activated: Some(activated), ..Default::default() }
    }

    /// Create a `ActiveLeavesUpdate` with a single deactivated hash
    pub fn stop_work(hash: BlockHash) -> (update: Self)
        ensures
            update@ == (UpdateView { activated: None, deactivated: seq![hash] }),
    {
        let single: [BlockHash; 1] = [hash];
        assert(single@ =~= seq![hash]);
        ActiveLeavesUpdate { deactivated: small_vec_from(&single), ..Default::default() }
    }

    /// Is this update empty and doesn't contain any information?
    pub fn is_empty(&self) -> (empty: bool)
        ensures
            empty == self@.is_empty(),
    {
        self.activated.is_none() && small_vec_is_empty(&self.deactivated)
    }
}

impl PartialEq for ActiveLeavesUpdate {
    /// Equality for `ActiveLeavesUpdate` doesn't imply bitwise equality.
    ///
    /// Instead, it means equality when `activated` and `deactivated` are considered as sets.
    fn eq(&self, other: &Self) -> (equal: bool) {
        let same_activated: bool = match (&self.activated, &other.activated) {
            (Some(leaf), Some(other_leaf)) => same_hash(&leaf.hash, &other_leaf.hash),
            (None, None) => true,
            _ => false,
        };
        proof {
            lemma_activated_sets(self@, other@);
            lemma_equal_sets(self@.deactivated_set(), other@.deactivated_set());
        }
        same_activated && self.deactivated.all_in(&other.deactivated)
            && other.deactivated.all_in(&self.deactivated)
    }
}

impl vstd::std_specs::cmp::PartialEqSpecImpl for ActiveLeavesUpdate {
    open spec fn obeys_eq_spec() -> bool {
        true
    }

    open spec fn eq_spec(&self, other: &Self) -> bool {
        self@.same_as(other@)
    }
}

/// The activated sets are equal exactly when the activated hashes are.
proof fn lemma_activated_sets(update: UpdateView, other: UpdateView)
    ensures
        (update.activated_set() == other.activated_set()) <==> (update.activated_hash()
            == other.activated_hash()),
{
    if update.activated_set() == other.activated_set() {
        if let Some(leaf) = update.activated {
            assert(update.activated_set().contains(leaf.hash));
        }
        if let Some(leaf) = other.activated {
            assert(other.activated_set().contains(leaf.hash));
        }
    }
}

/// Two sets are equal exactly when each is a subset of the other.
proof fn lemma_equal_sets(left: Set<BlockHash>, right: Set<BlockHash>)
    ensures
        (left == right) <==> (left.subset_of(right) && right.subset_of(left)),
{
    if left.subset_of(right) && right.subset_of(left) {
        assert(left =~= right);
    }
}

} // verus!
