//! The leaves that are known, in a `lru::LruCache` keyed by block hash.
use crate::primitives::BlockHash;
use lru::LruCache;
use vstd::prelude::*;

verus! {

/// Store 2 days worth of blocks, not accounting for forks,
/// in the LRU cache. Assumes a 6-second block time.
pub const KNOWN_LEAVES_CACHE_SIZE: usize = 2 * 24 * 3600 / 6;

/// `lru::LruCache`, an outside type.
#[verifier::external_type_specification]
#[verifier::external_body]
#[verifier::reject_recursive_types(K)]
#[verifier::reject_recursive_types(V)]
#[verifier::reject_recursive_types(S)]
pub struct ExLruCache<K, V, S>(lru::LruCache<K, V, S>);

/// `lru::DefaultHasher`, the outside type that hashes the keys of a cache.
#[verifier::external_type_specification]
#[verifier::external_body]
pub struct ExDefaultHasher(lru::DefaultHasher);

/// The hashes that a cache holds, from the most to the least recently put.
pub uninterp spec fn cached_hashes(cache: LruCache<BlockHash, ()>) -> Seq<BlockHash>;

/// The number of hashes that a cache holds at most.
pub uninterp spec fn cache_capacity(cache: LruCache<BlockHash, ()>) -> nat;

/// What a cache that holds `cached` holds once `hash` has been put into it.
///
/// The hash comes to the front. If it is new and the cache is full, the least recently put hash
/// leaves; a cache without capacity takes nothing in.
pub open spec fn after_put(cached: Seq<BlockHash>, capacity: nat, hash: BlockHash) -> Seq<
    BlockHash,
> {
    if cached.contains(hash) {
        seq![hash] + cached.remove(cached.index_of(hash))
    } else if capacity == 0 {
        cached
    } else if cached.len() == capacity {
        seq![hash] + cached.drop_last()
    } else {
        seq![hash] + cached
    }
}

/// Whether `cached` is what a cache of that capacity can hold: no hash twice, and no more of them
/// than the capacity.
pub open spec fn fits_cache(cached: Seq<BlockHash>, capacity: nat) -> bool {
    cached.no_duplicates() && cached.len() <= capacity
}

/// `LruCache::put` with the unit value: moves a hash that is held to the front and answers with
/// its old value; takes a new one in at the front, in place of the last one where the cache is
/// full, unless the capacity is zero, and answers `None`. The capacity stays; no hash is held
/// twice, nor are there ever more of them than the capacity.
#[verifier::external_body]
pub(crate) fn cache_put(cache: &mut LruCache<BlockHash, ()>, hash: BlockHash) -> (previous: Option<
    (),
>)
    ensures
        cached_hashes(*final(cache)) == after_put(
            cached_hashes(*old(cache)),
            cache_capacity(*old(cache)),
            hash,
        ),
        cache_capacity(*final(cache)) == cache_capacity(*old(cache)),
        fits_cache(cached_hashes(*final(cache)), cache_capacity(*final(cache))),
        previous is Some == cached_hashes(*old(cache)).contains(hash),
{
    cache.put(hash, ())
}

} // verus!
