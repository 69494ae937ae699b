//! The cache in front of the table of user mappings: a bounded map from the
//! id of a user of the team-chat side to what is known of its ghost, which
//! drops the entry used least recently when it is full.

use vstd::prelude::*;

verus! {

/// What the cache holds for one user: the ghost's identifier, its display
/// name and its avatar.
pub type CachedGhost = (String, Option<String>, Option<String>);

/// The mathematical value of a cache entry's content.
pub type CachedGhostView = (Seq<char>, Option<Seq<char>>, Option<Seq<char>>);

/// Declares `lru::LruCache`, whose inside is not looked into.
#[verifier::external_type_specification]
#[verifier::external_body]
#[verifier::reject_recursive_types(K)]
#[verifier::reject_recursive_types(V)]
#[verifier::reject_recursive_types(S)]
pub struct ExLruCache<K, V, S>(lru::LruCache<K, V, S>);

/// Declares the hasher that an `lru::LruCache` uses unless it is given
/// another, `lru::DefaultHasher`; its inside is not looked into.
#[verifier::external_type_specification]
#[verifier::external_body]
pub struct ExDefaultHasher(lru::DefaultHasher);

/// The entries of a cache, the most recently used first.
pub uninterp spec fn cache_entries(cache: lru::LruCache<i64, CachedGhost>) -> Seq<
    (i64, CachedGhostView),
>;

/// The number of entries that a cache holds at most.
pub uninterp spec fn cache_capacity(cache: lru::LruCache<i64, CachedGhost>) -> nat;

/// The position of the entry for `key`, or the number of entries where
/// there is none.
pub open spec fn entry_index(entries: Seq<(i64, CachedGhostView)>, key: i64) -> int
    decreases entries.len(),
{
    if entries.len() == 0 {
        0
    } else if entries[0].0 == key {
        0
    } else {
        1 + entry_index(entries.skip(1), key)
    }
}

/// What the entries hold for `key`.
pub open spec fn entry_for(
    entries: Seq<(i64, CachedGhostView)>,
    key: i64,
) -> Option<CachedGhostView> {
    let i = entry_index(entries, key);
    if 0 <= i < entries.len() {
        Some(entries[i].1)
    } else {
        None
    }
}

/// The entries after `key` was used: its entry, if there is one, moves to
/// the front.
pub open spec fn entries_after_use(entries: Seq<(i64, CachedGhostView)>, key: i64) -> Seq<
    (i64, CachedGhostView),
> {
    let i = entry_index(entries, key);
    if 0 <= i < entries.len() {
        seq![entries[i]] + entries.remove(i)
    } else {
        entries
    }
}

/// The entries after `value` was put under `key` into a cache of the given
/// capacity: the new entry stands at the front; an older entry for the key
/// is replaced; otherwise, where the cache was full, the entry used least
/// recently is dropped.
pub open spec fn entries_after_put(
    entries: Seq<(i64, CachedGhostView)>,
    capacity: nat,
    key: i64,
    value: CachedGhostView,
) -> Seq<(i64, CachedGhostView)> {
    let i = entry_index(entries, key);
    if 0 <= i < entries.len() {
        seq![(key, value)] + entries.remove(i)
    } else if entries.len() == capacity && capacity > 0 {
        seq![(key, value)] + entries.drop_last()
    } else {
        seq![(key, value)] + entries
    }
}

/// The value of a cache entry's content.
pub open spec fn cached_view(value: CachedGhost) -> CachedGhostView {
    (
        value.0@,
        match value.1 {
            Some(s) => Some(s@),
            None => None,
        },
        match value.2 {
            Some(s) => Some(s@),
            None => None,
        },
    )
}

/// Makes an empty cache with `LruCache::new`, which holds at most
/// `capacity` entries. The capacity must not be zero.
#[verifier::external_body]
pub(crate) fn cache_new(capacity: usize) -> (cache: lru::LruCache<i64, CachedGhost>)
    requires
        capacity > 0,
    ensures
        cache_entries(cache) == Seq::<(i64, CachedGhostView)>::empty(),
        cache_capacity(cache) == capacity,
{
    lru::LruCache::new(std::num::NonZeroUsize::new(capacity).unwrap())
}

/// Looks `key` up with `LruCache::get` and hands back a copy of what it
/// found. An entry that is found becomes the most recently used; the
/// capacity stays.
#[verifier::external_body]
pub(crate) fn cache_get(cache: &mut lru::LruCache<i64, CachedGhost>, key: i64) -> (found: Option<
    CachedGhost,
>)
    ensures
        match found {
            Some(value) => entry_for(cache_entries(*old(cache)), key) == Some(cached_view(value)),
            None => entry_for(cache_entries(*old(cache)), key) is None,
        },
        cache_entries(*final(cache)) == entries_after_use(cache_entries(*old(cache)), key),
        cache_capacity(*final(cache)) == cache_capacity(*old(cache)),
{
    cache.get(&key).cloned()
}

/// Stores `value` under `key` with `LruCache::put`. The entry becomes the
/// most recently used; it replaces an older entry for the key; otherwise,
/// where the cache is full, the entry used least recently makes room.
#[verifier::external_body]
pub(crate) fn cache_put(cache: &mut lru::LruCache<i64, CachedGhost>, key: i64, value: CachedGhost)
    ensures
        cache_entries(*final(cache)) == entries_after_put(
            cache_entries(*old(cache)),
            cache_capacity(*old(cache)),
            key,
            cached_view(value),
        ),
        cache_capacity(*final(cache)) == cache_capacity(*old(cache)),
{
    cache.put(key, value);
}

/// Empties the cache with `LruCache::clear`; the capacity stays.
#[verifier::external_body]
pub(crate) fn cache_clear(cache: &mut lru::LruCache<i64, CachedGhost>)
    ensures
        cache_entries(*final(cache)) == Seq::<(i64, CachedGhostView)>::empty(),
        cache_capacity(*final(cache)) == cache_capacity(*old(cache)),
{
    cache.clear();
}

/// Hands out what `LruCache::iter` yields, the most recently used entry
/// first: of each entry the user's id and the ghost's identifier. The
/// cache is left as it is.
#[verifier::external_body]
pub(crate) fn cache_ghosts(cache: &lru::LruCache<i64, CachedGhost>) -> (ghosts: Vec<(i64, String)>)
    ensures
        ghosts@.len() == cache_entries(*cache).len(),
        forall|k: int|
            0 <= k < ghosts@.len() ==> (#[trigger] ghosts@[k]).0 == cache_entries(*cache)[k].0
                && ghosts@[k].1@ == cache_entries(*cache)[k].1.0,
{
    cache.iter().map(|(key, value)| (*key, value.0.clone())).collect()
}

/// The number of entries, as `LruCache::len` gives it.
#[verifier::external_body]
pub(crate) fn cache_len(cache: &lru::LruCache<i64, CachedGhost>) -> (n: usize)
    ensures
        n == cache_entries(*cache).len(),
{
    cache.len()
}

} // verus!
