//! The ordered map that backs the cache: `crossbeam_skiplist::SkipMap`, keyed
//! by expiry instants. Nothing in this file is proved. Each function states
//! what the skip list does when the caller holds it exclusively, which is
//! what a `&mut` borrow guarantees. None of the calls panics: the keys are
//! integers, whose comparison cannot fail.

use crossbeam_skiplist::SkipMap;
use vstd::prelude::*;

verus! {

#[verifier::external_type_specification]
#[verifier::external_body]
#[verifier::reject_recursive_types(K)]
#[verifier::reject_recursive_types(V)]
pub struct ExSkipMap<K, V>(SkipMap<K, V>);

/// The entries that a skip map holds: each key with the text stored under it.
pub uninterp spec fn skipmap_entries(map: SkipMap<u64, String>) -> Map<u64, Seq<char>>;

/// The map without any entry.
pub open spec fn no_entries() -> Map<u64, Seq<char>> {
    Map::empty()
}

/// `key` is present in `entries` and no present key is greater.
pub open spec fn is_greatest_key(entries: Map<u64, Seq<char>>, key: u64) -> bool {
    &&& entries.dom().contains(key)
    &&& forall|other: u64| #[trigger] entries.dom().contains(other) ==> other <= key
}

/// `SkipMap::new`: the map it returns holds no entry.
#[verifier::external_body]
pub(crate) fn skipmap_new() -> (fresh: SkipMap<u64, String>)
    ensures
        skipmap_entries(fresh) == no_entries(),
{
    SkipMap::new()
}

/// `SkipMap::len`: the number of entries. The skip list keeps a counter that
/// is exact whenever no other thread is changing the map.
#[verifier::external_body]
pub(crate) fn skipmap_len(map: &SkipMap<u64, String>) -> (count: usize)
    ensures
        count == skipmap_entries(*map).dom().len(),
{
    map.len()
}

/// `SkipMap::insert`: stores `value` under `key`. An entry already stored
/// under `key` is removed first, so the new value replaces it; every other
/// entry stays.
#[verifier::external_body]
pub(crate) fn skipmap_insert(map: &mut SkipMap<u64, String>, key: u64, value: String)
    ensures
        skipmap_entries(*final(map)) == skipmap_entries(*old(map)).insert(key, value@),
    no_unwind
{
    map.insert(key, value);
}

/// `SkipMap::remove`: takes the entry stored under `key` out of the map, if
/// there is one; every other entry stays.
#[verifier::external_body]
pub(crate) fn skipmap_remove(map: &mut SkipMap<u64, String>, key: u64)
    ensures
        skipmap_entries(*final(map)) == skipmap_entries(*old(map)).remove(key),
    no_unwind
{
    map.remove(&key);
}

/// `SkipMap::pop_back`: takes the entry with the greatest key out of the map
/// and returns its key and a copy of its value. It returns `None`, and
/// changes nothing, exactly when the map is empty.
#[verifier::external_body]
pub(crate) fn skipmap_pop_back(map: &mut SkipMap<u64, String>) -> (popped: Option<(u64, String)>)
    ensures
        match popped {
            None => {
                &&& skipmap_entries(*old(map)).dom() == Set::<u64>::empty()
                &&& skipmap_entries(*final(map)) == skipmap_entries(*old(map))
            },
            Some((key, value)) => {
                &&& is_greatest_key(skipmap_entries(*old(map)), key)
                &&& value@ == skipmap_entries(*old(map))[key]
                &&& skipmap_entries(*final(map)) == skipmap_entries(*old(map)).remove(key)
            },
        },
    no_unwind
{
    match map.pop_back() {
        Some(entry) => Some((*entry.key(), entry.value().clone())),
        None => None,
    }
}

} // verus!
