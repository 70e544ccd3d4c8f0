//! The cache: tokens keyed by their expiry, with the freshest taken first.

use crate::skiplist::{
    is_greatest_key, no_entries, skipmap_entries, skipmap_insert, skipmap_len, skipmap_new,
    skipmap_pop_back, skipmap_remove,
};
use crossbeam_skiplist::SkipMap;
use vstd::prelude::*;

verus! {

/// An ordered store of encoded tokens, one per expiry instant.
///
/// Its view is the map from each expiry present to the token stored under it.
pub struct Cache {
    map: SkipMap<u64, String>,
}

impl View for Cache {
    type V = Map<u64, Seq<char>>;

    closed spec fn view(&self) -> Map<u64, Seq<char>> {
        skipmap_entries(self.map)
    }
}

impl Cache {
    /// A cache holds finitely many entries.
    #[verifier::type_invariant]
    pub open spec fn well_formed(self) -> bool {
        self@.dom().finite()
    }

    /// Makes an empty cache.
    pub fn new() -> (cache: Cache)
        ensures
            cache@ == no_entries(),
            cache@.dom().finite(),
    {
        Cache { map: skipmap_new() }
    }

    /// Counts the entries.
    pub fn len(&self) -> (count: usize)
        ensures
            count == self@.len(),
            self@.dom().finite(),
    {
        proof {
            use_type_invariant(self);
        }
        skipmap_len(&self.map)
    }

    /// Stores `payload` under `expiry`. A token already stored under that
    /// expiry is replaced.
    pub fn insert(&mut self, expiry: u64, payload: String)
        ensures
            final(self)@ == old(self)@.insert(expiry, payload@),
            final(self)@.dom().finite(),
        no_unwind
    {
        proof {
            use_type_invariant(&*self);
        }
        skipmap_insert(&mut self.map, expiry, payload);
    }

    /// Removes the entry stored under `expiry`. Where there is none, nothing
    /// changes.
    pub fn remove(&mut self, expiry: u64)
        ensures
            final(self)@ == old(self)@.remove(expiry),
            final(self)@.dom().finite(),
        no_unwind
    {
        proof {
            use_type_invariant(&*self);
        }
        skipmap_remove(&mut self.map, expiry);
    }

    /// Removes and returns the entry with the greatest expiry. Returns `None`
    /// exactly when the cache is empty.
    pub fn take_freshest(&mut self) -> (taken: Option<(u64, String)>)
        ensures
            final(self)@.dom().finite(),
            match taken {
                None => old(self)@.len() == 0 && final(self)@ == old(self)@,
                Some((expiry, payload)) => {
                    &&& is_greatest_key(old(self)@, expiry)
                    &&& payload@ == old(self)@[expiry]
                    &&& final(self)@ == old(self)@.remove(expiry)
                },
            },
            taken is None <==> old(self)@.len() == 0,
        no_unwind
    {
        proof {
            use_type_invariant(&*self);
        }
        skipmap_pop_back(&mut self.map)
    }
}

} // verus!
