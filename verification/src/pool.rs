//! The pool of tokens that the producer fills, the invalidator prunes and
//! the request handler draws from.

use crate::cache::Cache;
use crate::clock::{deadline_of, delay_until, eviction_deadline, expired, is_stale, remaining_validity};
use crate::model::{freshest, lemma_freshest_is, lemma_freshest_of_none, PoolState, Served};
use vstd::prelude::*;

verus! {

/// What a request receives.
#[derive(Debug, PartialEq, Eq)]
pub enum Reply {
    /// No token can be handed out: the pool was empty, or its freshest entry
    /// had already expired and was discarded.
    Unavailable,
    /// A token, with the nanoseconds for which it is still valid.
    Token { payload: String, remaining: u64 },
}

impl View for Reply {
    type V = Option<Served>;

    open spec fn view(&self) -> Option<Served> {
        match self {
            Reply::Unavailable => None,
            Reply::Token { payload, remaining } => Some(
                Served { payload: payload@, remaining: *remaining as int },
            ),
        }
    }
}

/// The HTTP status of a reply that carries a token.
pub const STATUS_OK: u16 = 200;

/// The HTTP status of a reply without a token: the caller is to ask again.
pub const STATUS_UNAVAILABLE: u16 = 503;

impl Reply {
    /// The HTTP status that goes with this reply.
    pub fn status(&self) -> (code: u16)
        ensures
            code == (if self is Token { STATUS_OK } else { STATUS_UNAVAILABLE }),
    {
        match self {
            Reply::Token { .. } => STATUS_OK,
            Reply::Unavailable => STATUS_UNAVAILABLE,
        }
    }
}

/// The eviction to arrange for an entry that was just stored: `key` is to be
/// released at `deadline`.
#[derive(Debug, Clone, Copy, PartialEq, Eq, Structural)]
pub struct Schedule {
    pub key: u64,
    pub deadline: u64,
}

/// A cache together with the number of entries that production aims for.
pub struct TokenPool {
    cache: Cache,
    capacity: usize,
}

impl View for TokenPool {
    type V = PoolState;

    closed spec fn view(&self) -> PoolState {
        PoolState { entries: self.cache@, capacity: self.capacity as nat }
    }
}

impl TokenPool {
    /// A pool holds finitely many entries.
    #[verifier::type_invariant]
    pub open spec fn well_formed(self) -> bool {
        self@.wf()
    }

    /// Makes an empty pool that production fills up to `capacity` entries.
    pub fn new(capacity: usize) -> (pool: TokenPool)
        ensures
            pool@ == PoolState::empty(capacity as nat),
            pool@.wf(),
    {
        TokenPool { cache: Cache::new(), capacity }
    }

    /// The number of entries that production aims to keep.
    pub fn capacity(&self) -> (capacity: usize)
        ensures
            capacity == self@.capacity,
    {
        self.capacity
    }

    /// The number of entries held.
    pub fn len(&self) -> (count: usize)
        ensures
            count == self@.entries.len(),
            self@.wf(),
    {
        self.cache.len()
    }

    /// Whether the pool holds fewer entries than its capacity, which is when
    /// the producer asks for another token.
    pub fn has_room(&self) -> (room: bool)
        ensures
            room == self@.has_room(),
            self@.wf(),
    {
        self.cache.len() < self.capacity
    }

    /// Stores `payload` under `expiry` and says when that entry is to be
    /// evicted. The pool grows by one entry, or by none where `expiry` was
    /// already present: the newer token then replaces the older.
    pub fn store(&mut self, expiry: u64, payload: String) -> (schedule: Schedule)
        ensures
            final(self)@ == old(self)@.store(expiry, payload@),
            final(self)@.wf(),
            schedule.key == expiry,
            schedule.deadline == deadline_of(expiry as int),
    {
        self.cache.insert(expiry, payload);
        Schedule { key: expiry, deadline: eviction_deadline(expiry) }
    }

    /// Removes the entry under `key`. Where it is already gone, served or
    /// evicted before, nothing changes.
    pub fn evict(&mut self, key: u64)
        ensures
            final(self)@ == old(self)@.evict(key),
            final(self)@.wf(),
            !final(self)@.entries.dom().contains(key),
    {
        self.cache.remove(key);
    }

    /// Handles one request at `now`: takes the freshest entry out of the pool
    /// and hands it out, unless the pool is empty or the entry has expired.
    /// An expired entry is discarded, never served.
    pub fn serve(&mut self, now: u64) -> (reply: Reply)
        ensures
            final(self)@ == old(self)@.after_serve(),
            final(self)@.wf(),
            reply@ == old(self)@.reply_at(now),
            old(self)@.entries.len() == 0 ==> reply is Unavailable,
            forall|key: u64|
                freshest(old(self)@.entries) == Some(key) && is_stale(key as int, now as int)
                    ==> reply is Unavailable,
            forall|key: u64|
                freshest(old(self)@.entries) == Some(key) ==> !final(self)@.entries.dom().contains(
                    key,
                ),
    {
        let ghost before = self@;
        match self.cache.take_freshest() {
            None => {
                proof {
                    lemma_freshest_of_none(before.entries);
                }
                Reply::Unavailable
            },
            Some((expiry, payload)) => {
                proof {
                    lemma_freshest_is(before.entries, expiry);
                }
                if expired(expiry, now) {
                    Reply::Unavailable
                } else {
                    Reply::Token { payload, remaining: remaining_validity(expiry, now) }
                }
            },
        }
    }
}

} // verus!
