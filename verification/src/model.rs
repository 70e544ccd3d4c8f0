//! The pool as a mathematical value, the operations of the service on it,
//! and what holds of every run of them.

use crate::clock::{can_expire, delay_until, expiry_of, is_stale};
use crate::skiplist::is_greatest_key;
use vstd::prelude::*;

verus! {

/// What a pool holds: its entries, each expiry with the token stored under
/// it, and the number of entries that production aims to keep.
pub struct PoolState {
    pub entries: Map<u64, Seq<char>>,
    pub capacity: nat,
}

/// A token as it leaves the pool: its text and how long it is still valid.
pub struct Served {
    pub payload: Seq<char>,
    pub remaining: int,
}

/// One operation of the service on the pool.
pub enum Step {
    /// One round of the producer at `now`, in which the generator, where
    /// there is room for it to be called, yields `payload` as the encoded
    /// token.
    Produce { now: u64, payload: Seq<char> },
    /// The eviction timer released `key`.
    Evict { key: u64 },
    /// One request, handled at `now`.
    Serve { now: u64 },
}

/// The greatest expiry among `entries`, if there is any entry.
pub open spec fn freshest(entries: Map<u64, Seq<char>>) -> Option<u64> {
    if exists|key: u64| is_greatest_key(entries, key) {
        Some(choose|key: u64| is_greatest_key(entries, key))
    } else {
        None
    }
}

impl Step {
    /// A round of production needs a clock that can hold the expiry of the
    /// token it makes.
    pub open spec fn admissible(self) -> bool {
        self matches Step::Produce { now, .. } ==> can_expire(now as int)
    }

    /// The key under which this step stores a token, if it is a round of
    /// production.
    pub open spec fn produces(self, key: u64) -> bool {
        self matches Step::Produce { now, .. } && expiry_of(now as int) == key
    }
}

impl PoolState {
    /// A pool holds finitely many entries.
    pub open spec fn wf(self) -> bool {
        self.entries.dom().finite()
    }

    /// The pool with the given capacity and no entry.
    pub open spec fn empty(capacity: nat) -> PoolState {
        PoolState { entries: Map::empty(), capacity }
    }

    /// The condition under which the producer asks for a token: the pool
    /// holds fewer entries than its capacity.
    pub open spec fn has_room(self) -> bool {
        self.entries.len() < self.capacity
    }

    /// No more entries than the capacity.
    pub open spec fn within_capacity(self) -> bool {
        self.entries.len() <= self.capacity
    }

    /// The pool after `payload` was stored under `expiry`.
    pub open spec fn store(self, expiry: u64, payload: Seq<char>) -> PoolState {
        PoolState { entries: self.entries.insert(expiry, payload), ..self }
    }

    /// The pool after the entry under `key`, if any, was removed.
    pub open spec fn evict(self, key: u64) -> PoolState {
        PoolState { entries: self.entries.remove(key), ..self }
    }

    /// The pool after one request: the freshest entry is gone, whether it
    /// was handed out or found stale.
    pub open spec fn after_serve(self) -> PoolState {
        match freshest(self.entries) {
            Some(key) => self.evict(key),
            None => self,
        }
    }

    /// What a request handled at `now` receives: the freshest entry, unless
    /// there is none or its expiry has passed.
    pub open spec fn reply_at(self, now: u64) -> Option<Served> {
        match freshest(self.entries) {
            Some(key) => if is_stale(key as int, now as int) {
                None
            } else {
                Some(Served { payload: self.entries[key], remaining: delay_until(key as int, now as int) })
            },
            None => None,
        }
    }

    /// The pool after one round of the producer: where there is room, the
    /// token made at `now` is stored under its expiry; where there is none,
    /// no token is made and nothing changes.
    pub open spec fn produce(self, now: u64, payload: Seq<char>) -> PoolState
        recommends
            can_expire(now as int),
    {
        if self.has_room() {
            self.store(expiry_of(now as int) as u64, payload)
        } else {
            self
        }
    }

    /// The pool after `step`.
    pub open spec fn step(self, step: Step) -> PoolState {
        match step {
            Step::Produce { now, payload } => self.produce(now, payload),
            Step::Evict { key } => self.evict(key),
            Step::Serve { now } => self.after_serve(),
        }
    }

    /// The pool after all of `steps`, first to last.
    pub open spec fn run(self, steps: Seq<Step>) -> PoolState
        decreases steps.len(),
    {
        if steps.len() == 0 {
            self
        } else {
            self.run(steps.drop_last()).step(steps.last())
        }
    }

    /// What a burst of requests receives, one reply for each of `times`, the
    /// requests taking their turns at the pool in that order.
    pub open spec fn replies(self, times: Seq<u64>) -> Seq<Option<Served>>
        decreases times.len(),
    {
        if times.len() == 0 {
            Seq::empty()
        } else {
            seq![self.reply_at(times.first())] + self.after_serve().replies(times.drop_first())
        }
    }
}

/// At most one key is the greatest.
pub proof fn lemma_greatest_key_unique(entries: Map<u64, Seq<char>>, a: u64, b: u64)
    requires
        is_greatest_key(entries, a),
        is_greatest_key(entries, b),
    ensures
        a == b,
{
}

/// Once a key is known to be the greatest, it is the freshest.
pub proof fn lemma_freshest_is(entries: Map<u64, Seq<char>>, key: u64)
    requires
        is_greatest_key(entries, key),
    ensures
        freshest(entries) == Some(key),
{
    let chosen = choose|k: u64| is_greatest_key(entries, k);
    lemma_greatest_key_unique(entries, key, chosen);
}

/// Without entries there is no freshest one.
pub proof fn lemma_freshest_of_none(entries: Map<u64, Seq<char>>)
    requires
        entries.dom().finite(),
        entries.len() == 0,
    ensures
        freshest(entries) is None,
{
    assert forall|key: u64| !is_greatest_key(entries, key) by {
        if entries.dom().contains(key) {
            assert(entries.dom().len() != 0);
        }
    }
}

/// The freshest entry, where there is one, is present and has the greatest
/// key.
pub proof fn lemma_freshest_is_greatest(entries: Map<u64, Seq<char>>)
    ensures
        freshest(entries) matches Some(key) ==> is_greatest_key(entries, key),
{
}

/// A pool that is not empty has a freshest entry.
pub proof fn lemma_freshest_exists(entries: Map<u64, Seq<char>>)
    requires
        entries.dom().finite(),
        entries.len() > 0,
    ensures
        freshest(entries) matches Some(key) && is_greatest_key(entries, key),
    decreases entries.len(),
{
    let one = entries.dom().choose();
    let rest = entries.remove(one);
    if rest.len() == 0 {
        assert forall|other: u64| entries.dom().contains(other) implies other <= one by {
            if other != one {
                assert(rest.dom().contains(other));
            }
        }
        lemma_freshest_is(entries, one);
    } else {
        lemma_freshest_exists(rest);
        let most = freshest(rest)->0;
        let key = if one > most { one } else { most };
        assert forall|other: u64| entries.dom().contains(other) implies other <= key by {
            if other != one {
                assert(rest.dom().contains(other));
            }
        }
        lemma_freshest_is(entries, key);
    }
}

/// No step makes a pool hold infinitely many entries, and no step takes a
/// pool over its capacity: production stores only where there is room, and
/// eviction and serving only remove.
pub proof fn lemma_step_keeps_capacity(state: PoolState, step: Step)
    requires
        state.wf(),
    ensures
        state.step(step).wf(),
        state.step(step).capacity == state.capacity,
        state.within_capacity() ==> state.step(step).within_capacity(),
        state.step(step).entries.len() <= state.entries.len() + 1,
{
}

/// However production, eviction and serving follow one another, a pool that
/// starts within its capacity, an empty one for instance, never holds more
/// entries than its capacity.
pub proof fn theorem_capacity_is_kept(state: PoolState, steps: Seq<Step>)
    requires
        state.wf(),
        state.within_capacity(),
    ensures
        state.run(steps).wf(),
        state.run(steps).capacity == state.capacity,
        state.run(steps).within_capacity(),
    decreases steps.len(),
{
    if steps.len() > 0 {
        theorem_capacity_is_kept(state, steps.drop_last());
        lemma_step_keeps_capacity(state.run(steps.drop_last()), steps.last());
    }
}

/// After any run of steps, a request finds the entry with the greatest
/// expiry that is present at that moment, and finds none only in an empty
/// pool.
pub proof fn theorem_request_finds_greatest(state: PoolState, steps: Seq<Step>)
    requires
        state.wf(),
    ensures
        match freshest(state.run(steps).entries) {
            Some(key) => is_greatest_key(state.run(steps).entries, key),
            None => state.run(steps).entries.len() == 0,
        },
{
    lemma_run_is_well_formed(state, steps);
    let entries = state.run(steps).entries;
    if entries.len() > 0 {
        lemma_freshest_exists(entries);
    }
}

/// Every run of steps from a pool of finitely many entries ends in one.
pub proof fn lemma_run_is_well_formed(state: PoolState, steps: Seq<Step>)
    requires
        state.wf(),
    ensures
        state.run(steps).wf(),
    decreases steps.len(),
{
    if steps.len() > 0 {
        lemma_run_is_well_formed(state, steps.drop_last());
        lemma_step_keeps_capacity(state.run(steps.drop_last()), steps.last());
    }
}

/// A key that is not in the pool stays out of it for as long as production
/// does not store it anew.
pub proof fn lemma_absent_key_stays_absent(state: PoolState, key: u64, steps: Seq<Step>)
    requires
        !state.entries.dom().contains(key),
        forall|i: int| 0 <= i < steps.len() ==> (#[trigger] steps[i]).admissible(),
        forall|i: int| 0 <= i < steps.len() ==> !(#[trigger] steps[i]).produces(key),
    ensures
        !state.run(steps).entries.dom().contains(key),
    decreases steps.len(),
{
    if steps.len() > 0 {
        let earlier = steps.drop_last();
        assert forall|i: int| 0 <= i < earlier.len() implies (#[trigger] earlier[i]).admissible()
            && !earlier[i].produces(key) by {
            assert(earlier[i] == steps[i]);
        }
        lemma_absent_key_stays_absent(state, key, earlier);
        let last = steps.last();
        assert(last == steps[steps.len() - 1]);
        assert(last.admissible() && !last.produces(key));
    }
}

/// A served entry is not seen again. Once a request has taken the entry
/// under `key` out of the pool, whether it was handed out or discarded as
/// stale, no later request finds that key, whatever happens in between,
/// unless production stores a token under the very same expiry.
pub proof fn theorem_served_key_is_gone(state: PoolState, key: u64, steps: Seq<Step>)
    requires
        freshest(state.entries) == Some(key),
        forall|i: int| 0 <= i < steps.len() ==> (#[trigger] steps[i]).admissible(),
        forall|i: int| 0 <= i < steps.len() ==> !(#[trigger] steps[i]).produces(key),
    ensures
        !state.after_serve().entries.dom().contains(key),
        forall|n: int|
            0 <= n <= steps.len() ==> {
                let later = #[trigger] state.after_serve().run(steps.take(n));
                &&& !later.entries.dom().contains(key)
                &&& freshest(later.entries) != Some(key)
            },
{
    let after = state.after_serve();
    assert forall|n: int| 0 <= n <= steps.len() implies {
        let later = #[trigger] after.run(steps.take(n));
        &&& !later.entries.dom().contains(key)
        &&& freshest(later.entries) != Some(key)
    } by {
        let prefix = steps.take(n);
        assert forall|i: int| 0 <= i < prefix.len() implies (#[trigger] prefix[i]).admissible()
            && !prefix[i].produces(key) by {
            assert(prefix[i] == steps[i]);
        }
        lemma_absent_key_stays_absent(after, key, prefix);
        lemma_freshest_is_greatest(after.run(prefix).entries);
    }
}

/// With exactly one entry in the pool, of any number of requests that race
/// for it exactly one receives it, the first to reach the pool, and every
/// other is told that nothing is available. The entry is taken to be still
/// valid when that first request arrives.
pub proof fn theorem_single_entry_single_winner(state: PoolState, key: u64, times: Seq<u64>)
    requires
        state.entries.dom() == set![key],
        times.len() >= 1,
        !is_stale(key as int, times[0] as int),
    ensures
        state.replies(times).len() == times.len(),
        state.replies(times)[0] == Some(
            Served { payload: state.entries[key], remaining: key - times[0] },
        ),
        forall|i: int| 1 <= i < times.len() ==> state.replies(times)[i] is None,
{
    assert(is_greatest_key(state.entries, key));
    lemma_freshest_is(state.entries, key);
    let after = state.after_serve();
    assert(after.entries.dom() =~= Set::<u64>::empty());
    lemma_replies_of_empty(after, times.drop_first());
}

/// An empty pool answers every request of a burst with nothing.
pub proof fn lemma_replies_of_empty(state: PoolState, times: Seq<u64>)
    requires
        state.entries.dom() == Set::<u64>::empty(),
    ensures
        state.replies(times).len() == times.len(),
        forall|i: int| 0 <= i < times.len() ==> state.replies(times)[i] is None,
    decreases times.len(),
{
    assert(freshest(state.entries) is None) by {
        assert forall|key: u64| !is_greatest_key(state.entries, key) by {}
    }
    if times.len() > 0 {
        lemma_replies_of_empty(state.after_serve(), times.drop_first());
    }
}

} // verus!
