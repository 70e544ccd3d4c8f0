//! The producer's decisions: when to ask the generator for a token, and what
//! to do with what comes back.

use crate::clock::{can_expire, deadline_of, expiry_of};
use crate::encoding::{base64_standard, encodable, mint};
use crate::pool::{Schedule, TokenPool};
use vstd::prelude::*;

verus! {

/// What the producer does in one round.
#[derive(Debug, Clone, Copy, PartialEq, Eq, Structural)]
pub enum ProducerAction {
    /// The pool is full: call nothing and look again in the next round.
    Idle,
    /// There is room: call the generator.
    Generate,
}

/// What a call of the generator came back with.
#[derive(Debug, PartialEq, Eq)]
pub enum Generation {
    /// The generator failed. The failure is passing: the next round tries
    /// again.
    Failed,
    /// The raw bytes of one token.
    Produced(Vec<u8>),
}

/// How a round in which the generator was called ends.
#[derive(Debug, Clone, Copy, PartialEq, Eq, Structural)]
pub enum ProducerOutcome {
    /// Nothing was stored; the failure goes no further than the log.
    Retry,
    /// The token is in the pool, and its eviction is to be arranged as given.
    Stored(Schedule),
}

/// Decides whether this round calls the generator: only while the pool holds
/// fewer entries than its capacity.
pub fn next_action(pool: &TokenPool) -> (action: ProducerAction)
    ensures
        action is Generate <==> pool@.has_room(),
        action is Idle <==> !pool@.has_room(),
{
    if pool.has_room() {
        ProducerAction::Generate
    } else {
        ProducerAction::Idle
    }
}

/// Ends a round in which the generator was called at `now`. A token is
/// encoded, stored under the expiry that `now` gives it, and scheduled for
/// eviction one safety margin before that expiry. A failure changes nothing.
pub fn on_generation(pool: &mut TokenPool, now: u64, generation: Generation) -> (outcome:
    ProducerOutcome)
    requires
        generation matches Generation::Produced(raw) ==> can_expire(now as int) && encodable(
            raw@.len(),
        ),
    ensures
        match generation {
            Generation::Failed => final(pool)@ == old(pool)@ && outcome is Retry,
            Generation::Produced(raw) => {
                &&& final(pool)@ == old(pool)@.store(
                    expiry_of(now as int) as u64,
                    base64_standard(raw@),
                )
                &&& outcome matches ProducerOutcome::Stored(schedule)
                &&& schedule.key == expiry_of(now as int)
                &&& schedule.deadline == deadline_of(expiry_of(now as int))
            },
        },
{
    match generation {
        Generation::Failed => {
            ProducerOutcome::Retry
        },
        Generation::Produced(raw) => {
            let (expiry, payload) = mint(now, raw.as_slice());
            ProducerOutcome::Stored(pool.store(expiry, payload))
        },
    }
}

} // verus!
