//! The invalidator's decisions: what to do with each thing the eviction
//! timer hands over.

use crate::pool::TokenPool;
use vstd::prelude::*;

verus! {

/// What the eviction timer hands over.
#[derive(Debug, Clone, Copy, PartialEq, Eq, Structural)]
pub enum Release {
    /// The deadline of the entry under this key has come.
    Due(u64),
    /// The timer has shut down and will release nothing more.
    Closed,
}

/// Whether the invalidator goes on waiting.
#[derive(Debug, Clone, Copy, PartialEq, Eq, Structural)]
pub enum LoopControl {
    /// Wait for the next release.
    Continue,
    /// Leave the loop. The service cannot run without it and shuts down.
    Stop,
}

/// Handles one release. A due key is removed from the pool, whether or not
/// it is still there; a closed timer ends the loop and leaves the pool alone.
pub fn on_release(pool: &mut TokenPool, release: Release) -> (control: LoopControl)
    ensures
        match release {
            Release::Due(key) => {
                &&& final(pool)@ == old(pool)@.evict(key)
                &&& !final(pool)@.entries.dom().contains(key)
                &&& control is Continue
            },
            Release::Closed => final(pool)@ == old(pool)@ && control is Stop,
        },
{
    match release {
        Release::Due(key) => {
            pool.evict(key);
            LoopControl::Continue
        },
        Release::Closed => {
            LoopControl::Stop
        },
    }
}

} // verus!
