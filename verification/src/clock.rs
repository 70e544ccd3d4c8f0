//! Instants, the two fixed durations, and the arithmetic between them.

use vstd::prelude::*;

verus! {

/// Nanoseconds in one second.
pub const NANOS_PER_SEC: u64 = 1_000_000_000;

/// How long a token stays usable after it was produced: fifteen minutes.
pub const VALIDITY_WINDOW: u64 = 900_000_000_000;

/// How long before its expiry an unserved token is evicted: one minute.
pub const SAFETY_MARGIN: u64 = 60_000_000_000;

/// The expiry of a token produced at `now`.
pub open spec fn expiry_of(now: int) -> int {
    now + VALIDITY_WINDOW
}

/// The instant at which an entry that expires at `expiry` is due for eviction.
/// An expiry nearer to the origin than the safety margin is due at once.
pub open spec fn deadline_of(expiry: int) -> int {
    if expiry >= SAFETY_MARGIN {
        expiry - SAFETY_MARGIN
    } else {
        0
    }
}

/// How long a timer started at `now` waits for `deadline`: nothing at all
/// once the deadline has passed.
pub open spec fn delay_until(deadline: int, now: int) -> int {
    if deadline >= now {
        deadline - now
    } else {
        0
    }
}

/// An entry is stale once the clock has moved past its expiry. At the very
/// instant of expiry it is still served.
pub open spec fn is_stale(expiry: int, now: int) -> bool {
    now > expiry
}

/// Whether a token produced at `now` has an expiry that the clock can hold.
pub open spec fn can_expire(now: int) -> bool {
    now + VALIDITY_WINDOW <= u64::MAX
}

/// Tells whether [`expiry_after`] may be called at `now`.
pub fn expiry_representable(now: u64) -> (ok: bool)
    ensures
        ok == can_expire(now as int),
{
    now <= u64::MAX - VALIDITY_WINDOW
}

/// Computes the expiry of a token produced at `now`.
pub fn expiry_after(now: u64) -> (expiry: u64)
    requires
        can_expire(now as int),
    ensures
        expiry == expiry_of(now as int),
{
    now + VALIDITY_WINDOW
}

/// Computes the instant at which the entry expiring at `expiry` is evicted.
pub fn eviction_deadline(expiry: u64) -> (deadline: u64)
    ensures
        deadline == deadline_of(expiry as int),
{
    expiry.saturating_sub(SAFETY_MARGIN)
}

/// Computes the delay to hand to a timer at `now` so that it fires at
/// `deadline`.
pub fn eviction_delay(deadline: u64, now: u64) -> (delay: u64)
    ensures
        delay == delay_until(deadline as int, now as int),
{
    deadline.saturating_sub(now)
}

/// Tells whether the entry expiring at `expiry` may no longer be served at
/// `now`.
pub fn expired(expiry: u64, now: u64) -> (stale: bool)
    ensures
        stale == is_stale(expiry as int, now as int),
{
    now > expiry
}

/// Computes how long the entry expiring at `expiry` is still valid at `now`.
pub fn remaining_validity(expiry: u64, now: u64) -> (left: u64)
    ensures
        left == delay_until(expiry as int, now as int),
{
    expiry.saturating_sub(now)
}

} // verus!
