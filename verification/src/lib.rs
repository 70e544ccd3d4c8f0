//! A bounded store of short-lived tokens and the decisions of the service
//! that keeps it filled, evicts entries ahead of their expiry, and hands
//! each token out at most once, freshest first.
//!
//! All instants are nanoseconds on a monotonic clock, counted from an origin
//! the caller chooses and keeps for the life of the process.

pub mod cache;
pub mod clock;
pub mod encoding;
pub mod expires;
pub mod invalidator;
pub mod model;
pub mod pool;
pub mod producer;
pub mod skiplist;
pub mod supervisor;
