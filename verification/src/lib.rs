//! Door monitoring policy engine.
//!
//! Tracks the position of a physical door (open, closed, or missing) and
//! decides when the state has gone stale and when an escalating alert is due,
//! with exponential backoff between alerts. The drivers around it (the
//! inbound transport, the periodic staleness and alert loops, and the
//! notification channel) live outside this library and only call the
//! operations here.

use vstd::prelude::*;

pub mod duration;
pub mod laws;
pub mod state;

pub use duration::Duration;
pub use state::{Consts, DoorPosition, Secret, State};

verus! {

/// Relies on `Box::leak`: the returned reference points at the boxed value
/// and lives for the rest of the process.
#[verifier::external_body]
fn box_leak<T>(b: Box<T>) -> (r: &'static mut T)
    ensures
        *r == *b,
{
    Box::leak(b)
}

/// Move a value to the heap and let it live for the rest of the process.
pub fn leak<T>(x: T) -> (r: &'static mut T)
    ensures
        *r == x,
{
    box_leak(Box::new(x))
}

} // verus!
