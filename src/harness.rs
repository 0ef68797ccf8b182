//! One trial: a fresh flag, a sentinel bound to it, the routine, one read.

use crate::sentinel::{LeakMe, ALIVE};
use std::sync::atomic::{AtomicBool, Ordering};
use vstd::prelude::*;

verus! {

/// Why an expectation about a trial was not met.
#[derive(Debug, Clone, Copy, PartialEq, Eq, Structural)]
pub enum Error {
    /// A leak was expected, but the sentinel was finalized.
    NotLeaked,
    /// No leak was expected, but the sentinel outlived the routine.
    Leaked,
}

/// Runs `f` with a `LeakMe` instance. Returns true if the
/// function successfully leaked the instance, and false otherwise.
///
/// The flag is created for this trial alone and read once, after `f` has
/// returned; nothing is shared between two trials. The routine is run on a
/// sentinel and has returned by the time the result is given.
pub fn check<F: FnOnce(LeakMe)>(f: F) -> (leaked: bool)
    requires
        forall|s: LeakMe| f.requires((s,)),
    ensures
        exists|s: LeakMe| f.ensures((s,), ()),
{
    let alive = AtomicBool::new(ALIVE);
    {
        let leak_me = LeakMe::bind(&alive);
        f(leak_me);
    }
    alive.load(Ordering::SeqCst)
}

} // verus!
