//! The liveness sentinel and the flag it clears when it is finalized.

use std::sync::atomic::{AtomicBool, Ordering};
use vstd::prelude::*;

verus! {

/// The value a liveness flag holds while its sentinel has not been finalized.
pub const ALIVE: bool = true;

/// The value a sentinel's finalizer writes into its liveness flag.
pub const DEAD: bool = false;

/// The type that a routine under trial should attempt to leak.
///
/// It holds a shared reference to one liveness flag and clears that flag
/// when it is finalized; it has no other behaviour.
pub struct LeakMe<'a> {
    pub(crate) alive: &'a AtomicBool,
}

impl<'a> LeakMe<'a> {
    /// Binds a sentinel to the liveness flag it clears when finalized.
    pub(crate) fn bind(alive: &'a AtomicBool) -> (r: LeakMe<'a>)
        ensures
            r.alive == alive,
    {
        LeakMe { alive }
    }
}

/// Relies on `AtomicBool::store`: it writes `v` into `flag`, and with the
/// `SeqCst` ordering it does not panic (it panics only for `Acquire` and
/// `AcqRel`), so it cannot unwind out of a finalizer.
#[verifier::external_body]
fn store_flag(flag: &AtomicBool, v: bool)
    opens_invariants none
    no_unwind
{
    flag.store(v, Ordering::SeqCst)
}

/// Clears a liveness flag: the one write a sentinel ever makes to it.
fn mark_dead(flag: &AtomicBool)
    opens_invariants none
    no_unwind
{
    store_flag(flag, DEAD);
}

impl<'a> Drop for LeakMe<'a> {
    fn drop(&mut self)
        opens_invariants none
        no_unwind
    {
        mark_dead(self.alive);
    }
}

/// The values a liveness flag holds when it starts at `start` and then
/// receives `writes` in order: entry `i` is its value after `i` writes.
pub open spec fn flag_history(start: bool, writes: Seq<bool>) -> Seq<bool> {
    Seq::new(writes.len() + 1, |i: int| if i == 0 { start } else { writes[i - 1] })
}

/// A flag that starts `ALIVE` and receives only `DEAD` writes, however many,
/// changes value at most once, from alive to dead, and never returns to
/// alive. That the writes are all `DEAD` is this lemma's premise: it models
/// `check` creating the flag `ALIVE` and `mark_dead` writing `DEAD`, which no
/// contract can state of std's atomic.
pub proof fn lemma_flag_monotone(writes: Seq<bool>)
    requires
        forall|k: int| 0 <= k < writes.len() ==> writes[k] == DEAD,
    ensures
        ({
            let h = flag_history(ALIVE, writes);
            &&& forall|i: int, j: int|
                0 <= i <= j < h.len() && h[i] == DEAD ==> h[j] == DEAD
            &&& forall|i: int|
                0 <= i < h.len() - 1 && #[trigger] h[i] != h[i + 1] ==> i == 0 && h[0] == ALIVE
                    && h[1] == DEAD
        }),
{
}

} // verus!
