//! Expectations over a trial: the observation turned into success or failure.

use crate::harness::{check, Error};
use crate::sentinel::LeakMe;
use vstd::prelude::*;

verus! {

/// The outcome owed when a leak is expected and the trial observed `leaked`.
pub open spec fn leak_outcome(leaked: bool) -> Result<(), Error> {
    if leaked {
        Ok(())
    } else {
        Err(Error::NotLeaked)
    }
}

/// The outcome owed when no leak is expected and the trial observed `leaked`.
pub open spec fn no_leak_outcome(leaked: bool) -> Result<(), Error> {
    if leaked {
        Err(Error::Leaked)
    } else {
        Ok(())
    }
}

/// Judges an observation against the expectation that the sentinel leaked.
pub fn judge_leak(leaked: bool) -> (r: Result<(), Error>)
    ensures
        r == leak_outcome(leaked),
{
    if leaked {
        Ok(())
    } else {
        Err(Error::NotLeaked)
    }
}

/// Judges an observation against the expectation that the sentinel was
/// finalized.
pub fn judge_no_leak(leaked: bool) -> (r: Result<(), Error>)
    ensures
        r == no_leak_outcome(leaked),
{
    if leaked {
        Err(Error::Leaked)
    } else {
        Ok(())
    }
}

/// Returns an error if `f` **does not** leak the `LeakMe` instance.
///
/// The routine is run on a sentinel and has returned before the outcome is
/// given. The outcome is success or `NotLeaked`, never `Leaked`; which of the
/// two an observation gives is `judge_leak`'s.
pub fn expect_leak<F: FnOnce(LeakMe)>(f: F) -> (r: Result<(), Error>)
    requires
        forall|s: LeakMe| f.requires((s,)),
    ensures
        exists|s: LeakMe| f.ensures((s,), ()),
        r != Err::<(), Error>(Error::Leaked),
{
    judge_leak(check(f))
}

/// Returns an error if `f` leaks the `LeakMe` instance.
///
/// The routine is run on a sentinel and has returned before the outcome is
/// given. The outcome is success or `Leaked`, never `NotLeaked`; which of the
/// two an observation gives is `judge_no_leak`'s.
pub fn expect_no_leak<F: FnOnce(LeakMe)>(f: F) -> (r: Result<(), Error>)
    requires
        forall|s: LeakMe| f.requires((s,)),
    ensures
        exists|s: LeakMe| f.ensures((s,), ()),
        r != Err::<(), Error>(Error::NotLeaked),
{
    judge_no_leak(check(f))
}

/// Both expectations are fixed by the observation alone: two trials that
/// observe the same flag value get the same outcome from either one, and on
/// any observation exactly one of the two expectations is met.
pub proof fn lemma_outcomes_fixed_by_observation(first: bool, second: bool)
    requires
        first == second,
    ensures
        leak_outcome(first) == leak_outcome(second),
        no_leak_outcome(first) == no_leak_outcome(second),
        leak_outcome(first) is Ok <==> no_leak_outcome(first) is Err,
{
}

} // verus!
