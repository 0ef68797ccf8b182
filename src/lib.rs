//! A harness that tells whether a routine lets a scoped value outlive the
//! scope that should have finalized it.

mod expect;
mod harness;
mod sentinel;

pub use expect::{
    expect_leak, expect_no_leak, judge_leak, judge_no_leak, leak_outcome,
    lemma_outcomes_fixed_by_observation, no_leak_outcome,
};
pub use harness::{check, Error};
pub use sentinel::{flag_history, lemma_flag_monotone, LeakMe, ALIVE, DEAD};
