//! Integer-valued optimizer configuration defaults.
//!
//! The optimizer configuration record is mostly floating-point (tolerances,
//! adaptation rates) and lives with the unverified numerical layer; the
//! integer knobs below are the ones whose defaults this crate pins down.

use vstd::prelude::*;

verus! {

/// Default cap on optimizer iterations.
pub fn default_max_iterations() -> (r: usize)
    ensures
        r == 5000,
{
    5000
}

/// Default population size for the evolutionary global search.
pub fn default_pop_size() -> (r: usize)
    ensures
        r == 50,
{
    50
}

/// Default cap on generations for the evolutionary global search.
pub fn default_max_gen() -> (r: usize)
    ensures
        r == 100,
{
    100
}

} // verus!
