//! Volatility-surface calibration support library.
//!
//! The numerical heart of a surface calibration — SVI total variance, the
//! weighted objective, CMA-ES and L-BFGS-B — is floating-point work that a
//! separate, unverified layer performs. This crate holds the discrete side of
//! the pipeline and proves it correct: the single-expiry admission check on a
//! market slice, the stable ordering of pricing output, the decision kernel of
//! the calibration pipeline (warm-start handling and the adaptive-bounds outer
//! loop), and the integer-valued configuration types with their defaults.

use vstd::prelude::*;

pub mod config;
pub mod market;
pub mod ordering;
pub mod pipeline;
pub mod temporal;

verus! {

/// Number of free parameters of the SVI smile: `(a, b, rho, m, sigma)`.
pub fn svi_param_count() -> (r: usize)
    ensures
        r == 5,
{
    5
}

/// Names of the SVI parameters, in the order the optimization vector uses.
pub fn svi_param_names() -> (r: Vec<&'static str>)
    ensures
        r@.len() == 5,
        r@[0]@ == "a"@,
        r@[1]@ == "b"@,
        r@[2]@ == "rho"@,
        r@[3]@ == "m"@,
        r@[4]@ == "sigma"@,
{
    let mut names: Vec<&'static str> = Vec::new();
    names.push("a");
    names.push("b");
    names.push("rho");
    names.push("m");
    names.push("sigma");
    names
}

} // verus!
