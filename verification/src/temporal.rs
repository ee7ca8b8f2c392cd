//! Configuration for interpolating smile metrics onto a fixed expiry ladder.
//!
//! The interpolation itself works on floating-point implied volatilities and
//! is performed by the unverified numerical layer; the ladder description —
//! which calendar days to target, which method to use, whether to extrapolate,
//! and how many distinct maturities the input must carry — is integer-valued
//! and is defined and verified here.

use vstd::prelude::*;

verus! {

/// Method used to interpolate a metric across time-to-expiration.
#[derive(Debug, Clone, Copy, PartialEq, Eq, Structural)]
pub enum TemporalInterpMethod {
    /// Linear interpolation directly on (time, value) pairs.
    LinearTte,
    /// Interpolate total variance, then convert back to implied volatility.
    LinearVariance,
    /// Scale by the square root of the time ratio.
    SquareRootTime,
}

impl Default for TemporalInterpMethod {
    /// Variance-space interpolation is the default method.
    fn default() -> (r: Self)
        ensures
            r == TemporalInterpMethod::LinearVariance,
    {
        TemporalInterpMethod::LinearVariance
    }
}

/// Description of a fixed expiry ladder: the target calendar days, the
/// interpolation method, the extrapolation policy on either end, and the
/// minimum number of distinct maturities the input data must provide.
#[derive(Debug, Clone)]
pub struct TemporalConfig {
    /// Calendar days of the target ladder, e.g. a weekly grid.
    pub fixed_days: Vec<i32>,
    /// Interpolation method for metrics across time.
    pub interp_method: TemporalInterpMethod,
    /// Whether targets below the shortest observed maturity are kept.
    pub allow_short_extrapolate: bool,
    /// Whether targets beyond the longest observed maturity are kept.
    pub allow_long_extrapolate: bool,
    /// Minimum number of distinct maturities required of the input.
    pub min_maturities: usize,
}

impl Default for TemporalConfig {
    /// A short ladder up to one month, variance-space interpolation, long
    /// extrapolation only, at least two maturities.
    fn default() -> (r: Self)
        ensures
            r.fixed_days@ == seq![1i32, 3i32, 7i32, 14i32, 30i32],
            r.interp_method == TemporalInterpMethod::LinearVariance,
            !r.allow_short_extrapolate,
            r.allow_long_extrapolate,
            r.min_maturities == 2,
    {
        let mut days: Vec<i32> = Vec::new();
        days.push(1);
        days.push(3);
        days.push(7);
        days.push(14);
        days.push(30);
        proof {
            assert(days@ =~= seq![1i32, 3i32, 7i32, 14i32, 30i32]);
        }
        TemporalConfig::from_days(days)
    }
}

impl TemporalConfig {
    /// A ladder over the given days, with every other field at its default.
    pub fn from_days(days: Vec<i32>) -> (r: Self)
        ensures
            r.fixed_days@ == days@,
            r.interp_method == TemporalInterpMethod::LinearVariance,
            !r.allow_short_extrapolate,
            r.allow_long_extrapolate,
            r.min_maturities == 2,
    {
        TemporalConfig {
            fixed_days: days,
            interp_method: TemporalInterpMethod::LinearVariance,
            allow_short_extrapolate: false,
            allow_long_extrapolate: true,
            min_maturities: 2,
        }
    }

    /// The weekly ladder: 7, 14, 21 and 28 days.
    pub fn weekly() -> (r: Self)
        ensures
            r.fixed_days@ == seq![7i32, 14i32, 21i32, 28i32],
            r.interp_method == TemporalInterpMethod::LinearVariance,
            !r.allow_short_extrapolate,
            r.allow_long_extrapolate,
            r.min_maturities == 2,
    {
        let mut days: Vec<i32> = Vec::new();
        days.push(7);
        days.push(14);
        days.push(21);
        days.push(28);
        proof {
            assert(days@ =~= seq![7i32, 14i32, 21i32, 28i32]);
        }
        TemporalConfig::from_days(days)
    }

    /// The monthly ladder: 30, 60, 90 and 120 days.
    pub fn monthly() -> (r: Self)
        ensures
            r.fixed_days@ == seq![30i32, 60i32, 90i32, 120i32],
            r.interp_method == TemporalInterpMethod::LinearVariance,
            !r.allow_short_extrapolate,
            r.allow_long_extrapolate,
            r.min_maturities == 2,
    {
        let mut days: Vec<i32> = Vec::new();
        days.push(30);
        days.push(60);
        days.push(90);
        days.push(120);
        proof {
            assert(days@ =~= seq![30i32, 60i32, 90i32, 120i32]);
        }
        TemporalConfig::from_days(days)
    }

    /// Whether input data with `n` distinct maturities satisfies this
    /// configuration's coverage requirement.
    pub fn accepts_maturity_count(&self, n: usize) -> (r: bool)
        ensures
            r == (n >= self.min_maturities),
    {
        n >= self.min_maturities
    }
}

} // verus!
