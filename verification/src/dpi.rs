//! Canonical physical resolution: an exact rational number of pixels
//! per inch. Sources that store pixels per centimeter are normalized
//! by the exact factor 2.54 = 254/100 so no precision is lost.

use vstd::prelude::*;

verus! {

/// Largest numerator a well-formed resolution may carry.
pub const DPI_NUM_MAX: u64 = 1_000_000_000_000_000;

/// Largest denominator a well-formed resolution may carry.
pub const DPI_DEN_MAX: u64 = 1_000_000_000_000;

/// The print-industry default assumed when no metadata yields a
/// resolution: 300 pixels per inch.
pub const DEFAULT_DPI: u64 = 300;

/// How a source file expressed its pixel density.
#[derive(Clone, Copy, PartialEq, Eq, Structural, Debug)]
pub enum ResolutionUnit {
    Unspecified,
    PerInch,
    PerCentimeter,
}

/// Pixels per inch as an exact rational `num / den`.
#[derive(Clone, Copy, PartialEq, Eq, Structural, Debug)]
pub struct Dpi {
    pub num: u64,
    pub den: u64,
}

impl Dpi {
    /// A well-formed resolution is strictly positive and bounded so
    /// that downstream pixel arithmetic cannot overflow.
    pub open spec fn wf(self) -> bool {
        1 <= self.num <= DPI_NUM_MAX && 1 <= self.den <= DPI_DEN_MAX
    }

    /// The fallback resolution of 300 pixels per inch.
    pub fn default_dpi() -> (r: Dpi)
        ensures
            r.wf(),
            r.num == DEFAULT_DPI,
            r.den == 1,
    {
        Dpi { num: DEFAULT_DPI, den: 1 }
    }

    /// An exact whole number of pixels per inch.
    pub fn per_inch(v: u64) -> (r: Dpi)
        requires
            1 <= v <= DPI_NUM_MAX,
        ensures
            r.wf(),
            r.num == v,
            r.den == 1,
    {
        Dpi { num: v, den: 1 }
    }

    /// A whole number of pixels per centimeter, normalized to pixels
    /// per inch by the exact factor 254/100.
    pub fn per_centimeter(v: u64) -> (r: Dpi)
        requires
            1 <= v,
            v * 254 <= DPI_NUM_MAX,
        ensures
            r.wf(),
            r.num == v * 254,
            r.den == 100,
    {
        Dpi { num: v * 254, den: 100 }
    }
}

} // verus!
