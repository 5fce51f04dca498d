//! Quality tiers of a product.
//!
//! A tier contributes a fixed *quality value* to demand and to the floor of
//! the production cost, and a product only ever moves forward through the
//! tiers: Basic to Good to Exceptional, never back.

use vstd::prelude::*;

verus! {

/// Ordinal quality tier of a product.
#[derive(Clone, Copy, Debug, PartialEq, Eq, Structural)]
pub enum Quality {
    Basic,
    Good,
    Exceptional,
}

/// Position of a tier in the Basic < Good < Exceptional order.
pub open spec fn quality_rank(q: Quality) -> int {
    match q {
        Quality::Basic => 0,
        Quality::Good => 1,
        Quality::Exceptional => 2,
    }
}

/// `a` is at most as advanced as `b`.
pub open spec fn quality_le(a: Quality, b: Quality) -> bool {
    quality_rank(a) <= quality_rank(b)
}

/// Numeric contribution of a tier to demand and to the cost floor.
pub open spec fn spec_quality_value(q: Quality) -> int {
    match q {
        Quality::Basic => 0,
        Quality::Good => 5,
        Quality::Exceptional => 15,
    }
}

/// The tier one step forward; Exceptional is terminal.
pub open spec fn spec_advanced(q: Quality) -> Quality {
    match q {
        Quality::Basic => Quality::Good,
        Quality::Good => Quality::Exceptional,
        Quality::Exceptional => Quality::Exceptional,
    }
}

impl Quality {
    /// Numeric quality value of this tier: Basic 0, Good 5, Exceptional 15.
    pub fn value(&self) -> (v: i64)
        ensures
            v == spec_quality_value(*self),
    {
        match self {
            Quality::Basic => 0,
            Quality::Good => 5,
            Quality::Exceptional => 15,
        }
    }

    /// The tier one step forward; Exceptional stays Exceptional.
    pub fn advanced(&self) -> (r: Quality)
        ensures
            r == spec_advanced(*self),
    {
        match self {
            Quality::Basic => Quality::Good,
            Quality::Good => Quality::Exceptional,
            Quality::Exceptional => Quality::Exceptional,
        }
    }

    /// Display name of the tier.
    pub fn name(&self) -> (r: &'static str)
        ensures
            self is Basic ==> r@ == "Basic"@,
            self is Good ==> r@ == "Good"@,
            self is Exceptional ==> r@ == "Exceptional"@,
    {
        match self {
            Quality::Basic => "Basic",
            Quality::Good => "Good",
            Quality::Exceptional => "Exceptional",
        }
    }
}

/// Advancing a tier never moves it backwards.
pub proof fn lemma_advanced_ge(q: Quality)
    ensures
        quality_le(q, spec_advanced(q)),
{
}

/// `quality_le` is transitive, so a quality that never steps back over any
/// one call never steps back over a whole sequence of calls.
pub proof fn lemma_quality_le_transitive(a: Quality, b: Quality, c: Quality)
    requires
        quality_le(a, b),
        quality_le(b, c),
    ensures
        quality_le(a, c),
{
}

} // verus!
