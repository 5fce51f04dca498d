//! Error kinds of the economic engine.
//!
//! Every rejected request leaves the engine's state untouched.

use vstd::prelude::*;

verus! {

/// What a request to the engine can fail with.
#[derive(Clone, Copy, Debug, PartialEq, Eq, Structural)]
pub enum EngineError {
    /// The name is not one of the fixed allocation categories.
    UnknownCategory,
    /// The name is not one of the fixed products.
    UnknownProduct,
    /// A price, percentage or quantity was negative.
    NegativeInput,
    /// A production cost of zero or less would make production divide by zero.
    InvalidProductionCost,
}

impl EngineError {
    /// Short description of the error.
    pub fn describe(&self) -> (r: &'static str)
        ensures
            self is UnknownCategory ==> r@ == "unknown category"@,
            self is UnknownProduct ==> r@ == "unknown product"@,
            self is NegativeInput ==> r@ == "negative input"@,
            self is InvalidProductionCost ==> r@ == "invalid production cost"@,
    {
        match self {
            EngineError::UnknownCategory => "unknown category",
            EngineError::UnknownProduct => "unknown product",
            EngineError::NegativeInput => "negative input",
            EngineError::InvalidProductionCost => "invalid production cost",
        }
    }
}

} // verus!
