//! Economic engine of a small in-game business: funds, per-product pricing,
//! budget allocation, stochastic research/marketing payoff, and the
//! demand/production/purchase cycle.
//!
//! The engine itself renders nothing and persists nothing; callers decide when
//! to invoke each cycle step and feed every random draw through an injectable
//! uniform source, so sessions can be replayed deterministically.

pub mod amount;
pub mod business;
pub mod catalog;
pub mod client;
pub mod columns_ui;
pub mod decimal;
pub mod demand;
pub mod error;
pub mod narration;
pub mod quality;
pub mod rng;

use vstd::prelude::*;

verus! {

} // verus!
