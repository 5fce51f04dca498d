//! The stochastic tiered-outcome logic of the demand cycle, as pure
//! functions.
//!
//! One roll in `[0, 100)` lands in an outcome tier; the tier takes effect
//! only if the channel's accumulated investment has passed the tier's
//! threshold, derived from the current funds. The mapping is independent of
//! the rest of the engine, so it can be exercised on its own.

use vstd::prelude::*;
use crate::amount::{clamp_amount, clamp_to_amount, wide_mul};

verus! {

/// How strongly one channel roll pays off.
#[derive(Clone, Copy, Debug, PartialEq, Eq, Structural)]
pub enum OutcomeTier {
    NoEffect,
    Slight,
    Fair,
    Exceptional,
}

/// Breakthrough threshold for the given funds tier.
pub open spec fn spec_threshold_base(funds: int) -> int {
    if funds < 10_000 {
        20_000
    } else if funds < 50_000 {
        100_000
    } else {
        200_000
    }
}

/// Breakthrough threshold for the given funds tier.
pub fn threshold_base(funds: i64) -> (r: i64)
    ensures
        r as int == spec_threshold_base(funds as int),
        20_000 <= r <= 200_000,
{
    if funds < 10_000 {
        20_000
    } else if funds < 50_000 {
        100_000
    } else {
        200_000
    }
}

/// Outcome tier of one roll in `[0, 100)` against an accumulated investment:
/// a roll below 51 has no effect; 51 to 80 pays off slightly once the
/// accumulator passes half the base; 81 to 90 fairly once it passes the base;
/// 91 and above exceptionally once it passes twice the base. A roll whose
/// threshold is not met has no effect at all.
pub open spec fn spec_outcome_tier(roll: int, accumulated: int, base: int) -> OutcomeTier {
    if 51 <= roll <= 80 && accumulated > base / 2 {
        OutcomeTier::Slight
    } else if 81 <= roll <= 90 && accumulated > base {
        OutcomeTier::Fair
    } else if 91 <= roll <= 99 && accumulated > base * 2 {
        OutcomeTier::Exceptional
    } else {
        OutcomeTier::NoEffect
    }
}

/// Outcome tier of one roll, as [`spec_outcome_tier`] states.
pub fn outcome_tier(roll: u64, accumulated: i64, base: i64) -> (t: OutcomeTier)
    requires
        roll < 100,
        0 <= base <= i64::MAX / 2,
    ensures
        t == spec_outcome_tier(roll as int, accumulated as int, base as int),
{
    if roll >= 51 && roll <= 80 {
        if accumulated > base / 2 {
            OutcomeTier::Slight
        } else {
            OutcomeTier::NoEffect
        }
    } else if roll >= 81 && roll <= 90 {
        if accumulated > base {
            OutcomeTier::Fair
        } else {
            OutcomeTier::NoEffect
        }
    } else if roll >= 91 {
        if accumulated > base * 2 {
            OutcomeTier::Exceptional
        } else {
            OutcomeTier::NoEffect
        }
    } else {
        OutcomeTier::NoEffect
    }
}

/// What one resolved channel contributes to every product.
pub ghost struct ChannelEffect {
    pub tier: OutcomeTier,
    pub demand_bonus: int,
    pub cost_reduction: int,
    pub upgrade_percent: int,
}

/// A channel roll that had no effect.
pub open spec fn no_effect() -> ChannelEffect {
    ChannelEffect { tier: OutcomeTier::NoEffect, demand_bonus: 0, cost_reduction: 0, upgrade_percent: 0 }
}

/// The effects a research breakthrough may have, given the accumulated
/// research investment and the threshold base: a slight tier adds 5 demand,
/// cuts costs by 1 to 5 and upgrades with 10% probability; a fair tier adds
/// 10, cuts 5 to 10, upgrades with 30%; an exceptional tier adds 50, cuts 20
/// to 30, upgrades with 100%. A tier can take effect only beyond its
/// threshold.
pub open spec fn research_effect_ok(e: ChannelEffect, accumulated: int, base: int) -> bool {
    ||| e == no_effect()
    ||| (accumulated > base / 2 && e.tier is Slight && e.demand_bonus == 5 && 1 <= e.cost_reduction
        <= 5 && e.upgrade_percent == 10)
    ||| (accumulated > base && e.tier is Fair && e.demand_bonus == 10 && 5 <= e.cost_reduction
        <= 10 && e.upgrade_percent == 30)
    ||| (accumulated > base * 2 && e.tier is Exceptional && e.demand_bonus == 50 && 20
        <= e.cost_reduction <= 30 && e.upgrade_percent == 100)
}

/// The effects a marketing breakthrough may have: only a demand bonus of
/// 5, 20 or 40, never a cost reduction or a quality upgrade.
pub open spec fn marketing_effect_ok(e: ChannelEffect, accumulated: int, base: int) -> bool {
    &&& e.cost_reduction == 0
    &&& e.upgrade_percent == 0
    &&& {
        ||| (e.tier is NoEffect && e.demand_bonus == 0)
        ||| (accumulated > base / 2 && e.tier is Slight && e.demand_bonus == 5)
        ||| (accumulated > base && e.tier is Fair && e.demand_bonus == 20)
        ||| (accumulated > base * 2 && e.tier is Exceptional && e.demand_bonus == 40)
    }
}

/// Final demand of a product: the baseline, lowered by the price weighted
/// with the price factor and raised by the quality value weighted with the
/// quality factor, never below zero. The factors are given in hundredths.
pub open spec fn spec_final_demand(
    baseline: int,
    price_factor: int,
    price: int,
    quality_factor: int,
    quality_value: int,
) -> int {
    let num = baseline * 100 - price_factor * price + quality_factor * quality_value;
    if num <= 0 {
        0
    } else {
        clamp_amount(num / 100)
    }
}

/// Final demand is never negative, whatever the baseline, the factors and
/// the price magnitude.
pub proof fn lemma_final_demand_nonnegative(
    baseline: int,
    price_factor: int,
    price: int,
    quality_factor: int,
    quality_value: int,
)
    ensures
        spec_final_demand(baseline, price_factor, price, quality_factor, quality_value) >= 0,
{
}

/// Final demand of a product, as [`spec_final_demand`] states; never
/// negative, whatever the factors and the price magnitude.
pub fn compute_final_demand(
    baseline: i64,
    price_factor: i64,
    price: i64,
    quality_factor: i64,
    quality_value: i64,
) -> (r: i64)
    requires
        baseline >= 0,
        price >= 0,
        0 <= quality_value <= 15,
    ensures
        r as int == spec_final_demand(
            baseline as int,
            price_factor as int,
            price as int,
            quality_factor as int,
            quality_value as int,
        ),
        r >= 0,
{
    let t1: i128 = wide_mul(baseline, 100);
    let t2: i128 = wide_mul(price_factor, price);
    let t3: i128 = wide_mul(quality_factor, quality_value);
    proof {
        assert(i64::MIN as int * i64::MAX as int <= price_factor as int * price as int
            <= i64::MAX as int * i64::MAX as int) by (nonlinear_arith)
            requires
                price as int >= 0,
        ;
        assert(15 * (i64::MIN as int) <= quality_factor as int * quality_value as int <= 15 * (
        i64::MAX as int)) by (nonlinear_arith)
            requires
                0 <= quality_value as int <= 15,
        ;
    }
    let num: i128 = t1 - t2 + t3;
    if num <= 0 {
        0
    } else {
        clamp_to_amount(num / 100)
    }
}

} // verus!
