//! The economic engine: funds, the product ledger, budget allocation, and
//! the demand/production/purchase cycle.
//!
//! All currency and stock figures are `i64` amounts kept non-negative by
//! clamping; the catalog of products and allocation categories is fixed at
//! construction and unknown names are rejected without touching the state.

use vstd::prelude::*;
use vstd::string::StringExecFns;
use crate::amount::{clamp_amount, clamp_to_amount, wide_mul};
use crate::catalog::{
    MARKETING_CATEGORY, PRODUCT_COUNT, RESEARCH_CATEGORY, category_index_of,
    initial_baseline, initial_cost, product_index_of, spec_category_index, spec_initial_baseline,
    spec_initial_cost, spec_product_index,
};
use crate::decimal::decimal_string;
use crate::demand::{
    ChannelEffect, OutcomeTier, compute_final_demand, marketing_effect_ok, no_effect,
    outcome_tier, research_effect_ok, spec_final_demand, spec_threshold_base, threshold_base,
};
use crate::error::EngineError;
use crate::narration::{
    lemma_log_views_push, log_views, marketing_messages, push_entry, research_messages,
    revenue_message,
};
use crate::quality::{Quality, lemma_advanced_ge, quality_le, spec_advanced, spec_quality_value};
use crate::rng::UniformSource;

verus! {

/// One product of the ledger.
pub struct Product {
    price: i64,
    allocation: i64,
    quantity: i64,
    quality: Quality,
    production_cost: i64,
    baseline_demand: i64,
    final_demand: i64,
}

/// Mathematical state of one product.
#[verifier::ext_equal]
pub ghost struct ProductView {
    pub price: int,
    pub allocation: int,
    pub quantity: int,
    pub quality: Quality,
    pub production_cost: int,
    pub baseline_demand: int,
    pub final_demand: int,
}

impl View for Product {
    type V = ProductView;

    closed spec fn view(&self) -> ProductView {
        ProductView {
            price: self.price as int,
            allocation: self.allocation as int,
            quantity: self.quantity as int,
            quality: self.quality,
            production_cost: self.production_cost as int,
            baseline_demand: self.baseline_demand as int,
            final_demand: self.final_demand as int,
        }
    }
}

/// The views of a sequence of products.
pub open spec fn product_views(s: Seq<Product>) -> Seq<ProductView> {
    s.map_values(|p: Product| p@)
}

/// The engine's whole state: currency balance, the product ledger keyed by
/// product index, the research and marketing allocation percentages, and the
/// investment accumulated in each channel since its last breakthrough.
pub struct Business {
    funds: i64,
    products: Vec<Product>,
    rnd_allocation: i64,
    marketing_allocation: i64,
    accumulated_rnd: i64,
    accumulated_marketing: i64,
}

/// Mathematical state of the engine.
#[verifier::ext_equal]
pub ghost struct BusinessView {
    pub funds: int,
    pub products: Seq<ProductView>,
    pub rnd_allocation: int,
    pub marketing_allocation: int,
    pub accumulated_rnd: int,
    pub accumulated_marketing: int,
}

impl View for Business {
    type V = BusinessView;

    closed spec fn view(&self) -> BusinessView {
        BusinessView {
            funds: self.funds as int,
            products: product_views(self.products@),
            rnd_allocation: self.rnd_allocation as int,
            marketing_allocation: self.marketing_allocation as int,
            accumulated_rnd: self.accumulated_rnd as int,
            accumulated_marketing: self.accumulated_marketing as int,
        }
    }
}

/// Validity of one product: every figure is non-negative and fits the
/// machine amount range, and the production cost is positive, so production
/// can never divide by zero.
pub open spec fn product_inv(p: ProductView) -> bool {
    &&& 0 <= p.price <= i64::MAX as int
    &&& 0 <= p.allocation <= i64::MAX as int
    &&& 0 <= p.quantity <= i64::MAX as int
    &&& 1 <= p.production_cost <= i64::MAX as int
    &&& 0 <= p.baseline_demand <= i64::MAX as int
    &&& 0 <= p.final_demand <= i64::MAX as int
}

/// Validity of the engine's state: the catalog holds exactly the fixed
/// products, the funds and both accumulators are non-negative machine
/// amounts, and every product is valid.
pub open spec fn business_inv(v: BusinessView) -> bool {
    &&& 0 <= v.funds <= i64::MAX as int
    &&& v.products.len() == PRODUCT_COUNT
    &&& 0 <= v.rnd_allocation <= i64::MAX as int
    &&& 0 <= v.marketing_allocation <= i64::MAX as int
    &&& 0 <= v.accumulated_rnd <= i64::MAX as int
    &&& 0 <= v.accumulated_marketing <= i64::MAX as int
    &&& forall|i: int| 0 <= i < v.products.len() ==> product_inv(#[trigger] v.products[i])
}

/// The state every product starts in.
pub open spec fn spec_initial_product(i: int) -> ProductView {
    ProductView {
        price: 0,
        allocation: 0,
        quantity: 0,
        quality: Quality::Basic,
        production_cost: spec_initial_cost(i),
        baseline_demand: spec_initial_baseline(i),
        final_demand: 0,
    }
}

/// Valid state always means a non-negative currency balance.
pub proof fn lemma_funds_nonnegative(v: BusinessView)
    requires
        business_inv(v),
    ensures
        v.funds >= 0,
{
}

proof fn lemma_product_views_update(s: Seq<Product>, i: int, x: Product)
    requires
        0 <= i < s.len(),
    ensures
        product_views(s.update(i, x)) =~= product_views(s).update(i, x@),
{
}

/// Funds planned for producing product `i`: the current funds times the
/// product's allocation percentage, truncated, and capped at the machine
/// maximum.
pub open spec fn spec_planned_fund(v: BusinessView, i: int) -> int {
    let f = v.funds * v.products[i].allocation / 100;
    if f > i64::MAX as int {
        i64::MAX as int
    } else {
        f
    }
}

/// Units manufactured for product `i`: its planned funds divided by its
/// production cost, truncated.
pub open spec fn spec_planned_units(v: BusinessView, i: int) -> int {
    spec_planned_fund(v, i) / v.products[i].production_cost
}

/// Funds planned for the first `k` products together.
pub open spec fn spec_planned_total(v: BusinessView, k: int) -> int
    decreases k,
{
    if k <= 0 {
        0
    } else {
        spec_planned_total(v, k - 1) + spec_planned_fund(v, k - 1)
    }
}

/// Funds share invested in a channel: the funds times the channel's
/// allocation percentage, truncated.
pub open spec fn spec_invest(funds: int, percent: int) -> int {
    funds * percent / 100
}

/// One product after a demand cycle: its baseline grows by the cycle's
/// demand bonus; its quality advances one tier when its upgrade roll hit;
/// its production cost is replaced by the larger of the cycle's cost
/// reduction and the post-upgrade quality value plus 20; and its final
/// demand is recomputed from the new baseline, the current price and the
/// post-upgrade quality value. Price, allocation and stock are untouched.
pub open spec fn spec_product_after(
    p: ProductView,
    demand_bonus: int,
    cost_reduction: int,
    upgraded: bool,
    price_factor: int,
    quality_factor: int,
) -> ProductView {
    let q2 = if upgraded {
        spec_advanced(p.quality)
    } else {
        p.quality
    };
    let qv = spec_quality_value(q2);
    let b2 = clamp_amount(p.baseline_demand + demand_bonus);
    ProductView {
        quality: q2,
        production_cost: if cost_reduction >= qv + 20 {
            cost_reduction
        } else {
            qv + 20
        },
        baseline_demand: b2,
        final_demand: spec_final_demand(b2, price_factor, p.price, quality_factor, qv),
        ..p
    }
}

/// One possible resolution of a demand cycle's random draws: the effect of
/// each channel and, for every product, whether its upgrade roll hit.
pub ghost struct DemandOutcome {
    pub research: ChannelEffect,
    pub marketing: ChannelEffect,
    pub upgrades: Seq<bool>,
}

/// Whether the outcome `o` explains the step from `pre` to `post`: both
/// channel effects are legal for the accumulated investments and the
/// threshold base, a fired channel resets its accumulator, every product
/// moved as [`spec_product_after`] says, an upgrade percentage of 0 upgrades
/// nothing and one of 100 upgrades everything, and the log gained exactly
/// the fired channels' narration.
pub open spec fn demand_outcome_matches(
    o: DemandOutcome,
    pre: BusinessView,
    post: BusinessView,
    price_factor: int,
    quality_factor: int,
    pre_log: Seq<Seq<char>>,
    post_log: Seq<Seq<char>>,
) -> bool {
    let rf = spec_invest(pre.funds, pre.rnd_allocation);
    let mf = spec_invest(pre.funds, pre.marketing_allocation);
    let base = spec_threshold_base(clamp_amount(pre.funds - rf - mf));
    let acc_r = clamp_amount(pre.accumulated_rnd + rf);
    let acc_m = clamp_amount(pre.accumulated_marketing + mf);
    &&& research_effect_ok(o.research, acc_r, base)
    &&& marketing_effect_ok(o.marketing, acc_m, base)
    &&& post.accumulated_rnd == (if o.research.tier is NoEffect {
        acc_r
    } else {
        0
    })
    &&& post.accumulated_marketing == (if o.marketing.tier is NoEffect {
        acc_m
    } else {
        0
    })
    &&& o.upgrades.len() == pre.products.len()
    &&& (o.research.upgrade_percent == 0 ==> forall|i: int|
        0 <= i < o.upgrades.len() ==> !(#[trigger] o.upgrades[i]))
    &&& (o.research.upgrade_percent == 100 ==> forall|i: int|
        0 <= i < o.upgrades.len() ==> #[trigger] o.upgrades[i])
    &&& forall|i: int| 0 <= i < pre.products.len() ==> #[trigger] post.products[i]
        == spec_product_after(
        pre.products[i],
        o.research.demand_bonus + o.marketing.demand_bonus,
        o.research.cost_reduction,
        o.upgrades[i],
        price_factor,
        quality_factor,
    )
    &&& post_log == pre_log + research_messages(o.research.tier) + marketing_messages(
        o.marketing.tier,
    )
}

/// Everything one demand cycle guarantees about the step from `pre` to
/// `post`: the investments are debited from the funds exactly (clamped at
/// zero), allocations are untouched, and some legal [`DemandOutcome`]
/// explains the accumulators, the products and the new log entries.
pub open spec fn demand_step_ok(
    pre: BusinessView,
    post: BusinessView,
    price_factor: int,
    quality_factor: int,
    pre_log: Seq<Seq<char>>,
    post_log: Seq<Seq<char>>,
) -> bool {
    let rf = spec_invest(pre.funds, pre.rnd_allocation);
    let mf = spec_invest(pre.funds, pre.marketing_allocation);
    &&& post.funds == clamp_amount(pre.funds - rf - mf)
    &&& post.rnd_allocation == pre.rnd_allocation
    &&& post.marketing_allocation == pre.marketing_allocation
    &&& post.products.len() == pre.products.len()
    &&& exists|o: DemandOutcome| #[trigger] demand_outcome_matches(
        o,
        pre,
        post,
        price_factor,
        quality_factor,
        pre_log,
        post_log,
    )
}

/// Sum of the allocation percentages of the first `k` products.
pub open spec fn spec_allocation_sum(v: BusinessView, k: int) -> int
    decreases k,
{
    if k <= 0 {
        0
    } else {
        spec_allocation_sum(v, k - 1) + v.products[k - 1].allocation
    }
}

/// Sum of all allocation percentages: every product's plus the research
/// and marketing channels'.
pub open spec fn spec_total_allocation(v: BusinessView) -> int {
    spec_allocation_sum(v, PRODUCT_COUNT as int) + v.rnd_allocation + v.marketing_allocation
}

proof fn lemma_allocation_sum_bounds(v: BusinessView, k: int)
    requires
        business_inv(v),
        0 <= k <= PRODUCT_COUNT,
    ensures
        spec_allocation_sum(v, k) >= 0,
        forall|idx: int| 0 <= idx < k ==> spec_allocation_sum(v, k) >= v.products[idx].allocation,
    decreases k,
{
    if k > 0 {
        lemma_allocation_sum_bounds(v, k - 1);
        assert(product_inv(v.products[k - 1]));
    }
}

/// Units that a production fund buys at a production cost. A cost of zero
/// or less would divide by zero, so it is rejected with
/// `InvalidProductionCost` instead of trapping.
pub fn production_units(fund: i64, production_cost: i64) -> (r: Result<i64, EngineError>)
    requires
        fund >= 0,
    ensures
        production_cost <= 0 ==> (r matches Err(e) && e is InvalidProductionCost),
        production_cost >= 1 ==> (r matches Ok(u) && u as int == fund as int
            / production_cost as int),
{
    if production_cost <= 0 {
        Err(EngineError::InvalidProductionCost)
    } else {
        Ok(fund / production_cost)
    }
}

impl Business {
    /// Validity of this engine's state.
    pub open spec fn inv(&self) -> bool {
        business_inv(self@)
    }

    /// A fresh engine with the fixed catalog, everything at its starting
    /// value and the given initial funds (clamped to be non-negative).
    pub fn new(initial_fund: i64) -> (b: Business)
        ensures
            b.inv(),
            b@.funds == clamp_amount(initial_fund as int),
            b@.products.len() == PRODUCT_COUNT,
            forall|i: int| 0 <= i < PRODUCT_COUNT ==> #[trigger] b@.products[i]
                == spec_initial_product(i),
            b@.rnd_allocation == 0,
            b@.marketing_allocation == 0,
            b@.accumulated_rnd == 0,
            b@.accumulated_marketing == 0,
    {
        let mut products: Vec<Product> = Vec::new();
        let mut i: usize = 0;
        while i < PRODUCT_COUNT
            invariant
                i <= PRODUCT_COUNT,
                products@.len() == i as int,
                forall|j: int| 0 <= j < i as int ==> #[trigger] products@[j]@
                    == spec_initial_product(j),
            decreases PRODUCT_COUNT - i,
        {
            products.push(
                Product {
                    price: 0,
                    allocation: 0,
                    quantity: 0,
                    quality: Quality::Basic,
                    production_cost: initial_cost(i),
                    baseline_demand: initial_baseline(i),
                    final_demand: 0,
                },
            );
            i = i + 1;
        }
        let funds: i64 = if initial_fund < 0 {
            0
        } else {
            initial_fund
        };
        Business {
            funds,
            products,
            rnd_allocation: 0,
            marketing_allocation: 0,
            accumulated_rnd: 0,
            accumulated_marketing: 0,
        }
    }

    /// The current currency balance.
    pub fn funds(&self) -> (r: i64)
        ensures
            r as int == self@.funds,
    {
        self.funds
    }

    /// Set the currency balance, clamped to be non-negative.
    pub fn set_funds(&mut self, funds: i64)
        requires
            old(self).inv(),
        ensures
            final(self).inv(),
            final(self)@ == (BusinessView { funds: clamp_amount(funds as int), ..old(self)@ }),
    {
        self.funds = if funds < 0 {
            0
        } else {
            funds
        };
    }

    /// Add a (possibly negative) amount to the currency balance; the result
    /// is clamped to a minimum of zero, so funds never go negative.
    pub fn add_funds(&mut self, delta: i64)
        requires
            old(self).inv(),
        ensures
            final(self).inv(),
            final(self)@ == (BusinessView {
                funds: clamp_amount(old(self)@.funds + delta),
                ..old(self)@
            }),
    {
        self.funds = clamp_to_amount(self.funds as i128 + delta as i128);
    }

    /// Investment accumulated in the research channel since its last
    /// breakthrough.
    pub fn accumulated_rnd(&self) -> (r: i64)
        ensures
            r as int == self@.accumulated_rnd,
    {
        self.accumulated_rnd
    }

    /// Investment accumulated in the marketing channel since its last
    /// breakthrough.
    pub fn accumulated_marketing(&self) -> (r: i64)
        ensures
            r as int == self@.accumulated_marketing,
    {
        self.accumulated_marketing
    }

    /// Price of the named product, or `UnknownProduct`.
    pub fn get_price(&self, name: &str) -> (r: Result<i64, EngineError>)
        requires
            self.inv(),
        ensures
            match spec_product_index(name@) {
                Some(i) => r matches Ok(p) && p as int == self@.products[i].price,
                None => r matches Err(e) && e is UnknownProduct,
            },
    {
        match product_index_of(name) {
            Some(i) => Ok(self.products[i].price),
            None => Err(EngineError::UnknownProduct),
        }
    }

    /// Final demand of the named product, or `UnknownProduct`.
    pub fn get_demand(&self, name: &str) -> (r: Result<i64, EngineError>)
        requires
            self.inv(),
        ensures
            match spec_product_index(name@) {
                Some(i) => r matches Ok(d) && d as int == self@.products[i].final_demand,
                None => r matches Err(e) && e is UnknownProduct,
            },
    {
        match product_index_of(name) {
            Some(i) => Ok(self.products[i].final_demand),
            None => Err(EngineError::UnknownProduct),
        }
    }

    /// Stock of the named product, or `UnknownProduct`.
    pub fn get_quantity(&self, name: &str) -> (r: Result<i64, EngineError>)
        requires
            self.inv(),
        ensures
            match spec_product_index(name@) {
                Some(i) => r matches Ok(q) && q as int == self@.products[i].quantity,
                None => r matches Err(e) && e is UnknownProduct,
            },
    {
        match product_index_of(name) {
            Some(i) => Ok(self.products[i].quantity),
            None => Err(EngineError::UnknownProduct),
        }
    }

    /// Quality tier of the named product, or `UnknownProduct`.
    pub fn get_quality(&self, name: &str) -> (r: Result<Quality, EngineError>)
        requires
            self.inv(),
        ensures
            match spec_product_index(name@) {
                Some(i) => r matches Ok(q) && q == self@.products[i].quality,
                None => r matches Err(e) && e is UnknownProduct,
            },
    {
        match product_index_of(name) {
            Some(i) => Ok(self.products[i].quality),
            None => Err(EngineError::UnknownProduct),
        }
    }

    /// Production cost per unit of the named product, or `UnknownProduct`.
    pub fn get_production_cost(&self, name: &str) -> (r: Result<i64, EngineError>)
        requires
            self.inv(),
        ensures
            match spec_product_index(name@) {
                Some(i) => r matches Ok(c) && c as int == self@.products[i].production_cost,
                None => r matches Err(e) && e is UnknownProduct,
            },
    {
        match product_index_of(name) {
            Some(i) => Ok(self.products[i].production_cost),
            None => Err(EngineError::UnknownProduct),
        }
    }

    /// Allocation percentage of the named category, or `UnknownCategory`.
    pub fn get_allocation(&self, name: &str) -> (r: Result<i64, EngineError>)
        requires
            self.inv(),
        ensures
            match spec_category_index(name@) {
                Some(i) => r matches Ok(p) && p as int == (if i < PRODUCT_COUNT {
                    self@.products[i].allocation
                } else if i == RESEARCH_CATEGORY {
                    self@.rnd_allocation
                } else {
                    self@.marketing_allocation
                }),
                None => r matches Err(e) && e is UnknownCategory,
            },
    {
        match category_index_of(name) {
            Some(i) => {
                if i < PRODUCT_COUNT {
                    Ok(self.products[i].allocation)
                } else if i == RESEARCH_CATEGORY {
                    Ok(self.rnd_allocation)
                } else {
                    Ok(self.marketing_allocation)
                }
            },
            None => Err(EngineError::UnknownCategory),
        }
    }

    /// Set the price of the named product. A name outside the catalog is
    /// rejected with `UnknownCategory`, a negative price with
    /// `NegativeInput`; a rejected request leaves the state unchanged.
    pub fn set_price(&mut self, name: &str, value: i64) -> (r: Result<(), EngineError>)
        requires
            old(self).inv(),
        ensures
            final(self).inv(),
            match spec_product_index(name@) {
                Some(i) => if value < 0 {
                    r matches Err(e) && e is NegativeInput && final(self)@ == old(self)@
                } else {
                    r is Ok && final(self)@ == (BusinessView {
                        products: old(self)@.products.update(
                            i,
                            ProductView { price: value as int, ..old(self)@.products[i] },
                        ),
                        ..old(self)@
                    })
                },
                None => r matches Err(e) && e is UnknownCategory && final(self)@ == old(self)@,
            },
    {
        match product_index_of(name) {
            Some(i) => {
                if value < 0 {
                    Err(EngineError::NegativeInput)
                } else {
                    let p0 = &self.products[i];
                    let np = Product {
                        price: value,
                        allocation: p0.allocation,
                        quantity: p0.quantity,
                        quality: p0.quality,
                        production_cost: p0.production_cost,
                        baseline_demand: p0.baseline_demand,
                        final_demand: p0.final_demand,
                    };
                    self.products[i] = np;
                    proof {
                        lemma_product_views_update(old(self).products@, i as int, np);
                        assert(final(self)@ =~= (BusinessView {
                            products: old(self)@.products.update(
                                i as int,
                                ProductView { price: value as int, ..old(self)@.products[i as int] },
                            ),
                            ..old(self)@
                        }));
                    }
                    Ok(())
                }
            },
            None => Err(EngineError::UnknownCategory),
        }
    }

    /// Set the allocation percentage of the named category. A name outside
    /// the catalog is rejected with `UnknownCategory`, a negative percentage
    /// with `NegativeInput`; a rejected request leaves the state unchanged.
    /// The engine does not bound the sum of the percentages; keeping it at
    /// or below 100 is the caller's responsibility.
    pub fn set_allocation(&mut self, name: &str, percent: i64) -> (r: Result<(), EngineError>)
        requires
            old(self).inv(),
        ensures
            final(self).inv(),
            match spec_category_index(name@) {
                Some(i) => if percent < 0 {
                    r matches Err(e) && e is NegativeInput && final(self)@ == old(self)@
                } else if i < PRODUCT_COUNT {
                    r is Ok && final(self)@ == (BusinessView {
                        products: old(self)@.products.update(
                            i,
                            ProductView { allocation: percent as int, ..old(self)@.products[i] },
                        ),
                        ..old(self)@
                    })
                } else if i == RESEARCH_CATEGORY {
                    r is Ok && final(self)@ == (BusinessView {
                        rnd_allocation: percent as int,
                        ..old(self)@
                    })
                } else {
                    r is Ok && final(self)@ == (BusinessView {
                        marketing_allocation: percent as int,
                        ..old(self)@
                    })
                },
                None => r matches Err(e) && e is UnknownCategory && final(self)@ == old(self)@,
            },
    {
        match category_index_of(name) {
            Some(i) => {
                if percent < 0 {
                    Err(EngineError::NegativeInput)
                } else if i < PRODUCT_COUNT {
                    let p0 = &self.products[i];
                    let np = Product {
                        price: p0.price,
                        allocation: percent,
                        quantity: p0.quantity,
                        quality: p0.quality,
                        production_cost: p0.production_cost,
                        baseline_demand: p0.baseline_demand,
                        final_demand: p0.final_demand,
                    };
                    self.products[i] = np;
                    proof {
                        lemma_product_views_update(old(self).products@, i as int, np);
                        assert(final(self)@ =~= (BusinessView {
                            products: old(self)@.products.update(
                                i as int,
                                ProductView {
                                    allocation: percent as int,
                                    ..old(self)@.products[i as int]
                                },
                            ),
                            ..old(self)@
                        }));
                    }
                    Ok(())
                } else if i == RESEARCH_CATEGORY {
                    self.rnd_allocation = percent;
                    Ok(())
                } else {
                    self.marketing_allocation = percent;
                    Ok(())
                }
            },
            None => Err(EngineError::UnknownCategory),
        }
    }

    /// The highest percentage the named category could be given without the
    /// total allocation passing 100: one hundred minus what all the other
    /// categories hold, and never below zero. The engine itself does not
    /// enforce the bound in [`Business::set_allocation`]; a slider layer
    /// uses this limit to keep the total within budget.
    pub fn allocation_limit(&self, name: &str) -> (r: Result<i64, EngineError>)
        requires
            self.inv(),
        ensures
            match spec_category_index(name@) {
                Some(i) => {
                    let own = if i < PRODUCT_COUNT {
                        self@.products[i].allocation
                    } else if i == RESEARCH_CATEGORY {
                        self@.rnd_allocation
                    } else {
                        self@.marketing_allocation
                    };
                    let room = 100 - (spec_total_allocation(self@) - own);
                    r matches Ok(m) && m as int == (if room < 0 {
                        0
                    } else {
                        room
                    })
                },
                None => r matches Err(e) && e is UnknownCategory,
            },
    {
        let idx = match category_index_of(name) {
            Some(i) => i,
            None => {
                return Err(EngineError::UnknownCategory);
            },
        };
        let mut partial: i128 = 0;
        let mut i: usize = 0;
        while i < PRODUCT_COUNT
            invariant
                self.inv(),
                i <= PRODUCT_COUNT,
                partial == spec_allocation_sum(self@, i as int),
                0 <= partial <= (i as int) * (i64::MAX as int),
            decreases PRODUCT_COUNT - i,
        {
            proof {
                assert(self.products@[i as int]@ == self@.products[i as int]);
            }
            partial = partial + self.products[i].allocation as i128;
            i = i + 1;
        }
        let total: i128 = partial + self.rnd_allocation as i128
            + self.marketing_allocation as i128;
        let own: i64 = if idx < PRODUCT_COUNT {
            self.products[idx].allocation
        } else if idx == RESEARCH_CATEGORY {
            self.rnd_allocation
        } else {
            self.marketing_allocation
        };
        proof {
            lemma_allocation_sum_bounds(self@, PRODUCT_COUNT as int);
        }
        let room: i128 = 100 - (total - own as i128);
        if room < 0 {
            Ok(0)
        } else {
            Ok(room as i64)
        }
    }

    /// Run one manufacturing cycle: every product's allocation percentage of
    /// the funds buys `fund / production_cost` units, and the shares are
    /// debited from the funds, clamped at zero. Every share is computed from
    /// the funds at entry, so the products are independent and their order
    /// does not matter. Stock never decreases.
    pub fn update_quantities(&mut self)
        requires
            old(self).inv(),
        ensures
            final(self).inv(),
            final(self)@.funds == clamp_amount(
                old(self)@.funds - spec_planned_total(old(self)@, PRODUCT_COUNT as int),
            ),
            forall|i: int| 0 <= i < PRODUCT_COUNT ==> #[trigger] final(self)@.products[i]
                == (ProductView {
                    quantity: clamp_amount(
                        old(self)@.products[i].quantity + spec_planned_units(old(self)@, i),
                    ),
                    ..old(self)@.products[i]
                }),
            forall|i: int| 0 <= i < PRODUCT_COUNT ==> final(self)@.products[i].quantity >= old(
                self,
            )@.products[i].quantity,
            final(self)@.products.len() == PRODUCT_COUNT,
            final(self)@.rnd_allocation == old(self)@.rnd_allocation,
            final(self)@.marketing_allocation == old(self)@.marketing_allocation,
            final(self)@.accumulated_rnd == old(self)@.accumulated_rnd,
            final(self)@.accumulated_marketing == old(self)@.accumulated_marketing,
    {
        let ghost pre = self@;
        let funds0 = self.funds;
        let mut total: i128 = 0;
        let mut i: usize = 0;
        while i < PRODUCT_COUNT
            invariant
                business_inv(pre),
                i <= PRODUCT_COUNT,
                self.funds == funds0,
                funds0 as int == pre.funds,
                self.products@.len() == PRODUCT_COUNT,
                self@.rnd_allocation == pre.rnd_allocation,
                self@.marketing_allocation == pre.marketing_allocation,
                self@.accumulated_rnd == pre.accumulated_rnd,
                self@.accumulated_marketing == pre.accumulated_marketing,
                total == spec_planned_total(pre, i as int),
                0 <= total <= (i as int) * (i64::MAX as int),
                forall|j: int| i as int <= j < PRODUCT_COUNT ==> #[trigger] self@.products[j]
                    == pre.products[j],
                forall|j: int| 0 <= j < i as int ==> #[trigger] self@.products[j]
                    == (ProductView {
                        quantity: clamp_amount(
                            pre.products[j].quantity + spec_planned_units(pre, j),
                        ),
                        ..pre.products[j]
                    }),
            decreases PRODUCT_COUNT - i,
        {
            let alloc = self.products[i].allocation;
            let cost = self.products[i].production_cost;
            proof {
                assert(self.products@[i as int]@ == self@.products[i as int]);
                assert(self@.products[i as int] == pre.products[i as int]);
                assert(product_inv(pre.products[i as int]));
                assert(funds0 as int * alloc as int >= 0) by (nonlinear_arith)
                    requires
                        funds0 as int >= 0,
                        alloc as int >= 0,
                ;
            }
            let fund_wide: i128 = wide_mul(funds0, alloc) / 100;
            let fund: i64 = if fund_wide > i64::MAX as i128 {
                i64::MAX
            } else {
                fund_wide as i64
            };
            match production_units(fund, cost) {
                Ok(units) => {
                    let q = self.products[i].quantity;
                    let nq = clamp_to_amount(q as i128 + units as i128);
                    let p0 = &self.products[i];
                    let np = Product {
                        price: p0.price,
                        allocation: p0.allocation,
                        quantity: nq,
                        quality: p0.quality,
                        production_cost: p0.production_cost,
                        baseline_demand: p0.baseline_demand,
                        final_demand: p0.final_demand,
                    };
                    let ghost prods0 = self.products@;
                    self.products[i] = np;
                    proof {
                        lemma_product_views_update(prods0, i as int, np);
                    }
                    total = total + fund as i128;
                },
                Err(_) => {
                    // unreachable while the invariant holds: every
                    // production cost stays positive
                },
            }
            i = i + 1;
        }
        let ghost produced = self@.products;
        let nf = clamp_to_amount(funds0 as i128 - total);
        self.funds = nf;
        proof {
            assert(self@.products == produced);
            assert(business_inv(self@));
        }
    }

    /// Clear a sale of the named product: sell at most the available stock,
    /// remove the sold units from it and credit `sold * price` to the
    /// funds, then report the revenue in the log. A name outside the
    /// catalog is rejected with `UnknownProduct`, a negative quantity with
    /// `NegativeInput`; a rejected request changes neither state nor log.
    pub fn purchase(&mut self, name: &str, quantity_sold: i64, log: &mut Vec<String>) -> (r:
        Result<(), EngineError>)
        requires
            old(self).inv(),
        ensures
            final(self).inv(),
            match spec_product_index(name@) {
                Some(i) => if quantity_sold < 0 {
                    r matches Err(e) && e is NegativeInput && final(self)@ == old(self)@
                        && final(log)@ == old(log)@
                } else {
                    let sold = if quantity_sold as int <= old(self)@.products[i].quantity {
                        quantity_sold as int
                    } else {
                        old(self)@.products[i].quantity
                    };
                    let revenue = sold * old(self)@.products[i].price;
                    &&& r is Ok
                    &&& final(self)@ == (BusinessView {
                        funds: clamp_amount(old(self)@.funds + revenue),
                        products: old(self)@.products.update(
                            i,
                            ProductView {
                                quantity: old(self)@.products[i].quantity - sold,
                                ..old(self)@.products[i]
                            },
                        ),
                        ..old(self)@
                    })
                    &&& log_views(final(log)@) == log_views(old(log)@).push(
                        revenue_message(clamp_amount(revenue) as nat),
                    )
                },
                None => r matches Err(e) && e is UnknownProduct && final(self)@ == old(self)@
                    && final(log)@ == old(log)@,
            },
    {
        match product_index_of(name) {
            Some(i) => {
                if quantity_sold < 0 {
                    return Err(EngineError::NegativeInput);
                }
                let avail = self.products[i].quantity;
                let sold = if avail < quantity_sold {
                    avail
                } else {
                    quantity_sold
                };
                let price = self.products[i].price;
                proof {
                    assert(self.products@[i as int]@ == self@.products[i as int]);
                    assert(product_inv(old(self)@.products[i as int]));
                    assert(0 <= sold as int * price as int <= i64::MAX as int * i64::MAX as int)
                        by (nonlinear_arith)
                        requires
                            sold as int >= 0,
                            price as int >= 0,
                    ;
                }
                let rev_wide = wide_mul(sold, price);
                let rev = clamp_to_amount(rev_wide);
                self.funds = clamp_to_amount(self.funds as i128 + rev_wide);
                let p0 = &self.products[i];
                let np = Product {
                    price: p0.price,
                    allocation: p0.allocation,
                    quantity: avail - sold,
                    quality: p0.quality,
                    production_cost: p0.production_cost,
                    baseline_demand: p0.baseline_demand,
                    final_demand: p0.final_demand,
                };
                self.products[i] = np;
                proof {
                    lemma_product_views_update(old(self).products@, i as int, np);
                }
                let mut msg = String::from_str("+$");
                msg.append(decimal_string(rev as u64).as_str());
                msg.append(" made!");
                log.push(msg);
                proof {
                    lemma_log_views_push(old(log)@, msg);
                    assert(msg@ == revenue_message((rev as u64) as nat));
                }
                Ok(())
            },
            None => Err(EngineError::UnknownProduct),
        }
    }

    /// Run one demand cycle for a customer arrival. The research and
    /// marketing shares of the funds are invested: debited from the funds
    /// (clamped at zero) and added to the channels' accumulators. One roll
    /// per channel then decides a breakthrough against the funds tier's
    /// thresholds, and every product's baseline demand, quality, production
    /// cost and final demand are brought up to date, with one upgrade roll
    /// per product. The factors are given in hundredths: a `price_factor`
    /// of 50 lowers demand by half the price. Narration of every
    /// breakthrough is appended to `log`; a roll without effect appends
    /// nothing. Quality never steps back and baseline demand never shrinks,
    /// whatever the draws.
    pub fn update_demand<R: UniformSource>(
        &mut self,
        price_factor: i64,
        quality_factor: i64,
        log: &mut Vec<String>,
        source: &mut R,
    )
        requires
            old(self).inv(),
        ensures
            final(self).inv(),
            demand_step_ok(
                old(self)@,
                final(self)@,
                price_factor as int,
                quality_factor as int,
                log_views(old(log)@),
                log_views(final(log)@),
            ),
            forall|i: int| 0 <= i < PRODUCT_COUNT ==> quality_le(
                old(self)@.products[i].quality,
                (#[trigger] final(self)@.products[i]).quality,
            ),
            forall|i: int| 0 <= i < PRODUCT_COUNT
                ==> (#[trigger] final(self)@.products[i]).baseline_demand
                    >= old(self)@.products[i].baseline_demand,
            forall|i: int| 0 <= i < PRODUCT_COUNT
                ==> (#[trigger] final(self)@.products[i]).price == old(self)@.products[i].price
                    && final(self)@.products[i].allocation == old(self)@.products[i].allocation
                    && final(self)@.products[i].quantity == old(self)@.products[i].quantity,
            (spec_invest(old(self)@.funds, old(self)@.rnd_allocation) == 0
                && spec_invest(old(self)@.funds, old(self)@.marketing_allocation) == 0
                && old(self)@.accumulated_rnd == 0 && old(self)@.accumulated_marketing == 0)
                ==> (final(self)@.funds == old(self)@.funds
                    && final(self)@.accumulated_rnd == 0
                    && final(self)@.accumulated_marketing == 0
                    && log_views(final(log)@) == log_views(old(log)@)
                    && (forall|i: int| 0 <= i < PRODUCT_COUNT
                        ==> (#[trigger] final(self)@.products[i]).quality
                            == old(self)@.products[i].quality
                            && final(self)@.products[i].baseline_demand
                                == old(self)@.products[i].baseline_demand)),
    {
        let ghost pre = self@;
        let ghost pre_log = log@;
        let funds0 = self.funds;
        let ralloc = self.rnd_allocation;
        let malloc = self.marketing_allocation;
        proof {
            assert(funds0 as int * ralloc as int >= 0) by (nonlinear_arith)
                requires
                    funds0 as int >= 0,
                    ralloc as int >= 0,
            ;
            assert(funds0 as int * malloc as int >= 0) by (nonlinear_arith)
                requires
                    funds0 as int >= 0,
                    malloc as int >= 0,
            ;
        }
        let rf_wide: i128 = wide_mul(funds0, ralloc) / 100;
        let mf_wide: i128 = wide_mul(funds0, malloc) / 100;
        self.funds = clamp_to_amount(funds0 as i128 - rf_wide - mf_wide);
        self.accumulated_rnd = clamp_to_amount(self.accumulated_rnd as i128 + rf_wide);
        self.accumulated_marketing = clamp_to_amount(
            self.accumulated_marketing as i128 + mf_wide,
        );
        let base = threshold_base(self.funds);
        let ghost rf_g = spec_invest(pre.funds, pre.rnd_allocation);
        let ghost mf_g = spec_invest(pre.funds, pre.marketing_allocation);
        let ghost base_g = spec_threshold_base(clamp_amount(pre.funds - rf_g - mf_g));
        let ghost acc_r_g = clamp_amount(pre.accumulated_rnd + rf_g);
        let ghost acc_m_g = clamp_amount(pre.accumulated_marketing + mf_g);
        let roll_r = source.pick(100);
        let tier_r = outcome_tier(roll_r, self.accumulated_rnd, base);
        let mut bonus: i64 = 0;
        let mut deduction: i64 = 0;
        let mut upgrade_percent: u64 = 0;
        let ghost mut re_eff = no_effect();
        match tier_r {
            OutcomeTier::NoEffect => {},
            OutcomeTier::Slight => {
                self.accumulated_rnd = 0;
                push_entry(
                    log,
                    "Research & Development leads to a slight increase in product quality, raising demand.",
                );
                bonus = 5;
                push_entry(log, "Research also leads to a small cut in production costs.");
                deduction = 1 + source.pick(5) as i64;
                upgrade_percent = 10;
                proof {
                    re_eff = ChannelEffect {
                        tier: OutcomeTier::Slight,
                        demand_bonus: 5,
                        cost_reduction: deduction as int,
                        upgrade_percent: 10,
                    };
                }
            },
            OutcomeTier::Fair => {
                self.accumulated_rnd = 0;
                push_entry(
                    log,
                    "Research & Development leads to a fair increase in product quality, raising demand.",
                );
                bonus = 10;
                push_entry(log, "Research also leads to a decent cut in production costs.");
                deduction = 5 + source.pick(6) as i64;
                upgrade_percent = 30;
                proof {
                    re_eff = ChannelEffect {
                        tier: OutcomeTier::Fair,
                        demand_bonus: 10,
                        cost_reduction: deduction as int,
                        upgrade_percent: 30,
                    };
                }
            },
            OutcomeTier::Exceptional => {
                self.accumulated_rnd = 0;
                push_entry(
                    log,
                    "Research & Development leads to an exceptional increase in product quality, raising demand greatly.",
                );
                bonus = 50;
                push_entry(log, "Research also greatly cuts production costs.");
                deduction = 20 + source.pick(11) as i64;
                upgrade_percent = 100;
                proof {
                    re_eff = ChannelEffect {
                        tier: OutcomeTier::Exceptional,
                        demand_bonus: 50,
                        cost_reduction: deduction as int,
                        upgrade_percent: 100,
                    };
                }
            },
        }
        proof {
            assert(research_effect_ok(re_eff, acc_r_g, base_g));
            assert(log_views(log@) =~= log_views(pre_log) + research_messages(re_eff.tier));
        }
        let roll_m = source.pick(100);
        let tier_m = outcome_tier(roll_m, self.accumulated_marketing, base);
        let ghost mut me_eff = no_effect();
        match tier_m {
            OutcomeTier::NoEffect => {},
            OutcomeTier::Slight => {
                self.accumulated_marketing = 0;
                push_entry(log, "Marketing leads to a slight increase in consumer demand.");
                bonus = bonus + 5;
                proof {
                    me_eff = ChannelEffect {
                        tier: OutcomeTier::Slight,
                        demand_bonus: 5,
                        cost_reduction: 0,
                        upgrade_percent: 0,
                    };
                }
            },
            OutcomeTier::Fair => {
                self.accumulated_marketing = 0;
                push_entry(log, "Marketing leads to a fair increase in consumer demand.");
                bonus = bonus + 20;
                proof {
                    me_eff = ChannelEffect {
                        tier: OutcomeTier::Fair,
                        demand_bonus: 20,
                        cost_reduction: 0,
                        upgrade_percent: 0,
                    };
                }
            },
            OutcomeTier::Exceptional => {
                self.accumulated_marketing = 0;
                push_entry(log, "Marketing leads to a boom in consumer demand.");
                bonus = bonus + 40;
                proof {
                    me_eff = ChannelEffect {
                        tier: OutcomeTier::Exceptional,
                        demand_bonus: 40,
                        cost_reduction: 0,
                        upgrade_percent: 0,
                    };
                }
            },
        }
        proof {
            assert(marketing_effect_ok(me_eff, acc_m_g, base_g));
            assert(log_views(log@) =~= log_views(pre_log) + research_messages(re_eff.tier)
                + marketing_messages(me_eff.tier));
        }
        let ghost mut ups: Seq<bool> = Seq::empty();
        let mut i: usize = 0;
        while i < PRODUCT_COUNT
            invariant
                business_inv(pre),
                i <= PRODUCT_COUNT,
                self.products@.len() == PRODUCT_COUNT,
                ups.len() == i as int,
                rf_g == spec_invest(pre.funds, pre.rnd_allocation),
                mf_g == spec_invest(pre.funds, pre.marketing_allocation),
                base_g == spec_threshold_base(clamp_amount(pre.funds - rf_g - mf_g)),
                acc_r_g == clamp_amount(pre.accumulated_rnd + rf_g),
                acc_m_g == clamp_amount(pre.accumulated_marketing + mf_g),
                self@.funds == clamp_amount(pre.funds - rf_g - mf_g),
                self@.rnd_allocation == pre.rnd_allocation,
                self@.marketing_allocation == pre.marketing_allocation,
                research_effect_ok(re_eff, acc_r_g, base_g),
                marketing_effect_ok(me_eff, acc_m_g, base_g),
                self@.accumulated_rnd == (if re_eff.tier is NoEffect {
                    acc_r_g
                } else {
                    0
                }),
                self@.accumulated_marketing == (if me_eff.tier is NoEffect {
                    acc_m_g
                } else {
                    0
                }),
                bonus as int == re_eff.demand_bonus + me_eff.demand_bonus,
                0 <= bonus <= 90,
                deduction as int == re_eff.cost_reduction,
                0 <= deduction <= 30,
                upgrade_percent as int == re_eff.upgrade_percent,
                upgrade_percent <= 100,
                log_views(log@) == log_views(pre_log) + research_messages(re_eff.tier)
                    + marketing_messages(me_eff.tier),
                re_eff.upgrade_percent == 0 ==> (forall|j: int|
                    0 <= j < i as int ==> !(#[trigger] ups[j])),
                re_eff.upgrade_percent == 100 ==> (forall|j: int|
                    0 <= j < i as int ==> #[trigger] ups[j]),
                forall|j: int| i as int <= j < PRODUCT_COUNT ==> #[trigger] self@.products[j]
                    == pre.products[j],
                forall|j: int| 0 <= j < i as int ==> #[trigger] self@.products[j]
                    == spec_product_after(
                    pre.products[j],
                    bonus as int,
                    deduction as int,
                    ups[j],
                    price_factor as int,
                    quality_factor as int,
                ),
            decreases PRODUCT_COUNT - i,
        {
            let roll_q = source.pick(100);
            let upgraded = roll_q < upgrade_percent;
            proof {
                assert(self.products@[i as int]@ == self@.products[i as int]);
                assert(product_inv(pre.products[i as int]));
            }
            let p0 = &self.products[i];
            let q2 = if upgraded {
                p0.quality.advanced()
            } else {
                p0.quality
            };
            let qv = q2.value();
            let b2 = clamp_to_amount(p0.baseline_demand as i128 + bonus as i128);
            let cost2 = if deduction >= qv + 20 {
                deduction
            } else {
                qv + 20
            };
            let fd = compute_final_demand(b2, price_factor, p0.price, quality_factor, qv);
            let np = Product {
                price: p0.price,
                allocation: p0.allocation,
                quantity: p0.quantity,
                quality: q2,
                production_cost: cost2,
                baseline_demand: b2,
                final_demand: fd,
            };
            let ghost prods0 = self.products@;
            self.products[i] = np;
            proof {
                lemma_product_views_update(prods0, i as int, np);
                ups = ups.push(upgraded);
                assert(np@ == spec_product_after(
                    pre.products[i as int],
                    bonus as int,
                    deduction as int,
                    upgraded,
                    price_factor as int,
                    quality_factor as int,
                ));
            }
            i = i + 1;
        }
        proof {
            let o = DemandOutcome { research: re_eff, marketing: me_eff, upgrades: ups };
            assert(demand_outcome_matches(
                o,
                pre,
                self@,
                price_factor as int,
                quality_factor as int,
                log_views(pre_log),
                log_views(log@),
            ));
            assert(business_inv(self@));
            assert forall|i: int| 0 <= i < PRODUCT_COUNT implies quality_le(
                pre.products[i].quality,
                (#[trigger] self@.products[i]).quality,
            ) by {
                lemma_advanced_ge(pre.products[i].quality);
            }
            if rf_g == 0 && mf_g == 0 && pre.accumulated_rnd == 0 && pre.accumulated_marketing
                == 0 {
                assert(re_eff == no_effect());
                assert(me_eff == no_effect());
                assert(log_views(log@) =~= log_views(pre_log));
            }
        }
    }
}

} // verus!
