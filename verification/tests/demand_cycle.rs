use dungeon_economy::business::Business;
use dungeon_economy::decimal::decimal_string;
use dungeon_economy::demand::{OutcomeTier, compute_final_demand, outcome_tier, threshold_base};
use dungeon_economy::quality::Quality;
use dungeon_economy::rng::{ScriptedSource, ThreadRngSource, UniformSource};

#[test]
fn threshold_base_follows_the_funds_tiers() {
    assert_eq!(threshold_base(0), 20_000);
    assert_eq!(threshold_base(9_999), 20_000);
    assert_eq!(threshold_base(10_000), 100_000);
    assert_eq!(threshold_base(49_999), 100_000);
    assert_eq!(threshold_base(50_000), 200_000);
    assert_eq!(threshold_base(5_000_000), 200_000);
}

#[test]
fn outcome_tier_roll_boundaries() {
    let huge: i64 = 1_000_000;
    assert_eq!(outcome_tier(0, huge, 20_000), OutcomeTier::NoEffect);
    assert_eq!(outcome_tier(50, huge, 20_000), OutcomeTier::NoEffect);
    assert_eq!(outcome_tier(51, huge, 20_000), OutcomeTier::Slight);
    assert_eq!(outcome_tier(80, huge, 20_000), OutcomeTier::Slight);
    assert_eq!(outcome_tier(81, huge, 20_000), OutcomeTier::Fair);
    assert_eq!(outcome_tier(90, huge, 20_000), OutcomeTier::Fair);
    assert_eq!(outcome_tier(91, huge, 20_000), OutcomeTier::Exceptional);
    assert_eq!(outcome_tier(99, huge, 20_000), OutcomeTier::Exceptional);
}

#[test]
fn outcome_tier_threshold_boundaries() {
    let base = 20_000;
    assert_eq!(outcome_tier(51, 10_000, base), OutcomeTier::NoEffect);
    assert_eq!(outcome_tier(51, 10_001, base), OutcomeTier::Slight);
    assert_eq!(outcome_tier(81, 20_000, base), OutcomeTier::NoEffect);
    assert_eq!(outcome_tier(81, 20_001, base), OutcomeTier::Fair);
    assert_eq!(outcome_tier(91, 40_000, base), OutcomeTier::NoEffect);
    assert_eq!(outcome_tier(91, 40_001, base), OutcomeTier::Exceptional);
}

#[test]
fn final_demand_formula_exact_value() {
    // 10 - 0.5 * 10 + 0.4 * 5 = 7
    assert_eq!(compute_final_demand(10, 50, 10, 40, 5), 7);
    // truncation towards zero after the weighted sum
    assert_eq!(compute_final_demand(10, 33, 10, 0, 0), 6);
}

#[test]
fn final_demand_never_negative() {
    assert_eq!(compute_final_demand(0, 100, 1_000, 0, 0), 0);
    assert_eq!(compute_final_demand(5, 0, 0, -100, 15), 0);
    assert_eq!(compute_final_demand(3, 1_000_000, i64::MAX, 40, 15), 0);
}

#[test]
fn decimal_rendering() {
    assert_eq!(decimal_string(0), "0");
    assert_eq!(decimal_string(7), "7");
    assert_eq!(decimal_string(50), "50");
    assert_eq!(decimal_string(12_345), "12345");
}

#[test]
fn scripted_source_replays_and_then_yields_zero() {
    let mut s = ScriptedSource::new(vec![7, 99, 3]);
    assert_eq!(s.pick(5), 2);  // 7 % 5
    assert_eq!(s.pick(100), 99);
    assert_eq!(s.pick(100), 3);
    assert_eq!(s.pick(100), 0);  // script exhausted
}

#[test]
fn no_investment_means_no_accumulation_and_no_breakthrough() {
    // funds 5000, research and marketing both at 0%: even rolls in the
    // exceptional band change nothing, because the accumulators stay 0
    let mut b = Business::new(5_000);
    let mut log: Vec<String> = Vec::new();
    let mut src = ScriptedSource::new(vec![99, 99, 0, 0, 0, 0, 0, 0, 0]);
    b.update_demand(50, 40, &mut log, &mut src);
    assert_eq!(b.funds(), 5_000);
    assert_eq!(b.accumulated_rnd(), 0);
    assert_eq!(b.accumulated_marketing(), 0);
    assert!(log.is_empty());
    // demand moved only through the price and quality terms
    assert_eq!(b.get_demand("Food"), Ok(5));
    assert_eq!(b.get_quality("Food"), Ok(Quality::Basic));
}

#[test]
fn investment_grows_the_accumulators_without_a_breakthrough() {
    let mut b = Business::new(10_000);
    b.set_allocation("Research & Development", 10).unwrap();
    b.set_allocation("Marketing", 20).unwrap();
    let mut log: Vec<String> = Vec::new();
    let mut src = ScriptedSource::new(vec![0, 0, 0, 0, 0, 0, 0, 0, 0]);
    b.update_demand(0, 0, &mut log, &mut src);
    assert_eq!(b.funds(), 7_000);
    assert_eq!(b.accumulated_rnd(), 1_000);
    assert_eq!(b.accumulated_marketing(), 2_000);
    assert!(log.is_empty());
}

#[test]
fn exceptional_research_breakthrough_upgrades_everything() {
    let mut b = Business::new(50_000);
    b.set_allocation("Research & Development", 100).unwrap();
    let mut log: Vec<String> = Vec::new();
    // research roll 95 (exceptional band), cost-cut draw 5 -> reduction 25,
    // marketing roll 0, all seven upgrade rolls hit (percentage is 100)
    let mut src = ScriptedSource::new(vec![95, 5, 0, 0, 0, 0, 0, 0, 0, 0]);
    b.update_demand(0, 0, &mut log, &mut src);
    // the whole balance was invested: 50000 > 2 * 20000, so the roll fired
    assert_eq!(b.funds(), 0);
    assert_eq!(b.accumulated_rnd(), 0);
    assert_eq!(b.get_quality("Food"), Ok(Quality::Good));
    assert_eq!(b.get_quality("Mage Weapons"), Ok(Quality::Good));
    // production cost replaced by max(25, quality value 5 + 20)
    assert_eq!(b.get_production_cost("Food"), Ok(25));
    // baseline 5 + bonus 50, no price and no quality weight
    assert_eq!(b.get_demand("Food"), Ok(55));
    assert_eq!(log.len(), 2);
    assert_eq!(
        log[0],
        "Research & Development leads to an exceptional increase in product quality, raising demand greatly.",
    );
    assert_eq!(log[1], "Research also greatly cuts production costs.");
}

#[test]
fn slight_research_breakthrough_upgrades_per_product_roll() {
    let mut b = Business::new(40_000);
    b.set_allocation("Research & Development", 100).unwrap();
    let mut log: Vec<String> = Vec::new();
    // roll 55 (slight band, accumulator 40000 > 10000), cost-cut draw 2 ->
    // reduction 3, marketing roll 0; the upgrade percentage is 10, so the
    // roll of 9 hits and the rolls of 10 miss
    let mut src = ScriptedSource::new(vec![55, 2, 0, 9, 10, 10, 10, 10, 10, 10]);
    b.update_demand(0, 0, &mut log, &mut src);
    assert_eq!(b.accumulated_rnd(), 0);
    assert_eq!(b.get_quality("Food"), Ok(Quality::Good));
    assert_eq!(b.get_quality("Fighter Armor"), Ok(Quality::Basic));
    // max(3, 5 + 20) for the upgraded product, max(3, 0 + 20) otherwise
    assert_eq!(b.get_production_cost("Food"), Ok(25));
    assert_eq!(b.get_production_cost("Fighter Armor"), Ok(20));
    assert_eq!(b.get_demand("Food"), Ok(10));
    assert_eq!(b.get_demand("Fighter Armor"), Ok(25));
    assert_eq!(log.len(), 2);
    assert_eq!(
        log[0],
        "Research & Development leads to a slight increase in product quality, raising demand.",
    );
    assert_eq!(log[1], "Research also leads to a small cut in production costs.");
}

#[test]
fn fair_research_breakthrough_cuts_costs_harder() {
    let mut b = Business::new(25_000);
    b.set_allocation("Research & Development", 100).unwrap();
    let mut log: Vec<String> = Vec::new();
    // roll 85 (fair band, accumulator 25000 > 20000), cost-cut draw 1 ->
    // reduction 6; the upgrade percentage is 30, so 29 hits and 30 misses
    let mut src = ScriptedSource::new(vec![85, 1, 0, 29, 30, 30, 30, 30, 30, 30]);
    b.update_demand(0, 0, &mut log, &mut src);
    assert_eq!(b.get_quality("Food"), Ok(Quality::Good));
    assert_eq!(b.get_quality("Cleric Weapons"), Ok(Quality::Basic));
    assert_eq!(b.get_production_cost("Food"), Ok(25));
    assert_eq!(b.get_production_cost("Cleric Weapons"), Ok(20));
    assert_eq!(b.get_demand("Food"), Ok(15));
    assert_eq!(log.len(), 2);
    assert_eq!(
        log[0],
        "Research & Development leads to a fair increase in product quality, raising demand.",
    );
    assert_eq!(log[1], "Research also leads to a decent cut in production costs.");
}

#[test]
fn quality_only_advances_and_stops_at_exceptional() {
    let mut b = Business::new(50_000);
    b.set_allocation("Research & Development", 100).unwrap();
    let mut log: Vec<String> = Vec::new();
    for round in 0..3 {
        b.set_funds(50_000);
        let mut src = ScriptedSource::new(vec![95, 5, 0, 0, 0, 0, 0, 0, 0, 0]);
        b.update_demand(0, 0, &mut log, &mut src);
        let expected = match round {
            0 => Quality::Good,
            _ => Quality::Exceptional,
        };
        assert_eq!(b.get_quality("Cleric Armor"), Ok(expected));
    }
    // quality value 15 + 20 beats the reduction of 25
    assert_eq!(b.get_production_cost("Cleric Armor"), Ok(35));
}

#[test]
fn marketing_breakthrough_only_raises_demand() {
    let mut b = Business::new(50_000);
    b.set_allocation("Marketing", 100).unwrap();
    let mut log: Vec<String> = Vec::new();
    // research roll 0, marketing roll 95: a boom of +40 demand
    let mut src = ScriptedSource::new(vec![0, 95, 0, 0, 0, 0, 0, 0, 0]);
    b.update_demand(0, 0, &mut log, &mut src);
    assert_eq!(b.accumulated_marketing(), 0);
    assert_eq!(b.get_demand("Food"), Ok(45));
    assert_eq!(b.get_quality("Food"), Ok(Quality::Basic));
    assert_eq!(b.get_production_cost("Food"), Ok(20));
    assert_eq!(log.len(), 1);
    assert_eq!(log[0], "Marketing leads to a boom in consumer demand.");
}

#[test]
fn unmet_threshold_preserves_the_accumulator() {
    // a roll in the slight band whose threshold is not met has no effect
    // and keeps the invested funds for a future attempt
    let mut b = Business::new(10_000);
    b.set_allocation("Research & Development", 50).unwrap();
    let mut log: Vec<String> = Vec::new();
    // invested 5000; base is 20000 (funds drop to 5000), 5000 < 10001
    let mut src = ScriptedSource::new(vec![55, 0, 0, 0, 0, 0, 0, 0, 0]);
    b.update_demand(0, 0, &mut log, &mut src);
    assert_eq!(b.funds(), 5_000);
    assert_eq!(b.accumulated_rnd(), 5_000);
    assert!(log.is_empty());
    assert_eq!(b.get_quality("Food"), Ok(Quality::Basic));
}

#[test]
fn demand_reflects_price_and_quality_after_the_cycle() {
    let mut b = Business::new(5_000);
    b.set_price("Food", 10).unwrap();
    let mut log: Vec<String> = Vec::new();
    let mut src = ScriptedSource::new(vec![0, 0, 0, 0, 0, 0, 0, 0, 0]);
    // price factor 0.5, quality factor 0.4: 5 - 0.5 * 10 + 0.4 * 0 = 0
    b.update_demand(50, 40, &mut log, &mut src);
    assert_eq!(b.get_demand("Food"), Ok(0));
    // fighter armor has no price: baseline 20 stays
    assert_eq!(b.get_demand("Fighter Armor"), Ok(20));
}

#[test]
fn thread_source_draws_below_the_bound() {
    let mut src = ThreadRngSource::new();
    assert_eq!(src.pick(1), 0);
    for _ in 0..100 {
        assert!(src.pick(10) < 10);
    }
}

#[test]
fn live_cycle_keeps_the_invariants() {
    let mut b = Business::new(5_000);
    b.set_allocation("Research & Development", 30).unwrap();
    b.set_allocation("Marketing", 30).unwrap();
    b.set_price("Food", 10).unwrap();
    let mut src = ThreadRngSource::new();
    let mut log: Vec<String> = Vec::new();
    let mut last_rank: i32 = 0;
    for _ in 0..50 {
        b.update_demand(50, 40, &mut log, &mut src);
        assert!(b.funds() >= 0);
        assert!(b.get_demand("Food").unwrap() >= 0);
        let rank = match b.get_quality("Food").unwrap() {
            Quality::Basic => 0,
            Quality::Good => 1,
            Quality::Exceptional => 2,
        };
        assert!(rank >= last_rank);
        last_rank = rank;
    }
}
