use dungeon_economy::business::{Business, production_units};
use dungeon_economy::error::EngineError;

#[test]
fn production_units_guards_against_zero_cost() {
    assert_eq!(production_units(100, 0), Err(EngineError::InvalidProductionCost));
    assert_eq!(production_units(100, -7), Err(EngineError::InvalidProductionCost));
    assert_eq!(production_units(100, 30), Ok(3));
    assert_eq!(production_units(0, 30), Ok(0));
}

#[test]
fn produce_manufactures_from_allocated_funds() {
    let mut b = Business::new(1_000);
    b.set_allocation("Food", 100).unwrap();
    b.update_quantities();
    // the whole balance went into food: 1000 / 200 = 5 units
    assert_eq!(b.get_quantity("Food"), Ok(5));
    assert_eq!(b.funds(), 0);
    assert_eq!(b.get_quantity("Mage Armor"), Ok(0));
}

#[test]
fn produce_without_allocation_changes_nothing() {
    let mut b = Business::new(1_000);
    b.update_quantities();
    assert_eq!(b.funds(), 1_000);
    for name in ["Food", "Fighter Armor", "Mage Weapons"] {
        assert_eq!(b.get_quantity(name), Ok(0));
    }
}

#[test]
fn produce_never_decreases_stock() {
    let mut b = Business::new(10_000);
    b.set_allocation("Food", 10).unwrap();
    b.set_allocation("Fighter Armor", 20).unwrap();
    for _ in 0..5 {
        let before_food = b.get_quantity("Food").unwrap();
        let before_armor = b.get_quantity("Fighter Armor").unwrap();
        b.update_quantities();
        assert!(b.get_quantity("Food").unwrap() >= before_food);
        assert!(b.get_quantity("Fighter Armor").unwrap() >= before_armor);
        assert!(b.funds() >= 0);
    }
}

#[test]
fn produce_shares_come_from_the_same_snapshot() {
    // both shares are computed from the funds at entry, and over-allocation
    // only clamps the balance at zero
    let mut b = Business::new(1_000);
    b.set_allocation("Food", 100).unwrap();
    b.set_allocation("Fighter Armor", 100).unwrap();
    b.update_quantities();
    assert_eq!(b.get_quantity("Food"), Ok(5));  // 1000 / 200
    assert_eq!(b.get_quantity("Fighter Armor"), Ok(3));  // 1000 / 300
    assert_eq!(b.funds(), 0);
}

#[test]
fn purchase_sells_at_most_available_stock() {
    // stock 5 at price 10; a request for 8 sells 5 and earns 50
    let mut b = Business::new(1_000);
    b.set_allocation("Food", 100).unwrap();
    b.update_quantities();
    assert_eq!(b.get_quantity("Food"), Ok(5));
    assert_eq!(b.funds(), 0);
    b.set_price("Food", 10).unwrap();
    let mut log: Vec<String> = Vec::new();
    assert_eq!(b.purchase("Food", 8, &mut log), Ok(()));
    assert_eq!(b.get_quantity("Food"), Ok(0));
    assert_eq!(b.funds(), 50);
    assert_eq!(log.len(), 1);
    assert_eq!(log[0], "+$50 made!");
}

#[test]
fn purchase_of_less_than_stock_leaves_the_rest() {
    let mut b = Business::new(2_000);
    b.set_allocation("Food", 100).unwrap();
    b.update_quantities();
    assert_eq!(b.get_quantity("Food"), Ok(10));
    b.set_price("Food", 7).unwrap();
    let mut log: Vec<String> = Vec::new();
    assert_eq!(b.purchase("Food", 4, &mut log), Ok(()));
    assert_eq!(b.get_quantity("Food"), Ok(6));
    assert_eq!(b.funds(), 28);
    assert_eq!(log.last().unwrap(), "+$28 made!");
}

#[test]
fn purchase_rejects_negative_quantity() {
    let mut b = Business::new(100);
    let mut log: Vec<String> = Vec::new();
    assert_eq!(b.purchase("Food", -2, &mut log), Err(EngineError::NegativeInput));
    assert_eq!(b.funds(), 100);
    assert!(log.is_empty());
}

#[test]
fn purchase_of_unpriced_good_earns_nothing() {
    let mut b = Business::new(1_000);
    b.set_allocation("Food", 100).unwrap();
    b.update_quantities();
    let mut log: Vec<String> = Vec::new();
    assert_eq!(b.purchase("Food", 2, &mut log), Ok(()));
    assert_eq!(b.get_quantity("Food"), Ok(3));
    assert_eq!(b.funds(), 0);
    assert_eq!(log[0], "+$0 made!");
}
