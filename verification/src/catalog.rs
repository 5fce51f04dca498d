//! The fixed catalog of products and allocation categories.
//!
//! The engine knows seven products and two extra funding categories,
//! "Research & Development" and "Marketing". The set of names is fixed at
//! construction; every name a caller hands in is resolved here, and unknown
//! names are rejected centrally.

use vstd::prelude::*;

verus! {

/// Number of products in the catalog.
pub const PRODUCT_COUNT: usize = 7;

/// Number of allocation categories: every product plus research and marketing.
pub const CATEGORY_COUNT: usize = 9;

/// Category index of "Research & Development".
pub const RESEARCH_CATEGORY: usize = 7;

/// Category index of "Marketing".
pub const MARKETING_CATEGORY: usize = 8;

/// Name of the product with the given index.
pub open spec fn spec_product_name(i: int) -> Seq<char> {
    if i == 0 {
        "Food"@
    } else if i == 1 {
        "Fighter Armor"@
    } else if i == 2 {
        "Fighter Weapons"@
    } else if i == 3 {
        "Cleric Armor"@
    } else if i == 4 {
        "Cleric Weapons"@
    } else if i == 5 {
        "Mage Armor"@
    } else {
        "Mage Weapons"@
    }
}

/// Index of the product with the given name, if the name is in the catalog.
pub open spec fn spec_product_index(name: Seq<char>) -> Option<int> {
    if name == "Food"@ {
        Some(0int)
    } else if name == "Fighter Armor"@ {
        Some(1int)
    } else if name == "Fighter Weapons"@ {
        Some(2int)
    } else if name == "Cleric Armor"@ {
        Some(3int)
    } else if name == "Cleric Weapons"@ {
        Some(4int)
    } else if name == "Mage Armor"@ {
        Some(5int)
    } else if name == "Mage Weapons"@ {
        Some(6int)
    } else {
        None
    }
}

/// Index of the allocation category with the given name: the products keep
/// their product index, research and marketing come after them.
pub open spec fn spec_category_index(name: Seq<char>) -> Option<int> {
    if spec_product_index(name) is Some {
        spec_product_index(name)
    } else if name == "Research & Development"@ {
        Some(RESEARCH_CATEGORY as int)
    } else if name == "Marketing"@ {
        Some(MARKETING_CATEGORY as int)
    } else {
        None
    }
}

/// Production cost per unit that the product with the given index starts with.
pub open spec fn spec_initial_cost(i: int) -> int {
    if i == 0 {
        200
    } else if i == 1 || i == 3 || i == 5 {
        300
    } else {
        275
    }
}

/// Baseline demand that the product with the given index starts with.
pub open spec fn spec_initial_baseline(i: int) -> int {
    if i == 0 {
        5
    } else {
        20
    }
}

/// Whether two string slices hold the same characters.
fn str_eq(a: &str, b: &str) -> (r: bool)
    ensures
        r == (a@ == b@),
{
    let sa: String = a.to_owned();
    let sb: String = b.to_owned();
    sa.eq(&sb)
}

/// Resolve a product name to its index; `None` for a name outside the catalog.
pub fn product_index_of(name: &str) -> (r: Option<usize>)
    ensures
        match spec_product_index(name@) {
            Some(i) => r matches Some(x) && x == i,
            None => r is None,
        },
{
    if str_eq(name, "Food") {
        Some(0)
    } else if str_eq(name, "Fighter Armor") {
        Some(1)
    } else if str_eq(name, "Fighter Weapons") {
        Some(2)
    } else if str_eq(name, "Cleric Armor") {
        Some(3)
    } else if str_eq(name, "Cleric Weapons") {
        Some(4)
    } else if str_eq(name, "Mage Armor") {
        Some(5)
    } else if str_eq(name, "Mage Weapons") {
        Some(6)
    } else {
        None
    }
}

/// Resolve a category name to its index; `None` for a name outside the catalog.
pub fn category_index_of(name: &str) -> (r: Option<usize>)
    ensures
        match spec_category_index(name@) {
            Some(i) => r matches Some(x) && x == i,
            None => r is None,
        },
{
    if let Some(i) = product_index_of(name) {
        Some(i)
    } else if str_eq(name, "Research & Development") {
        Some(RESEARCH_CATEGORY)
    } else if str_eq(name, "Marketing") {
        Some(MARKETING_CATEGORY)
    } else {
        None
    }
}

/// Production cost per unit that the product with the given index starts with.
pub fn initial_cost(i: usize) -> (r: i64)
    requires
        i < PRODUCT_COUNT,
    ensures
        r as int == spec_initial_cost(i as int),
{
    match i {
        0 => 200,
        1 | 3 | 5 => 300,
        _ => 275,
    }
}

/// Baseline demand that the product with the given index starts with.
pub fn initial_baseline(i: usize) -> (r: i64)
    requires
        i < PRODUCT_COUNT,
    ensures
        r as int == spec_initial_baseline(i as int),
{
    if i == 0 {
        5
    } else {
        20
    }
}

/// Name of the product with the given index.
pub fn product_name(i: usize) -> (r: &'static str)
    requires
        i < PRODUCT_COUNT,
    ensures
        r@ == spec_product_name(i as int),
{
    match i {
        0 => "Food",
        1 => "Fighter Armor",
        2 => "Fighter Weapons",
        3 => "Cleric Armor",
        4 => "Cleric Weapons",
        5 => "Mage Armor",
        _ => "Mage Weapons",
    }
}

} // verus!
