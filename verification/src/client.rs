//! The simulated customer who walks in, wants one product, and may buy.
//!
//! A customer is modelled with plain values: the price and quality factors
//! are integer hundredths (a factor of 50 stands for one half), and the
//! walk across the shop floor happens on integer coordinates in steps of
//! five, from the entrance at -200 to the counter at 200 and the door at
//! 800. Drawing the sprite is the caller's business; the engine only keeps
//! the state the walk and the purchase depend on.

use vstd::prelude::*;
use vstd::string::StringExecFns;

verus! {

/// The character class of a customer.
#[derive(Clone, Copy, Debug, PartialEq, Eq, Structural)]
pub enum ClassType {
    FIGHTER,
    CLERIC,
    MAGE,
}

/// What kind of good the customer is after.
#[derive(Clone, Copy, Debug, PartialEq, Eq, Structural)]
pub enum Prioritization {
    Food,
    Armor,
    Weapon,
}

/// The product a customer of the given class and prioritization asks for.
pub open spec fn spec_wanted_product(class: ClassType, prioritization: Prioritization) -> Seq<
    char,
> {
    match prioritization {
        Prioritization::Food => "Food"@,
        Prioritization::Armor => match class {
            ClassType::FIGHTER => "Fighter Armor"@,
            ClassType::CLERIC => "Cleric Armor"@,
            ClassType::MAGE => "Mage Armor"@,
        },
        Prioritization::Weapon => match class {
            ClassType::FIGHTER => "Fighter Weapons"@,
            ClassType::CLERIC => "Cleric Weapons"@,
            ClassType::MAGE => "Mage Weapons"@,
        },
    }
}

/// One customer of the shop.
pub struct Client {
    class_type: ClassType,
    price_factor: i64,
    quality_factor: i64,
    prioritization: Prioritization,
    income: i64,
    exit: bool,
    complete: bool,
    position: (i64, i64),
    purchase_complete: bool,
    reached_center: bool,
}

/// Mathematical state of one customer.
#[verifier::ext_equal]
pub ghost struct ClientView {
    pub class_type: ClassType,
    pub price_factor: int,
    pub quality_factor: int,
    pub prioritization: Prioritization,
    pub income: int,
    pub exit: bool,
    pub complete: bool,
    pub position: (int, int),
    pub purchase_complete: bool,
    pub reached_center: bool,
}

impl View for Client {
    type V = ClientView;

    closed spec fn view(&self) -> ClientView {
        ClientView {
            class_type: self.class_type,
            price_factor: self.price_factor as int,
            quality_factor: self.quality_factor as int,
            prioritization: self.prioritization,
            income: self.income as int,
            exit: self.exit,
            complete: self.complete,
            position: (self.position.0 as int, self.position.1 as int),
            purchase_complete: self.purchase_complete,
            reached_center: self.reached_center,
        }
    }
}

impl Client {
    /// A customer who just appeared at the entrance. The factors are
    /// integer hundredths.
    pub fn new(
        class_type: ClassType,
        price_factor: i64,
        quality_factor: i64,
        prioritization: Prioritization,
        income: i64,
    ) -> (c: Client)
        ensures
            c@ == (ClientView {
                class_type,
                price_factor: price_factor as int,
                quality_factor: quality_factor as int,
                prioritization,
                income: income as int,
                exit: false,
                complete: false,
                position: (-200, -40),
                purchase_complete: false,
                reached_center: false,
            }),
    {
        Client {
            reached_center: false,
            class_type,
            quality_factor,
            price_factor,
            complete: false,
            exit: false,
            position: (-200, -40),
            income,
            prioritization,
            purchase_complete: false,
        }
    }

    /// Horizontal position on the shop floor.
    pub fn x(&self) -> (r: i64)
        ensures
            r as int == self@.position.0,
    {
        self.position.0
    }

    /// Vertical position on the shop floor.
    pub fn y(&self) -> (r: i64)
        ensures
            r as int == self@.position.1,
    {
        self.position.1
    }

    /// Move the customer horizontally.
    pub fn set_x(&mut self, val: i64)
        ensures
            final(self)@ == (ClientView { position: (val as int, old(self)@.position.1), ..old(self)@ }),
    {
        self.position.0 = val;
    }

    /// Move the customer vertically.
    pub fn set_y(&mut self, val: i64)
        ensures
            final(self)@ == (ClientView { position: (old(self)@.position.0, val as int), ..old(self)@ }),
    {
        self.position.1 = val;
    }

    /// The name of the product this customer asks for.
    pub fn want(&self) -> (r: String)
        ensures
            r@ == spec_wanted_product(self@.class_type, self@.prioritization),
    {
        match self.prioritization {
            Prioritization::Food => String::from_str("Food"),
            Prioritization::Armor => match self.class_type {
                ClassType::FIGHTER => String::from_str("Fighter Armor"),
                ClassType::CLERIC => String::from_str("Cleric Armor"),
                ClassType::MAGE => String::from_str("Mage Armor"),
            },
            Prioritization::Weapon => match self.class_type {
                ClassType::FIGHTER => String::from_str("Fighter Weapons"),
                ClassType::CLERIC => String::from_str("Cleric Weapons"),
                ClassType::MAGE => String::from_str("Mage Weapons"),
            },
        }
    }

    /// One walking step of five: towards the counter at 200 while the
    /// customer has not been sent off, towards the door at 800 afterwards.
    /// Arriving at the counter sets `reached_center`; arriving at the door
    /// sets `complete`.
    pub fn advance(&mut self)
        ensures
            final(self)@ == if !old(self)@.exit {
                if old(self)@.position.0 >= 200 {
                    (ClientView {
                        position: (200, old(self)@.position.1),
                        reached_center: true,
                        ..old(self)@
                    })
                } else {
                    (ClientView {
                        position: (old(self)@.position.0 + 5, old(self)@.position.1),
                        ..old(self)@
                    })
                }
            } else {
                if old(self)@.position.0 >= 800 {
                    (ClientView {
                        position: (800, old(self)@.position.1),
                        complete: true,
                        ..old(self)@
                    })
                } else {
                    (ClientView {
                        position: (old(self)@.position.0 + 5, old(self)@.position.1),
                        ..old(self)@
                    })
                }
            },
    {
        if !self.exit {
            if self.position.0 >= 200 {
                self.position.0 = 200;
                self.reached_center = true;
            } else {
                self.position.0 = self.position.0 + 5;
            }
        } else {
            if self.position.0 >= 800 {
                self.position.0 = 800;
                self.complete = true;
            } else {
                self.position.0 = self.position.0 + 5;
            }
        }
    }

    /// Whether the customer has reached the counter.
    pub fn center(&self) -> (r: bool)
        ensures
            r == self@.reached_center,
    {
        self.reached_center
    }

    /// The customer's character class.
    pub fn get_class_type(&self) -> (r: &ClassType)
        ensures
            *r == self@.class_type,
    {
        &self.class_type
    }

    /// Display name of the customer's character class.
    pub fn get_class_type_name(&self) -> (r: &str)
        ensures
            self@.class_type is FIGHTER ==> r@ == "Fighter"@,
            self@.class_type is MAGE ==> r@ == "Mage"@,
            self@.class_type is CLERIC ==> r@ == "Cleric"@,
    {
        match self.class_type {
            ClassType::FIGHTER => "Fighter",
            ClassType::MAGE => "Mage",
            ClassType::CLERIC => "Cleric",
        }
    }

    /// The customer's price sensitivity, in hundredths.
    pub fn price_factor(&self) -> (r: i64)
        ensures
            r as int == self@.price_factor,
    {
        self.price_factor
    }

    /// The customer's appreciation of quality, in hundredths.
    pub fn quality_factor(&self) -> (r: i64)
        ensures
            r as int == self@.quality_factor,
    {
        self.quality_factor
    }

    /// Set the price sensitivity, in hundredths.
    pub fn set_price_factor(&mut self, value: i64)
        ensures
            final(self)@ == (ClientView { price_factor: value as int, ..old(self)@ }),
    {
        self.price_factor = value;
    }

    /// Set the appreciation of quality, in hundredths.
    pub fn set_quality_factor(&mut self, value: i64)
        ensures
            final(self)@ == (ClientView { quality_factor: value as int, ..old(self)@ }),
    {
        self.quality_factor = value;
    }

    /// Whether the customer has left through the door.
    pub fn is_complete(&self) -> (r: bool)
        ensures
            r == self@.complete,
    {
        self.complete
    }

    /// Send the customer off towards the door.
    pub fn complete(&mut self)
        ensures
            final(self)@ == (ClientView { exit: true, ..old(self)@ }),
    {
        self.exit = true;
    }

    /// Whether the customer is on the way out.
    pub fn exit(&self) -> (r: bool)
        ensures
            r == self@.exit,
    {
        self.exit
    }

    /// What the customer is willing to spend.
    pub fn income(&self) -> (r: i64)
        ensures
            r as int == self@.income,
    {
        self.income
    }

    /// Mark the customer's purchase as settled.
    pub fn complete_purchase(&mut self)
        ensures
            final(self)@ == (ClientView { purchase_complete: true, ..old(self)@ }),
    {
        self.purchase_complete = true;
    }

    /// Whether the customer's purchase has been settled.
    pub fn is_purchase_complete(&self) -> (r: bool)
        ensures
            r == self@.purchase_complete,
    {
        self.purchase_complete
    }
}

} // verus!
