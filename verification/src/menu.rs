//! The fixed menu: the closed set of purchasable item kinds, each with an
//! immutable unit price, and the priced order line built from one of them.

use vstd::prelude::*;

verus! {

/// Amount of currency, in the smallest unit the shop prices in.
pub type Balance = u128;

/// The closed set of item kinds the shop sells. Each kind has a fixed unit
/// price; adding a kind means adding a variant and one price rule.
#[derive(Debug, Clone, Copy, PartialEq, Eq, Structural)]
pub enum BurgerMenu {
    CheeseBurger,
    ChickenBurger,
    VegiBurger,
}

impl BurgerMenu {
    /// The immutable unit price of this item kind.
    pub open spec fn price_spec(self) -> Balance {
        match self {
            BurgerMenu::CheeseBurger => 12,
            BurgerMenu::ChickenBurger => 15,
            BurgerMenu::VegiBurger => 10,
        }
    }

    /// Unit price of one item of this kind: a pure, total function over the
    /// closed enumeration.
    pub fn price(&self) -> (r: Balance)
        ensures
            r == self.price_spec(),
            r <= MAX_UNIT_PRICE,
    {
        match self {
            BurgerMenu::CheeseBurger => 12,
            BurgerMenu::ChickenBurger => 15,
            BurgerMenu::VegiBurger => 10,
        }
    }
}

/// The largest unit price on the menu; every `price_spec` is bounded by it.
pub const MAX_UNIT_PRICE: Balance = 15;

/// One line of an order: an item kind and how many of it the customer wants.
/// A quantity of zero is rejected by the workflow before pricing.
#[derive(Debug, Clone, Copy, PartialEq, Eq, Structural)]
pub struct FoodItem {
    pub burger_menu: BurgerMenu,
    pub amount: u32,
}

/// Price of one order line: unit price times quantity, as unbounded math.
pub open spec fn line_price_spec(item: FoodItem) -> int {
    item.burger_menu.price_spec() * item.amount
}

/// Every line price fits comfortably below `u128::MAX`: the unit price is at
/// most `MAX_UNIT_PRICE` and the quantity is a `u32`.
pub proof fn lemma_line_price_bound(item: FoodItem)
    ensures
        0 <= line_price_spec(item) <= MAX_UNIT_PRICE * u32::MAX,
{
    let unit = item.burger_menu.price_spec();
    assert(0 <= unit <= MAX_UNIT_PRICE);
    assert(unit * item.amount <= MAX_UNIT_PRICE * u32::MAX) by (nonlinear_arith)
        requires
            0 <= unit <= MAX_UNIT_PRICE,
            0 <= item.amount <= u32::MAX,
    ;
    assert(0 <= unit * item.amount) by (nonlinear_arith)
        requires
            0 <= unit,
            0 <= item.amount,
    ;
}

impl FoodItem {
    /// Price of this line: the kind's unit price times the quantity.
    pub fn price(&self) -> (r: Balance)
        ensures
            r == line_price_spec(*self),
    {
        proof {
            lemma_line_price_bound(*self);
        }
        match self.burger_menu {
            BurgerMenu::CheeseBurger => BurgerMenu::CheeseBurger.price() * self.amount as u128,
            BurgerMenu::ChickenBurger => BurgerMenu::ChickenBurger.price() * self.amount as u128,
            BurgerMenu::VegiBurger => BurgerMenu::VegiBurger.price() * self.amount as u128,
        }
    }
}

} // verus!
