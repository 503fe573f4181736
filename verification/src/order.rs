//! Orders: a customer's line items together with the total computed for them
//! once, at creation, and the paid flag that flips exactly once at commit.

use vstd::prelude::*;

use crate::menu::Balance;
use crate::menu::FoodItem;
use crate::menu::MAX_UNIT_PRICE;
use crate::menu::line_price_spec;
use crate::menu::lemma_line_price_bound;

verus! {

/// An account in the hosting environment, reduced to the one thing the shop
/// reads of it: a plain identifier that can be compared for equality.
#[derive(Debug, Clone, Copy, PartialEq, Eq, Structural)]
pub struct AccountId {
    pub id: u128,
}

/// Total price of a sequence of order lines: the sum, line by line from the
/// left, of unit price times quantity, as unbounded math.
pub open spec fn total_of(items: Seq<FoodItem>) -> int
    decreases items.len(),
{
    if items.len() == 0 {
        0
    } else {
        total_of(items.drop_last()) + line_price_spec(items.last())
    }
}

/// The total of a sequence is bounded by one maximal line per element, and is
/// never negative.
pub proof fn lemma_total_of_bound(items: Seq<FoodItem>)
    ensures
        0 <= total_of(items) <= items.len() * (MAX_UNIT_PRICE * u32::MAX),
    decreases items.len(),
{
    if items.len() == 0 {
    } else {
        lemma_total_of_bound(items.drop_last());
        lemma_line_price_bound(items.last());
        let cap = MAX_UNIT_PRICE * u32::MAX;
        assert((items.len() - 1) * cap + cap == items.len() * cap) by (nonlinear_arith)
            requires
                items.len() >= 1,
        ;
    }
}

/// Summation law: the total of two line sequences laid end to end is the sum
/// of their totals, whichever way the summation is associated.
pub proof fn lemma_total_of_concat(a: Seq<FoodItem>, b: Seq<FoodItem>)
    ensures
        total_of(a + b) == total_of(a) + total_of(b),
    decreases b.len(),
{
    if b.len() == 0 {
        assert(a + b =~= a);
    } else {
        lemma_total_of_concat(a, b.drop_last());
        assert((a + b).drop_last() =~= a + b.drop_last());
        assert((a + b).last() == b.last());
    }
}

/// Taking one more element extends the running total by that line's price.
pub proof fn lemma_total_of_take_step(items: Seq<FoodItem>, i: int)
    requires
        0 <= i < items.len(),
    ensures
        total_of(items.take(i + 1)) == total_of(items.take(i)) + line_price_spec(items[i]),
{
    assert(items.take(i + 1).drop_last() =~= items.take(i));
    assert(items.take(i + 1).last() == items[i]);
}

/// A customer's order: the requested line items, who ordered, the total
/// computed once at creation, the paid flag, and the ledger id.
#[derive(Debug, PartialEq)]
pub struct Order {
    pub list_of_items: Vec<FoodItem>,
    pub customer: AccountId,
    pub total_price: Balance,
    pub paid: bool,
    pub order_id: u32,
}

/// Two orders carry the same data: equal line sequences and equal scalar
/// fields. Cloning and storing never changes an order under this relation.
pub open spec fn orders_match(a: Order, b: Order) -> bool {
    &&& a.list_of_items@ == b.list_of_items@
    &&& a.customer == b.customer
    &&& a.total_price == b.total_price
    &&& a.paid == b.paid
    &&& a.order_id == b.order_id
}

/// Internal consistency of an order: the lines are non-empty, every quantity
/// is positive, and the stored total is exactly the total of the lines.
pub open spec fn order_wf(o: Order) -> bool {
    &&& o.list_of_items@.len() > 0
    &&& forall|i: int|
        0 <= i < o.list_of_items@.len() ==> (#[trigger] o.list_of_items@[i]).amount > 0
    &&& o.total_price == total_of(o.list_of_items@)
}

impl Clone for Order {
    /// A clone carries exactly the data of the order it was made from.
    fn clone(&self) -> (res: Self)
        ensures
            orders_match(res, *self),
    {
        let mut items: Vec<FoodItem> = Vec::new();
        let mut i: usize = 0;
        while i < self.list_of_items.len()
            invariant
                0 <= i <= self.list_of_items@.len(),
                items@ == self.list_of_items@.take(i as int),
            decreases self.list_of_items@.len() - i,
        {
            items.push(self.list_of_items[i]);
            i = i + 1;
        }
        assert(items@ =~= self.list_of_items@);
        Order {
            list_of_items: items,
            customer: self.customer,
            total_price: self.total_price,
            paid: self.paid,
            order_id: self.order_id,
        }
    }
}

impl Order {
    /// Total price of the given lines, summed left to right. The sum always
    /// fits a `Balance`: each line is at most `MAX_UNIT_PRICE * u32::MAX`
    /// and there are at most `usize::MAX` lines.
    pub fn total_price(list_of_items: &Vec<FoodItem>) -> (total: Balance)
        ensures
            total == total_of(list_of_items@),
    {
        let mut total: Balance = 0;
        let mut i: usize = 0;
        while i < list_of_items.len()
            invariant
                0 <= i <= list_of_items@.len(),
                total == total_of(list_of_items@.take(i as int)),
            decreases list_of_items@.len() - i,
        {
            proof {
                lemma_total_of_take_step(list_of_items@, i as int);
                lemma_total_of_bound(list_of_items@.take(i as int));
                lemma_line_price_bound(list_of_items@[i as int]);
                assert(list_of_items@.take(i as int).len() * (MAX_UNIT_PRICE * u32::MAX)
                    <= usize::MAX as int * (MAX_UNIT_PRICE * u32::MAX)) by (nonlinear_arith)
                    requires
                        0 <= list_of_items@.take(i as int).len() <= usize::MAX as int,
                ;
            }
            total = total + list_of_items[i].price();
            i = i + 1;
        }
        assert(list_of_items@.take(list_of_items@.len() as int) =~= list_of_items@);
        total
    }

    /// A fresh, unpaid candidate order: the lines as given, the total computed
    /// from them once, and the id the ledger tentatively assigned.
    pub fn new(list_of_items: Vec<FoodItem>, customer: AccountId, id: u32) -> (r: Self)
        ensures
            r.list_of_items@ == list_of_items@,
            r.customer == customer,
            r.total_price == total_of(list_of_items@),
            r.paid == false,
            r.order_id == id,
    {
        let total_price = Order::total_price(&list_of_items);
        Self { list_of_items, customer, total_price, paid: false, order_id: id }
    }
}

} // verus!
