//! Notifications the shop hands to the hosting environment. The library only
//! builds these records; emitting them is the host's business.

use vstd::prelude::*;

use crate::menu::Balance;
use crate::order::AccountId;
use crate::order::Order;

verus! {

/// Record of a completed payment: who paid, who received, and how much.
#[derive(Debug, PartialEq)]
pub struct Transfer {
    pub from: Option<AccountId>,
    pub to: Option<AccountId>,
    pub value: Balance,
}

impl Transfer {
    /// The payment-recorded notification for a committed order: the customer
    /// paid the order's total to the shop's account.
    pub fn for_paid_order(order: &Order, shop_account: AccountId) -> (t: Transfer)
        ensures
            t.from == Some(order.customer),
            t.to == Some(shop_account),
            t.value == order.total_price,
    {
        Transfer { from: Some(order.customer), to: Some(shop_account), value: order.total_price }
    }
}

/// Notification that the full ledger was read.
#[derive(Debug, PartialEq)]
pub struct GetAllOrders {
    pub orders: Vec<(u32, Order)>,
}

/// Notification that a single order was read.
#[derive(Debug, PartialEq)]
pub struct GetSingleOrder {
    pub single_order: Order,
}

/// Notification that the shop and its empty ledger were created. Only the
/// enumerable view travels with it.
#[derive(Debug, PartialEq)]
pub struct CreatedShopAndStorage {
    pub orders: Vec<(u32, Order)>,
}

} // verus!
