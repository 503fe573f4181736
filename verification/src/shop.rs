//! The shop: the order ledger with its two always-agreeing views, and the
//! order/payment workflow that validates a proposed order, prices it, checks
//! the attached payment to the unit, and commits the paid order atomically.

use vstd::prelude::*;

use std::collections::HashMap;

use crate::errors::BurgerShopError;
use crate::menu::Balance;
use crate::menu::FoodItem;
use crate::order::AccountId;
use crate::order::Order;
use crate::order::order_wf;
use crate::order::orders_match;
use crate::order::total_of;
use vstd::arithmetic::div_mod::lemma_fundamental_div_mod;
use vstd::arithmetic::div_mod::lemma_mod_bound;
use vstd::arithmetic::mul::lemma_mul_inequality;

verus! {

broadcast use vstd::std_specs::hash::group_hash_axioms;

/// Conversion between the shop's price unit and the environment's native
/// transfer unit: one price unit is paid as this many native units.
pub const SCALE_FACTOR: Balance = 1_000_000_000_000;

/// The largest order total whose scaled payment still fits a `Balance`.
pub const MAX_UNSCALED_TOTAL: Balance = u128::MAX / SCALE_FACTOR;

/// Some line of the order asks for a quantity of zero.
pub open spec fn has_zero_line(items: Seq<FoodItem>) -> bool {
    exists|i: int| 0 <= i < items.len() && (#[trigger] items[i]).amount == 0
}

/// The verdict of the validation, pricing and payment-verification gates, in
/// the order the workflow applies them: `None` means every gate passed and
/// the order may be paid for and committed; `Some(e)` is the error reported,
/// with no state touched.
pub open spec fn workflow_error(
    items: Seq<FoodItem>,
    caller: AccountId,
    shop_account: AccountId,
    attached_value: Balance,
) -> Option<BurgerShopError> {
    if caller == shop_account {
        Some(BurgerShopError::InvalidCaller)
    } else if has_zero_line(items) {
        Some(BurgerShopError::EmptyLineItem)
    } else if items.len() == 0 {
        Some(BurgerShopError::EmptyOrder)
    } else if total_of(items) > MAX_UNSCALED_TOTAL {
        Some(BurgerShopError::PriceOverflow)
    } else if attached_value != total_of(items) * SCALE_FACTOR {
        Some(
            BurgerShopError::IncorrectPaymentAmount {
                expected: total_of(items) as u128,
                received: attached_value,
            },
        )
    } else {
        None
    }
}

/// The shop's durable state: one append-only, insertion-ordered log of
/// `(id, order)` pairs for full enumeration, and one point-lookup index from
/// id to order. Both views are written together, in the single commit step,
/// and never disagree.
pub struct BurgerShop {
    pub orders: Vec<(u32, Order)>,
    pub orders_mapping: HashMap<u32, Order>,
}

impl BurgerShop {
    /// The ledger's invariant, established at creation and preserved by every
    /// operation: ids are exactly the positions `0, 1, ..., N-1` of the log,
    /// every stored order is paid and internally consistent, and the index
    /// holds precisely the logged ids, each mapped to the logged order.
    pub open spec fn wf(self) -> bool {
        &&& self.orders@.len() <= u32::MAX as int
        &&& forall|i: int|
            0 <= i < self.orders@.len() ==> {
                &&& (#[trigger] self.orders@[i]).0 == i as u32
                &&& self.orders@[i].1.order_id == i as u32
                &&& self.orders@[i].1.paid == true
                &&& order_wf(self.orders@[i].1)
            }
        &&& forall|id: u32|
            #[trigger] self.orders_mapping@.contains_key(id) <==> (id as int) < self.orders@.len()
        &&& forall|id: u32|
            (id as int) < self.orders@.len() ==> orders_match(
                #[trigger] self.orders_mapping@[id],
                self.orders@[id as int].1,
            )
    }

    /// A fresh shop: both views of the ledger empty.
    pub fn new() -> (shop: Self)
        ensures
            shop.wf(),
            shop.orders@.len() == 0,
            shop.orders_mapping@ == Map::<u32, Order>::empty(),
    {
        Self { orders: Vec::new(), orders_mapping: HashMap::new() }
    }

    /// The id the next committed order will receive: the current count of
    /// committed orders.
    pub fn next_id(&self) -> (id: u32)
        requires
            self.wf(),
        ensures
            id == self.orders@.len(),
    {
        self.orders.len() as u32
    }

    /// The whole order/payment workflow for one invocation. The environment's
    /// readings come in as plain values: the caller's account, the shop's own
    /// account, the value attached to the call, and the outcome the transfer
    /// primitive reported for moving the total to the shop owner.
    ///
    /// If any gate fails, the matching error is returned and the ledger is
    /// untouched, whatever the transfer outcome. If every gate passes and the
    /// transfer failed, `PaymentTransferFailed` is returned and the ledger is
    /// untouched. Only when every gate passes and the transfer succeeded is
    /// the order marked paid and appended — to both views at once — under the
    /// next id, and returned to the caller.
    pub fn take_order_and_payment(
        &mut self,
        list_of_items: Vec<FoodItem>,
        caller: AccountId,
        shop_account: AccountId,
        attached_value: Balance,
        transfer_ok: bool,
    ) -> (r: Result<Order, BurgerShopError>)
        requires
            old(self).wf(),
            old(self).orders@.len() < u32::MAX as int,
        ensures
            final(self).wf(),
            ({
                let verdict = workflow_error(list_of_items@, caller, shop_account, attached_value);
                &&& verdict matches Some(e) ==> r == Err::<Order, BurgerShopError>(e)
                    && *final(self) == *old(self)
                &&& (verdict is None && !transfer_ok) ==> r == Err::<Order, BurgerShopError>(
                    BurgerShopError::PaymentTransferFailed,
                ) && *final(self) == *old(self)
                &&& (verdict is None && transfer_ok) ==> ({
                    &&& r matches Ok(ord)
                    &&& ord.order_id == old(self).orders@.len() as u32
                    &&& ord.customer == caller
                    &&& ord.paid == true
                    &&& ord.list_of_items@ == list_of_items@
                    &&& ord.total_price == total_of(list_of_items@)
                    &&& final(self).orders@.len() == old(self).orders@.len() + 1
                    &&& forall|i: int|
                        0 <= i < old(self).orders@.len() ==> final(self).orders@[i] == old(
                            self,
                        ).orders@[i]
                    &&& final(self).orders@.last().0 == ord.order_id
                    &&& orders_match(final(self).orders@.last().1, ord)
                    &&& final(self).orders_mapping@.contains_key(ord.order_id)
                    &&& orders_match(final(self).orders_mapping@[ord.order_id], ord)
                })
            }),
    {
        let total = match verify_payment(&list_of_items, caller, shop_account, attached_value) {
            Ok(total) => total,
            Err(e) => {
                return Err(e);
            },
        };
        if !transfer_ok {
            return Err(BurgerShopError::PaymentTransferFailed);
        }
        let ghost pre = *self;
        let id: u32 = self.orders.len() as u32;
        let mut order = Order::new(list_of_items, caller, id);
        order.paid = true;
        proof {
            assert forall|j: int| 0 <= j < order.list_of_items@.len() implies (
            #[trigger] order.list_of_items@[j]).amount > 0 by {
                if order.list_of_items@[j].amount == 0 {
                    assert(has_zero_line(order.list_of_items@));
                }
            }
            assert(order_wf(order));
        }
        self.orders_mapping.insert(id, order.clone());
        self.orders.push((id, order.clone()));
        proof {
            let n = pre.orders@.len();
            assert(self.orders@.len() == n + 1);
            assert forall|j: u32| #[trigger]
                self.orders_mapping@.contains_key(j) <==> (j as int) < self.orders@.len() by {
                assert(self.orders_mapping@ == pre.orders_mapping@.insert(id, self.orders_mapping@[id]));
                if j == id {
                    assert(self.orders_mapping@.contains_key(j));
                } else {
                    assert(self.orders_mapping@.contains_key(j) == pre.orders_mapping@.contains_key(j));
                }
            }
            assert forall|j: u32| (j as int) < self.orders@.len() implies orders_match(
                #[trigger] self.orders_mapping@[j],
                self.orders@[j as int].1,
            ) by {
                if j == id {
                    assert(self.orders@[j as int] == self.orders@.last());
                } else {
                    assert(self.orders_mapping@[j] == pre.orders_mapping@[j]);
                    assert(self.orders@[j as int] == pre.orders@[j as int]);
                }
            }
            assert(self.wf());
        }
        Ok(order)
    }

    /// Point lookup: the committed order stored under `id`, or
    /// `OrderNotFound` exactly when no order carries that id.
    pub fn get_single_order(&self, id: u32) -> (r: Result<Order, BurgerShopError>)
        requires
            self.wf(),
        ensures
            (id as int) < self.orders@.len() ==> (r matches Ok(o) && orders_match(
                o,
                self.orders@[id as int].1,
            )),
            (id as int) >= self.orders@.len() ==> r == Err::<Order, BurgerShopError>(
                BurgerShopError::OrderNotFound,
            ),
    {
        match self.orders_mapping.get(&id) {
            Some(order) => Ok(order.clone()),
            None => Err(BurgerShopError::OrderNotFound),
        }
    }

    /// Full enumeration: a copy of the whole log in insertion order, or
    /// `None` exactly when no order was ever committed — so a caller can tell
    /// an empty ledger apart from any ledger with entries.
    pub fn get_orders(&self) -> (r: Option<Vec<(u32, Order)>>)
        ensures
            self.orders@.len() == 0 ==> r is None,
            self.orders@.len() > 0 ==> (r matches Some(v) && v@.len() == self.orders@.len()
                && forall|i: int|
                0 <= i < v@.len() ==> (#[trigger] v@[i]).0 == self.orders@[i].0 && orders_match(
                    v@[i].1,
                    self.orders@[i].1,
                )),
    {
        if self.orders.len() > 0 {
            let mut all: Vec<(u32, Order)> = Vec::new();
            let mut i: usize = 0;
            while i < self.orders.len()
                invariant
                    0 <= i <= self.orders@.len(),
                    all@.len() == i,
                    forall|j: int|
                        0 <= j < i ==> (#[trigger] all@[j]).0 == self.orders@[j].0 && orders_match(
                            all@[j].1,
                            self.orders@[j].1,
                        ),
                decreases self.orders@.len() - i,
            {
                let pair = &self.orders[i];
                all.push((pair.0, pair.1.clone()));
                i = i + 1;
            }
            Some(all)
        } else {
            None
        }
    }
}

/// Id law: in a well-formed ledger with N orders, the ids stored — in the log
/// entries and in the orders themselves — are exactly 0, 1, ..., N-1, in
/// commit order. With each commit assigning the ledger's length as the id,
/// successful commits receive unique, strictly increasing ids.
pub proof fn lemma_ids_sequential(shop: BurgerShop)
    requires
        shop.wf(),
    ensures
        forall|i: int|
            0 <= i < shop.orders@.len() ==> (#[trigger] shop.orders@[i]).0 == i as u32
                && shop.orders@[i].1.order_id == i as u32,
{
}

/// Lookup-consistency law: in a well-formed ledger, every id below the log's
/// length — and no other — is present in the point index, and the index and
/// the log hold the same order for it, under the log entry carrying that id.
pub proof fn lemma_lookup_consistent(shop: BurgerShop, id: u32)
    requires
        shop.wf(),
        (id as int) < shop.orders@.len(),
    ensures
        shop.orders_mapping@.contains_key(id),
        orders_match(shop.orders_mapping@[id], shop.orders@[id as int].1),
        shop.orders@[id as int].0 == id,
{
}

/// Runs the workflow's gates up to payment verification, touching no state:
/// the caller must not be the shop owner, every line quantity must be
/// positive, the order must be non-empty, the scaled total must fit the
/// native unit, and the attached value must equal it exactly. On success,
/// returns the order's total in price units — the amount the transfer
/// primitive is then asked to move.
pub fn verify_payment(
    list_of_items: &Vec<FoodItem>,
    caller: AccountId,
    shop_account: AccountId,
    attached_value: Balance,
) -> (r: Result<Balance, BurgerShopError>)
    ensures
        ({
            let verdict = workflow_error(list_of_items@, caller, shop_account, attached_value);
            &&& verdict matches Some(e) ==> r == Err::<Balance, BurgerShopError>(e)
            &&& verdict is None ==> r == Ok::<Balance, BurgerShopError>(
                total_of(list_of_items@) as u128,
            )
        }),
{
    if caller == shop_account {
        return Err(BurgerShopError::InvalidCaller);
    }
    let mut i: usize = 0;
    while i < list_of_items.len()
        invariant
            0 <= i <= list_of_items@.len(),
            caller != shop_account,
            forall|j: int| 0 <= j < i ==> (#[trigger] list_of_items@[j]).amount > 0,
        decreases list_of_items@.len() - i,
    {
        if list_of_items[i].amount == 0 {
            assert(has_zero_line(list_of_items@));
            return Err(BurgerShopError::EmptyLineItem);
        }
        i = i + 1;
    }
    assert(!has_zero_line(list_of_items@));
    if list_of_items.len() == 0 {
        return Err(BurgerShopError::EmptyOrder);
    }
    let total = Order::total_price(list_of_items);
    if total > MAX_UNSCALED_TOTAL {
        return Err(BurgerShopError::PriceOverflow);
    }
    proof {
        lemma_fundamental_div_mod(u128::MAX as int, SCALE_FACTOR as int);
        lemma_mod_bound(u128::MAX as int, SCALE_FACTOR as int);
        lemma_mul_inequality(total as int, MAX_UNSCALED_TOTAL as int, SCALE_FACTOR as int);
        assert(total as int * SCALE_FACTOR as int <= u128::MAX as int);
    }
    let expected_native = total * SCALE_FACTOR;
    if attached_value != expected_native {
        return Err(BurgerShopError::IncorrectPaymentAmount { expected: total, received: attached_value });
    }
    Ok(total)
}

} // verus!
