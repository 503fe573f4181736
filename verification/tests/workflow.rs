use burger_shop::AccountId;
use burger_shop::BurgerMenu;
use burger_shop::BurgerShop;
use burger_shop::BurgerShopError;
use burger_shop::FoodItem;
use burger_shop::SCALE_FACTOR;

const OWNER: AccountId = AccountId { id: 1 };
const CUSTOMER: AccountId = AccountId { id: 7 };

fn scenario_lines() -> Vec<FoodItem> {
    vec![
        FoodItem { burger_menu: BurgerMenu::CheeseBurger, amount: 2 },
        FoodItem { burger_menu: BurgerMenu::VegiBurger, amount: 1 },
    ]
}

#[test]
fn exact_payment_commits_the_order() {
    let mut shop = BurgerShop::new();
    let order = shop
        .take_order_and_payment(scenario_lines(), CUSTOMER, OWNER, 34 * SCALE_FACTOR, true)
        .expect("an exactly paid order must commit");
    assert_eq!(order.order_id, 0);
    assert_eq!(order.total_price, 34);
    assert!(order.paid);
    assert_eq!(order.customer, CUSTOMER);
    assert_eq!(order.list_of_items, scenario_lines());
}

#[test]
fn wrong_payment_is_rejected_and_nothing_is_stored() {
    let mut shop = BurgerShop::new();
    let r = shop.take_order_and_payment(scenario_lines(), CUSTOMER, OWNER, 33 * SCALE_FACTOR, true);
    assert_eq!(
        r,
        Err(BurgerShopError::IncorrectPaymentAmount { expected: 34, received: 33 * SCALE_FACTOR })
    );
    assert_eq!(shop.get_orders(), None);
    assert_eq!(shop.get_single_order(0), Err(BurgerShopError::OrderNotFound));
    assert_eq!(shop.next_id(), 0);
}

#[test]
fn overpayment_is_rejected_too() {
    let mut shop = BurgerShop::new();
    let r = shop.take_order_and_payment(scenario_lines(), CUSTOMER, OWNER, 35 * SCALE_FACTOR, true);
    assert_eq!(
        r,
        Err(BurgerShopError::IncorrectPaymentAmount { expected: 34, received: 35 * SCALE_FACTOR })
    );
    assert_eq!(shop.next_id(), 0);
}

#[test]
fn failed_transfer_leaves_both_views_unchanged() {
    let mut shop = BurgerShop::new();
    shop.take_order_and_payment(scenario_lines(), CUSTOMER, OWNER, 34 * SCALE_FACTOR, true)
        .expect("first order must commit");
    let r = shop.take_order_and_payment(scenario_lines(), CUSTOMER, OWNER, 34 * SCALE_FACTOR, false);
    assert_eq!(r, Err(BurgerShopError::PaymentTransferFailed));
    assert_eq!(shop.next_id(), 1);
    assert_eq!(shop.get_orders().expect("one order is stored").len(), 1);
    assert_eq!(shop.get_single_order(1), Err(BurgerShopError::OrderNotFound));
}

#[test]
fn empty_order_is_rejected_before_payment() {
    let mut shop = BurgerShop::new();
    let r = shop.take_order_and_payment(Vec::new(), CUSTOMER, OWNER, 0, true);
    assert_eq!(r, Err(BurgerShopError::EmptyOrder));
    // the verdict comes from validation, whatever value travels with the call
    let r = shop.take_order_and_payment(Vec::new(), CUSTOMER, OWNER, 34 * SCALE_FACTOR, true);
    assert_eq!(r, Err(BurgerShopError::EmptyOrder));
    assert_eq!(shop.get_orders(), None);
}

#[test]
fn zero_quantity_line_is_rejected_before_payment() {
    let mut shop = BurgerShop::new();
    let lines = vec![
        FoodItem { burger_menu: BurgerMenu::CheeseBurger, amount: 2 },
        FoodItem { burger_menu: BurgerMenu::VegiBurger, amount: 0 },
    ];
    let r = shop.take_order_and_payment(lines.clone(), CUSTOMER, OWNER, 24 * SCALE_FACTOR, true);
    assert_eq!(r, Err(BurgerShopError::EmptyLineItem));
    // validation decides before any payment step, so a failing transfer
    // changes nothing about the verdict
    let r = shop.take_order_and_payment(lines, CUSTOMER, OWNER, 24 * SCALE_FACTOR, false);
    assert_eq!(r, Err(BurgerShopError::EmptyLineItem));
    assert_eq!(shop.get_orders(), None);
}

#[test]
fn the_owner_may_not_be_a_customer() {
    let mut shop = BurgerShop::new();
    let r = shop.take_order_and_payment(scenario_lines(), OWNER, OWNER, 34 * SCALE_FACTOR, true);
    assert_eq!(r, Err(BurgerShopError::InvalidCaller));
    assert_eq!(shop.get_orders(), None);
}

#[test]
fn ids_count_up_from_zero_in_commit_order() {
    let mut shop = BurgerShop::new();
    let mut returned_ids = Vec::new();
    for _ in 0..3 {
        let order = shop
            .take_order_and_payment(scenario_lines(), CUSTOMER, OWNER, 34 * SCALE_FACTOR, true)
            .expect("exactly paid orders must commit");
        returned_ids.push(order.order_id);
    }
    assert_eq!(returned_ids, vec![0, 1, 2]);
    let stored = shop.get_orders().expect("three orders are stored");
    assert_eq!(stored.len(), 3);
    for (position, (id, order)) in stored.iter().enumerate() {
        assert_eq!(*id, position as u32);
        assert_eq!(order.order_id, position as u32);
    }
    assert_eq!(shop.next_id(), 3);
}

#[test]
fn committed_orders_are_found_by_id_and_in_the_enumeration() {
    let mut shop = BurgerShop::new();
    let first = shop
        .take_order_and_payment(scenario_lines(), CUSTOMER, OWNER, 34 * SCALE_FACTOR, true)
        .expect("first order must commit");
    let second_lines = vec![FoodItem { burger_menu: BurgerMenu::ChickenBurger, amount: 3 }];
    let second = shop
        .take_order_and_payment(second_lines, AccountId { id: 8 }, OWNER, 45 * SCALE_FACTOR, true)
        .expect("second order must commit");

    assert_eq!(shop.get_single_order(0), Ok(first.clone()));
    assert_eq!(shop.get_single_order(1), Ok(second.clone()));
    let all = shop.get_orders().expect("two orders are stored");
    assert_eq!(all, vec![(0, first), (1, second)]);
}

#[test]
fn lookup_on_a_fresh_shop_finds_nothing() {
    let shop = BurgerShop::new();
    assert_eq!(shop.get_single_order(0), Err(BurgerShopError::OrderNotFound));
    assert_eq!(shop.get_orders(), None);
    assert_eq!(shop.next_id(), 0);
}
