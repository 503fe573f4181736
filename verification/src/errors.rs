//! The typed errors a shop operation can report. Every failure leaves the
//! ledger untouched; none of them aborts the process.

use vstd::prelude::*;

use crate::menu::Balance;

verus! {

/// Why a shop operation failed.
#[derive(Debug, Clone, Copy, PartialEq, Eq, Structural)]
pub enum BurgerShopError {
    /// The caller is the shop owner: the owner may not be their own customer.
    InvalidCaller,
    /// The order holds no lines at all.
    EmptyOrder,
    /// Some line asks for a quantity of zero.
    EmptyLineItem,
    /// Scaling the total to the environment's native unit would overflow.
    /// With the bounded menu prices this is unreachable for any order that
    /// fits in memory; it is a defect guard, not a business error.
    PriceOverflow,
    /// The attached value is not exactly the scaled total. Carries the total
    /// still owed (in price units) and the value that was attached (in the
    /// environment's native unit).
    IncorrectPaymentAmount { expected: Balance, received: Balance },
    /// The funds-transfer primitive reported failure; nothing was recorded.
    PaymentTransferFailed,
    /// No committed order carries the requested id.
    OrderNotFound,
}

} // verus!
