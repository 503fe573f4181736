//! A verified burger-shop order ledger.
//!
//! The library prices customer orders against a fixed menu, enforces that an
//! exact payment accompanies each order, and records every paid order in an
//! append-only ledger that can be queried by id or enumerated in full.
//! The hosting environment (which supplies the caller identity, the attached
//! value and the funds-transfer primitive) stays outside the library: its
//! readings and the transfer outcome are handed in as plain values, and the
//! contracts state what the shop does for every such value.

pub mod errors;
pub mod events;
pub mod menu;
pub mod order;
pub mod shop;

pub use errors::BurgerShopError;
pub use events::CreatedShopAndStorage;
pub use events::GetAllOrders;
pub use events::GetSingleOrder;
pub use events::Transfer;
pub use menu::BurgerMenu;
pub use menu::FoodItem;
pub use menu::Balance;
pub use order::AccountId;
pub use order::Order;
pub use shop::BurgerShop;
pub use shop::SCALE_FACTOR;
pub use shop::verify_payment;
