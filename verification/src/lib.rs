//! The core of a small storefront: integer prices, the session-bound shopping
//! cart and its reconciliation rules, and the all-or-nothing checkout.
//!
//! Everything here works on plain values. Storage, HTTP and the payment
//! provider are outside collaborators: they hand their results in and carry
//! the decisions of this crate out.
//!
//! * [`cart`] holds the cart and the rule by which a quantity change is
//!   applied to it; [`cart_update`] is one request to change it, from the
//!   live product to the write-back; [`cart_view`] is the cart as its page
//!   shows it.
//! * [`resolver`] finds or creates the session of a request; [`session`]
//!   holds the session records and the cookie; [`token`] reads and writes
//!   session identifiers.
//! * [`checkout`] coordinates payment, stock and cart; [`inventory`] takes a
//!   cart from the stock, all lines or none.
//! * [`catalog`] plans the listings; [`product`], [`price`] and [`tags`]
//!   hold what a product is made of; [`cache`] keeps the categories.
//! * [`errors`] names what can fail; [`config`] and [`text`] are small.

pub mod cache;
pub mod cart;
pub mod cart_update;
pub mod cart_view;
pub mod catalog;
pub mod checkout;
pub mod config;
pub mod errors;
pub mod inventory;
pub mod price;
pub mod product;
pub mod resolver;
pub mod session;
pub mod tags;
pub mod text;
pub mod token;
