//! Orders, payments and invoices of a small shop, with their rules proved.
//!
//! A [`customer::Customer`] selects [`product::Product`]s into a
//! [`order::PurchaseOrder`], whose total always is the sum of its
//! [`lines::LineItem`]s. The order is closed, a [`payment::PaymentMethod`]
//! such as [`card::CreditCardMethod`] attempts to collect the total, and the
//! [`payment::Payment`] that comes back is filed with the closed order in an
//! [`invoice::Invoice`].
//!
//! Every type has a view, a plain mathematical value, and the contract of each
//! function is stated over views. The two functions that read the system
//! clock, [`order::PurchaseOrder::close`] and the `pay` of
//! [`card::CreditCardMethod`], each have a twin that takes the instant as an
//! argument and is specified exactly.

pub mod address;
pub mod card;
pub mod checksum;
pub mod clock;
pub mod configuration;
pub mod customer;
pub mod invoice;
pub mod lines;
pub mod order;
pub mod payment;
pub mod product;
