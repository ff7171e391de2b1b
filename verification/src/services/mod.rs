//! Services built on the stores.

pub mod customer;
pub mod stripe;
pub mod webhook;
