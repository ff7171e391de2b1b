//! Payment and subscription reconciliation.
//!
//! A payment gateway reports the outcome of each payment attempt by
//! notifications that may arrive more than once. This library mirrors those
//! outcomes into a local system of record: it keeps the payment attempts, an
//! append-only payment history and the users' subscription entitlements, and
//! it applies each notified outcome so that a repeated delivery changes
//! nothing, a terminal status never flips, and a failed step leaves every
//! table as it was.
//!
//! - [`models`] holds the records and the store with the operations of each
//!   table;
//! - [`services`] holds the engine: payment initiation, the verification
//!   and handling of notifications, and the mapping from users to customers
//!   of the gateway;
//! - [`routes`] holds what the request handlers decide;
//! - [`guarantees`] states what holds across operations.
//!
//! Calls to the gateway are made by the caller, who hands the answers in;
//! amounts are in the currency's minor unit and times in seconds.

pub mod config;
pub mod error;
pub mod guarantees;
pub mod models;
pub mod routes;
pub mod services;
