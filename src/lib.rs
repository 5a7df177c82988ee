//! A ledger engine that replays deposits, withdrawals, disputes, resolutions
//! and chargebacks against per-client accounts.
pub mod error;
pub mod datastore;
pub mod model;
pub mod payment_service;
pub mod rules;
