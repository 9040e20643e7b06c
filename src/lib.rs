//! A double-entry wallet ledger with a custodial reserve ledger and a
//! reconciliation cycle that checks that reserves cover wallet liabilities.

pub mod deployment;
pub mod money;
pub mod wallet;
pub mod transaction;
pub mod reserve;
pub mod ledger;
pub mod reconciliation;
pub mod accounting;
pub mod notification;
pub mod security;
pub mod user;
pub mod api;
pub mod encoding;
pub mod queue;
