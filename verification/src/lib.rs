//! Bursar: double-entry bookkeeping logic for a multi-entity ledger.
//!
//! The library holds the computations of the application: money arithmetic and
//! formatting, calendar arithmetic for fiscal periods and schedules, report
//! assembly, depreciation schedules, receivable/payable payment rules,
//! envelope budgeting rules, tax review states, and the inter-entity write
//! protocol. Database and terminal access live outside the library.

pub mod text;
pub mod types;
pub mod date;
pub mod money;
pub mod accounts;
pub mod ledger;
pub mod receivables;
pub mod envelopes;
pub mod audit;
pub mod fiscal;
pub mod assets;
pub mod recurring;
pub mod inter_entity;
pub mod tax;
pub mod config;
pub mod reports;
pub mod update;
