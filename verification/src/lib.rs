//! Core logic of an invoicing ledger module.
//!
//! An administrator registers invoices with an amount and identifier, a payer
//! settles an invoice by transferring funds that match the invoice exactly,
//! and the administrator may cancel an unpaid invoice. This crate holds the
//! decision logic: request validation, authorization, invoice lifecycle
//! transitions and fund-matching rules, each stated as a contract and proved.
//! The durable key-value store the host supplies is modelled by [`state::Store`];
//! the transport and settlement layers around it are not part of this crate.

pub mod contract;
pub mod error;
pub mod host;
pub mod instantiate;
pub mod laws;
pub mod msg;
pub mod render;
pub mod state;

pub use error::ContractError;
