//! Provisioning of fungible-token mint records on a ledger.
//!
//! A mint may carry at most one of two economic extensions: a transfer-fee
//! ("taxed") configuration or a non-transferable ("soulbound") marker. The
//! protocol is an ordered, atomic unit: validate the request, allocate the
//! backing account, attach the extension, then finalize the mint. Extensions
//! must be attached before finalization; once a mint is finalized its
//! extension composition is immutable.

pub mod errors;
pub mod instructions;
pub mod launchpad;
pub mod layout;
pub mod ledger;
pub mod mint;
pub mod primitives;
pub mod validator;
