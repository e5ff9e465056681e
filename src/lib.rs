//! An escrow ledger: a bounded set of pending asset transfers, gated by an
//! owner and a manager, whose lifecycle and release rules are verified.
//!
//! `types` holds the identities, accounts and outcomes; `escrow` the ledger,
//! its mathematical model and its operations; `laws` what holds across calls.

pub mod escrow;
pub mod laws;
pub mod types;

pub use escrow::{Escrow, EscrowView, Release, Transfer};
pub use types::AccountId;
