//! An on-ledger marketplace for multi-edition digital collectibles.
//!
//! Creators register a series (an edition template with a royalty table, an
//! optional price and an optional supply cap); buyers mint numbered editions
//! from it; a staged transaction-fee schedule is snapshotted per series; sale
//! proceeds are split by a royalty payout engine; and ownership moves under a
//! two-phase, acknowledgment-based transfer protocol that can roll back.
//!
//! The host environment is kept outside: the caller's identity, the current
//! time and the attached deposit enter as arguments, and operations that owe
//! the outside world an action (a payment, a receiver notification) return a
//! receipt describing it instead of performing it.

pub mod account;
pub mod fee;
pub mod laws;
pub mod ledger;
pub mod royalty;
pub mod series;
pub mod types;
