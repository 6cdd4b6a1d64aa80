//! A two-asset automated market maker.
//!
//! The crate holds the accounting of both components of the pool: the
//! reserve front, which takes deposits and swap requests and keeps the
//! quantities it believes to be in custody, and the custody engine, which
//! holds the balances and the constant product `k`. Neither component talks
//! to a ledger itself. Every operation that needs a remote call returns the
//! call as an [`action::Action`]; the host performs it and hands the outcome
//! back to the matching callback, which alone commits the change.

pub mod account;
pub mod action;
pub mod decimal;
pub mod error;
pub mod front;
pub mod metadata;
pub mod naming;
pub mod pool;
pub mod pricing;
pub mod swap;
pub mod wallet;
pub mod wide;
