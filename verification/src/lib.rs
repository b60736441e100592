//! Pooled liquid-staking ledger: deposits mint a receipt token at a
//! fixed-point exchange rate, redemptions queue withdrawal records payable
//! after an unbonding delay, and a guarded, idempotent era pipeline
//! reconciles the pool's accounting with the external delegation service
//! once per epoch.
//!
//! Everything here is plain ledger state and arithmetic. Reading accounts,
//! signing, and the actual token mints, burns and stake delegations are the
//! host runtime's business; callers perform them and hand the resulting
//! plain values in.

pub mod admin;
pub mod era;
pub mod errors;
pub mod init;
pub mod laws;
pub mod rate;
pub mod staker;
pub mod states;

pub use errors::Errors;
