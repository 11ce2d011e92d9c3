//! Leveraged-bet opening and deferred-settlement scheduling.
//!
//! A user opens a directional leveraged bet against a pool: the request is
//! validated against the pool's policy, the collateral actually at risk is
//! computed and custodied, a freshness-checked reference price is captured,
//! a position record is written, and a one-shot settlement trigger is
//! registered for the bet's expiry. The whole request is atomic: it either
//! commits every step or leaves every account unchanged.

pub mod betting;
pub mod error;
pub mod oracle;
pub mod pool;
pub mod position;
pub mod scheduler;
pub mod vault;

use vstd::prelude::*;

verus! {

/// Flat fee, in lamports, paid to the automation service for each
/// registered settlement trigger (one hundredth of one SOL).
pub const CLOCK_WORK_FEE: u64 = 1_000_000_000 / 100;

} // verus!
