//! Read-only pool policy consumed by the opening pipeline.
//!
//! A pool identifies one tradable asset and carries the policy the ledger
//! checks before opening a bet: a status bitmask (with a betting-enabled
//! bit) and the maximum leverage. The other fields locate the collaborating
//! accounts (mint, vault, oracle) and the program-derived authority.

use vstd::prelude::*;

verus! {

/// Positions of the flags inside `PoolState::status_bits`.
#[derive(Clone, Copy, Debug, PartialEq, Eq, Structural)]
pub enum PoolStatusBitIndex {
    /// Deposits into the pool's vault are enabled.
    Deposit,
    /// Withdrawals from the pool's vault are enabled.
    Withdraw,
    /// Opening bets against the pool is enabled.
    Bet,
}

impl PoolStatusBitIndex {
    /// The bit position of the flag.
    pub open spec fn spec_index(self) -> u8 {
        match self {
            PoolStatusBitIndex::Deposit => 0,
            PoolStatusBitIndex::Withdraw => 1,
            PoolStatusBitIndex::Bet => 2,
        }
    }

    /// The bit position of the flag.
    pub fn index(self) -> (r: u8)
        ensures
            r == self.spec_index(),
            r < 8,
    {
        match self {
            PoolStatusBitIndex::Deposit => 0,
            PoolStatusBitIndex::Withdraw => 1,
            PoolStatusBitIndex::Bet => 2,
        }
    }
}

/// Read-only configuration of one pool.
#[derive(Clone, Copy, Debug, PartialEq, Eq, Structural)]
pub struct PoolState {
    /// Status bitmask; see `PoolStatusBitIndex` for the meaning of each bit.
    pub status_bits: u8,
    /// Largest leverage a bet against this pool may request.
    pub max_leverage: u8,
    /// Address of the asset's mint.
    pub token_mint: u64,
    /// Address of the pool's custody vault for the asset.
    pub token_vault: u64,
    /// Address of the price feed account for the asset.
    pub token_oracle: u64,
    /// Bump seed of the program-derived signing authority.
    pub auth_bump: u8,
}

impl PoolState {
    /// Whether the flag at position `bit` is set in the status bitmask.
    pub open spec fn spec_status_by_bit(self, bit: PoolStatusBitIndex) -> bool {
        self.status_bits & (1u8 << bit.spec_index()) != 0
    }

    /// Whether the flag at position `bit` is set in the status bitmask.
    pub fn get_status_by_bit(&self, bit: PoolStatusBitIndex) -> (r: bool)
        ensures
            r == self.spec_status_by_bit(bit),
    {
        let idx = bit.index();
        self.status_bits & (1u8 << idx) != 0
    }

    /// Betting is permitted only while the betting-enabled bit is set.
    pub open spec fn betting_enabled(self) -> bool {
        self.spec_status_by_bit(PoolStatusBitIndex::Bet)
    }
}

} // verus!
