//! The betting-position ledger: validation and the record of an open bet.
//!
//! One position exists per (pool, user) pair; it is created lazily on the
//! first bet and overwritten by every later one. Validation runs in a fixed
//! order and short-circuits on the first failure: policy, then leverage
//! range, then the collateral actually at risk.

use vstd::prelude::*;
use crate::error::ErrorCode;
use crate::pool::PoolState;

verus! {

/// Which way the bet says the price will move.
#[derive(Clone, Copy, Debug, PartialEq, Eq, Structural)]
pub enum TradeDirection {
    /// The price will fall.
    Down,
    /// The price will rise.
    Up,
}

impl TradeDirection {
    /// The direction encoded by a one-bit discriminant: 1 is up, 0 is down.
    pub open spec fn spec_from_bit(bit: u8) -> TradeDirection {
        if bit == 1 {
            TradeDirection::Up
        } else {
            TradeDirection::Down
        }
    }

    /// The direction encoded by a one-bit discriminant: 1 is up, 0 is down.
    pub fn from_bit(bit: u8) -> (r: TradeDirection)
        requires
            bit <= 1,
        ensures
            r == TradeDirection::spec_from_bit(bit),
    {
        if bit == 1 {
            TradeDirection::Up
        } else {
            TradeDirection::Down
        }
    }
}

/// One user's open leveraged bet within a pool.
#[derive(Clone, Copy, Debug, PartialEq, Eq, Structural)]
pub struct BettingPosition {
    /// The pool the bet was opened against.
    pub pool_id: u64,
    /// Which way the bet says the price will move.
    pub direction: TradeDirection,
    /// Collateral custodied for the bet: `notional / leverage`, rounded down.
    pub amount_at_risk: u64,
    /// The stated amount before the leverage division, kept for payout math.
    pub notional: u64,
    /// The leverage the bet was opened with.
    pub leverage: u8,
    /// The oracle's raw integer mantissa at open time. Downstream
    /// comparisons use this raw value, never a normalized one.
    pub entry_price: u64,
    /// Unix timestamp at or after which the settlement trigger fires.
    pub expires_at: u64,
}

impl BettingPosition {
    /// Internal invariant of every recorded position: the collateral at
    /// risk is the notional divided by a positive leverage, rounded down,
    /// and a position is never recorded with zero collateral at risk.
    pub open spec fn well_formed(self) -> bool {
        &&& 1 <= self.leverage
        &&& self.amount_at_risk == self.notional as int / self.leverage as int
        &&& self.amount_at_risk > 0
    }
}

/// The first validation failure of a bet request, if any: betting must be
/// enabled, the leverage must lie in `[1, max_leverage]`, and the amount
/// must not round down to zero collateral at risk.
pub open spec fn validation_error(pool: PoolState, leverage: u8, amount_in: u64) -> Option<
    ErrorCode,
> {
    if !pool.betting_enabled() {
        Some(ErrorCode::NotApproved)
    } else if leverage == 0 || leverage > pool.max_leverage {
        Some(ErrorCode::NotApproved)
    } else if amount_in as int / leverage as int == 0 {
        Some(ErrorCode::InvalidAmount)
    } else {
        None
    }
}

/// The first failure of a full open request against the ledger, if any:
/// the validation above, then the checked expiry addition.
pub open spec fn open_error(
    pool: PoolState,
    leverage: u8,
    amount_in: u64,
    duration: u64,
    now: i64,
) -> Option<ErrorCode> {
    match validation_error(pool, leverage, amount_in) {
        Some(e) => Some(e),
        None => if now + duration > u64::MAX {
            Some(ErrorCode::Overflow)
        } else {
            None
        },
    }
}

/// The record an accepted open request writes.
pub open spec fn new_position(
    pool_id: u64,
    direction: TradeDirection,
    leverage: u8,
    amount_in: u64,
    duration: u64,
    now: i64,
    observed_price: u64,
) -> BettingPosition {
    (BettingPosition {
        pool_id,
        direction,
        amount_at_risk: (amount_in as int / leverage as int) as u64,
        notional: amount_in,
        leverage,
        entry_price: observed_price,
        expires_at: (now + duration) as u64,
    })
}

/// Checks a bet request against the pool's policy and returns the collateral
/// actually at risk: `amount_in / leverage`, rounded down.
pub fn validate_bet(pool: &PoolState, leverage: u8, amount_in: u64) -> (r: Result<u64, ErrorCode>)
    ensures
        (match validation_error(*pool, leverage, amount_in) {
            Some(e) => r == Err::<u64, ErrorCode>(e),
            None => r == Ok::<u64, ErrorCode>((amount_in as int / leverage as int) as u64),
        }),
        r matches Ok(risk) ==> risk > 0 && risk == amount_in as int / leverage as int,
{
    if !pool.get_status_by_bit(crate::pool::PoolStatusBitIndex::Bet) || leverage == 0 || leverage
        > pool.max_leverage {
        return Err(ErrorCode::NotApproved);
    }
    let actual_amount = amount_in / (leverage as u64);
    if actual_amount == 0 {
        return Err(ErrorCode::InvalidAmount);
    }
    Ok(actual_amount)
}

/// Builds the position an accepted request records: validates the request,
/// computes the collateral at risk and the expiry, and returns the record.
/// It only computes; custody and scheduling are the pipeline's work.
pub fn open(
    pool: &PoolState,
    pool_id: u64,
    direction: TradeDirection,
    leverage: u8,
    amount_in: u64,
    duration: u64,
    now: i64,
    observed_price: u64,
) -> (r: Result<BettingPosition, ErrorCode>)
    requires
        now >= 0,
    ensures
        (match open_error(*pool, leverage, amount_in, duration, now) {
            Some(e) => r == Err::<BettingPosition, ErrorCode>(e),
            None => r == Ok::<BettingPosition, ErrorCode>(
                new_position(pool_id, direction, leverage, amount_in, duration, now, observed_price),
            ),
        }),
        r matches Ok(p) ==> p.well_formed(),
{
    let amount_at_risk = match validate_bet(pool, leverage, amount_in) {
        Ok(a) => a,
        Err(e) => {
            return Err(e);
        },
    };
    let expires_at = match (now as u64).checked_add(duration) {
        Some(t) => t,
        None => {
            return Err(ErrorCode::Overflow);
        },
    };
    Ok(
        BettingPosition {
            pool_id,
            direction,
            amount_at_risk,
            notional: amount_in,
            leverage,
            entry_price: observed_price,
            expires_at,
        },
    )
}

/// Law: for every leverage within the pool's policy and every amount, the
/// collateral at risk is the amount divided by the leverage, rounded down,
/// and validation fails with `InvalidAmount` exactly when that quotient is
/// zero.
pub proof fn lemma_amount_at_risk(pool: PoolState, leverage: u8, amount_in: u64)
    requires
        pool.betting_enabled(),
        1 <= leverage <= pool.max_leverage,
    ensures
        validation_error(pool, leverage, amount_in) == (if amount_in as int / leverage as int
            == 0 {
            Some(ErrorCode::InvalidAmount)
        } else {
            None::<ErrorCode>
        }),
{
}

} // verus!
