//! The opening pipeline: one atomic "open a bet" request.
//!
//! The request validates the bet against the pool's policy, custodies the
//! collateral at risk, captures a freshness-checked reference price, writes
//! the position record, and registers a one-shot settlement trigger. It is
//! atomic: every step commits together, or the request is rejected with a
//! specific error and every account is left unchanged.

use vstd::prelude::*;
use crate::CLOCK_WORK_FEE;
use crate::error::ErrorCode;
use crate::oracle::{MAX_PRICE_STALENESS_SECONDS, get_price, price_outcome, pyth_feed_of};
use crate::pool::PoolState;
use crate::position::{BettingPosition, TradeDirection, new_position, open, validation_error};
use crate::scheduler::{ScheduledTrigger, SettlementScheduler, schedule_apply, schedule_error};
use crate::vault::{SigningAuthority, TokenAccount, check_transfer, transfer, transfer_error};

verus! {

/// The accounts one opening request works on.
pub struct Betting {
    /// Address of the pool the bet is placed against.
    pub pool_id: u64,
    /// The pool's read-only policy.
    pub pool_state: PoolState,
    /// The user's custody account for the asset: the collateral's source.
    pub token_account: TokenAccount,
    /// The pool's shared vault for the asset: the collateral's destination.
    pub token_vault: TokenAccount,
    /// Raw bytes of the asset's price feed account, already resident.
    pub token_oracle: Vec<u8>,
    /// The user's position record for this pool: none before the first bet,
    /// overwritten by every later one.
    pub user_betting: Option<BettingPosition>,
    /// The program-derived signing authority over the user's custody account.
    pub authority: SigningAuthority,
    /// Address of the user's position record, handed to the settlement
    /// trigger as its callback.
    pub betting_id: u64,
    /// The payer's lamport balance, from which the automation fee is taken.
    pub payer_lamports: u64,
    /// Display scale of the asset, carried to the asset ledger on transfer.
    pub token_mint_decimals: u8,
}

/// Emitted exactly once per successful open, after all state commits.
#[derive(Clone, Copy, Debug, PartialEq, Eq, Structural)]
pub struct OrderPlaced {
    /// Address of the position record the bet was written to.
    pub betting_id: u64,
    /// Address of the pool the bet was placed against.
    pub pool_id: u64,
    /// The vault's balance before the collateral arrived.
    pub token_vault_before: u64,
    /// The requested direction, as the wire's one-bit discriminant.
    pub trade_direction: u8,
    /// The stated amount, before the leverage division.
    pub amount_in: u64,
    /// The requested leverage.
    pub leverage: u8,
    /// The bet's duration in seconds.
    pub duration: u64,
}

/// The collateral actually at risk: the stated amount divided by the
/// leverage, rounded down.
pub open spec fn bet_risk(leverage: u8, amount_in: u64) -> u64 {
    (amount_in as int / leverage as int) as u64
}

/// The reference price an accepted request records: the raw mantissa of the
/// freshness-checked oracle read.
pub open spec fn bet_price(a: Betting, now: i64) -> u64 {
    match price_outcome(
        pyth_feed_of(a.token_oracle@),
        now as int,
        MAX_PRICE_STALENESS_SECONDS as int,
    ) {
        Ok(p) => p.0,
        Err(_) => 0,
    }
}

/// The first failure an opening request runs into, if any, in the order the
/// pipeline checks: pool policy and amount, then the collateral transfer,
/// then the oracle read, then the checked expiry addition, then the trigger
/// registration.
pub open spec fn betting_error(
    a: Betting,
    entries: Seq<ScheduledTrigger>,
    thread_id: u64,
    leverage: u8,
    amount_in: u64,
    duration: u64,
    now: i64,
) -> Option<ErrorCode> {
    match validation_error(a.pool_state, leverage, amount_in) {
        Some(e) => Some(e),
        None => match transfer_error(
            a.token_account,
            a.token_vault,
            a.authority,
            bet_risk(leverage, amount_in),
            true,
        ) {
            Some(e) => Some(e),
            None => match price_outcome(
                pyth_feed_of(a.token_oracle@),
                now as int,
                MAX_PRICE_STALENESS_SECONDS as int,
            ) {
                Err(e) => Some(e),
                Ok(_) => if now + duration > u64::MAX {
                    Some(ErrorCode::Overflow)
                } else {
                    schedule_error(entries, a.payer_lamports, CLOCK_WORK_FEE, thread_id)
                },
            },
        },
    }
}

/// The event a given accepted request emits.
pub open spec fn placed_event(
    a: Betting,
    trade_direction: u8,
    leverage: u8,
    amount_in: u64,
    duration: u64,
) -> OrderPlaced {
    (OrderPlaced {
        betting_id: a.betting_id,
        pool_id: a.pool_id,
        token_vault_before: a.token_vault.balance,
        trade_direction,
        amount_in,
        leverage,
        duration,
    })
}

/// Opens a leveraged directional bet, atomically.
///
/// On success the collateral at risk has moved from the user's custody
/// account into the pool's vault, the position record is overwritten with
/// the new bet regardless of what it held before, the automation fee is
/// paid, a one-shot settlement trigger keyed by `thread_id` is registered
/// for the bet's expiry, and the emitted event is returned. On any failure
/// the specific error is returned and nothing has changed.
pub fn betting(
    accounts: &mut Betting,
    scheduler: &mut SettlementScheduler,
    thread_id: u64,
    trade_direction: u8,
    leverage: u8,
    amount_in: u64,
    duration: u64,
    now: i64,
) -> (r: Result<OrderPlaced, ErrorCode>)
    requires
        trade_direction <= 1,
        now >= 0,
        old(scheduler).well_formed(),
    ensures
        (match betting_error(
            *old(accounts),
            old(scheduler).entries@,
            thread_id,
            leverage,
            amount_in,
            duration,
            now,
        ) {
            Some(e) => {
                &&& r == Err::<OrderPlaced, ErrorCode>(e)
                &&& *final(accounts) == *old(accounts)
                &&& final(scheduler).entries@ == old(scheduler).entries@
            },
            None => {
                &&& r == Ok::<OrderPlaced, ErrorCode>(
                    placed_event(*old(accounts), trade_direction, leverage, amount_in, duration),
                )
                &&& final(accounts).token_account == (TokenAccount {
                    balance: (old(accounts).token_account.balance - bet_risk(
                        leverage,
                        amount_in,
                    )) as u64,
                    ..old(accounts).token_account
                })
                &&& final(accounts).token_vault == (TokenAccount {
                    balance: (old(accounts).token_vault.balance + bet_risk(
                        leverage,
                        amount_in,
                    )) as u64,
                    ..old(accounts).token_vault
                })
                &&& final(accounts).user_betting == Some(
                    new_position(
                        old(accounts).pool_id,
                        TradeDirection::spec_from_bit(trade_direction),
                        leverage,
                        amount_in,
                        duration,
                        now,
                        bet_price(*old(accounts), now),
                    ),
                )
                &&& final(accounts).payer_lamports == old(accounts).payer_lamports
                    - CLOCK_WORK_FEE
                &&& final(scheduler).entries@ == schedule_apply(
                    old(scheduler).entries@,
                    old(accounts).betting_id,
                    (now + duration) as u64,
                    CLOCK_WORK_FEE,
                    thread_id,
                )
                &&& final(accounts).pool_id == old(accounts).pool_id
                &&& final(accounts).pool_state == old(accounts).pool_state
                &&& final(accounts).token_oracle == old(accounts).token_oracle
                &&& final(accounts).authority == old(accounts).authority
                &&& final(accounts).betting_id == old(accounts).betting_id
                &&& final(accounts).token_mint_decimals == old(accounts).token_mint_decimals
            },
        }),
        final(scheduler).well_formed(),
        r matches Ok(_) ==> final(accounts).user_betting matches Some(p) && p.well_formed(),
{
    let actual_amount = match crate::position::validate_bet(
        &accounts.pool_state,
        leverage,
        amount_in,
    ) {
        Ok(a) => a,
        Err(e) => {
            return Err(e);
        },
    };
    match check_transfer(
        &accounts.token_account,
        &accounts.token_vault,
        &accounts.authority,
        actual_amount,
        true,
    ) {
        Ok(()) => {},
        Err(e) => {
            return Err(e);
        },
    }
    let current_token_price = match get_price(
        accounts.token_oracle.as_slice(),
        now,
        MAX_PRICE_STALENESS_SECONDS,
    ) {
        Ok(p) => p.0,
        Err(e) => {
            return Err(e);
        },
    };
    let user_betting = match open(
        &accounts.pool_state,
        accounts.pool_id,
        TradeDirection::from_bit(trade_direction),
        leverage,
        amount_in,
        duration,
        now,
        current_token_price,
    ) {
        Ok(p) => p,
        Err(e) => {
            return Err(e);
        },
    };
    match scheduler.schedule_one_shot(
        &mut accounts.payer_lamports,
        accounts.betting_id,
        user_betting.expires_at,
        CLOCK_WORK_FEE,
        thread_id,
    ) {
        Ok(()) => {},
        Err(e) => {
            return Err(e);
        },
    }
    let token_vault_before = accounts.token_vault.balance;
    match transfer(
        &mut accounts.token_account,
        &mut accounts.token_vault,
        &accounts.authority,
        actual_amount,
        accounts.token_mint_decimals,
        true,
    ) {
        Ok(()) => {},
        Err(e) => {
            // The feasibility check above ran against these same balances,
            // so this branch is unreachable.
            proof {
                assert(false);
            }
            return Err(e);
        },
    }
    accounts.user_betting = Some(user_betting);
    Ok(
        OrderPlaced {
            betting_id: accounts.betting_id,
            pool_id: accounts.pool_id,
            token_vault_before,
            trade_direction,
            amount_in,
            leverage,
            duration,
        },
    )
}

/// Cancel the betting order. Part of the public surface, accepted and
/// deliberately inert: settlement business logic is outside this core.
pub fn cancel(accounts: &mut Betting, scheduler: &mut SettlementScheduler) -> (r: Result<
    (),
    ErrorCode,
>)
    ensures
        r == Ok::<(), ErrorCode>(()),
        *final(accounts) == *old(accounts),
        final(scheduler).entries@ == old(scheduler).entries@,
{
    Ok(())
}

/// Reveal the order after the deadline. Part of the public surface,
/// accepted and deliberately inert: settlement business logic is outside
/// this core.
pub fn reveal_order(accounts: &mut Betting, scheduler: &mut SettlementScheduler) -> (r: Result<
    (),
    ErrorCode,
>)
    ensures
        r == Ok::<(), ErrorCode>(()),
        *final(accounts) == *old(accounts),
        final(scheduler).entries@ == old(scheduler).entries@,
{
    Ok(())
}

/// Claim the order after it was revealed. Part of the public surface,
/// accepted and deliberately inert: settlement business logic is outside
/// this core.
pub fn claim(accounts: &mut Betting, scheduler: &mut SettlementScheduler) -> (r: Result<
    (),
    ErrorCode,
>)
    ensures
        r == Ok::<(), ErrorCode>(()),
        *final(accounts) == *old(accounts),
        final(scheduler).entries@ == old(scheduler).entries@,
{
    Ok(())
}

/// The same accounts with a different position record.
pub open spec fn with_position(a: Betting, prior: Option<BettingPosition>) -> Betting {
    (Betting { user_betting: prior, ..a })
}

/// Law: whether an opening request is accepted, and with which error it is
/// rejected, never depends on the position record already in place: a
/// reopened bet simply overwrites the prior record.
pub proof fn lemma_reopen_ignores_prior_position(
    a: Betting,
    prior: Option<BettingPosition>,
    entries: Seq<ScheduledTrigger>,
    thread_id: u64,
    leverage: u8,
    amount_in: u64,
    duration: u64,
    now: i64,
)
    ensures
        betting_error(with_position(a, prior), entries, thread_id, leverage, amount_in, duration, now)
            == betting_error(a, entries, thread_id, leverage, amount_in, duration, now),
        bet_price(with_position(a, prior), now) == bet_price(a, now),
{
}

/// Law: while the pool's betting-enabled bit is unset, an opening request
/// fails with `NotApproved`, whatever its other parameters.
pub proof fn lemma_disabled_pool_rejected(
    a: Betting,
    entries: Seq<ScheduledTrigger>,
    thread_id: u64,
    leverage: u8,
    amount_in: u64,
    duration: u64,
    now: i64,
)
    requires
        !a.pool_state.betting_enabled(),
    ensures
        betting_error(a, entries, thread_id, leverage, amount_in, duration, now) == Some(
            ErrorCode::NotApproved,
        ),
{
}

/// Law: a request whose leverage is zero or above the pool's maximum fails
/// with `NotApproved`, whatever its other parameters.
pub proof fn lemma_leverage_out_of_range_rejected(
    a: Betting,
    entries: Seq<ScheduledTrigger>,
    thread_id: u64,
    leverage: u8,
    amount_in: u64,
    duration: u64,
    now: i64,
)
    requires
        leverage == 0 || leverage > a.pool_state.max_leverage,
    ensures
        betting_error(a, entries, thread_id, leverage, amount_in, duration, now) == Some(
            ErrorCode::NotApproved,
        ),
{
}

} // verus!
