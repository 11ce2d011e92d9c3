use fluster_trading::error::ErrorCode;
use fluster_trading::pool::{PoolState, PoolStatusBitIndex};
use fluster_trading::position::{open, validate_bet, TradeDirection};
use fluster_trading::scheduler::SettlementScheduler;
use fluster_trading::vault::{transfer, SigningAuthority, TokenAccount};

const NOW: i64 = 1_700_000_000;

fn pool() -> PoolState {
    PoolState {
        status_bits: 0b100,
        max_leverage: 10,
        token_mint: 21,
        token_vault: 22,
        token_oracle: 23,
        auth_bump: 254,
    }
}

#[test]
fn status_bits_are_read_by_position() {
    let p = PoolState { status_bits: 0b101, ..pool() };
    assert!(p.get_status_by_bit(PoolStatusBitIndex::Deposit));
    assert!(!p.get_status_by_bit(PoolStatusBitIndex::Withdraw));
    assert!(p.get_status_by_bit(PoolStatusBitIndex::Bet));
}

#[test]
fn amount_at_risk_is_the_floored_quotient() {
    assert_eq!(validate_bet(&pool(), 3, 1000), Ok(333));
    assert_eq!(validate_bet(&pool(), 1, 7), Ok(7));
    assert_eq!(validate_bet(&pool(), 10, 4), Err(ErrorCode::InvalidAmount));
}

#[test]
fn validation_order_policy_first() {
    let disabled = PoolState { status_bits: 0, ..pool() };
    assert_eq!(validate_bet(&disabled, 0, 0), Err(ErrorCode::NotApproved));
    assert_eq!(validate_bet(&pool(), 0, 0), Err(ErrorCode::NotApproved));
    assert_eq!(validate_bet(&pool(), 11, 0), Err(ErrorCode::NotApproved));
    assert_eq!(validate_bet(&pool(), 10, 0), Err(ErrorCode::InvalidAmount));
}

#[test]
fn open_builds_the_record() {
    let r = open(&pool(), 11, TradeDirection::Up, 5, 1000, 3600, NOW, 42);
    let p = r.expect("request is valid");
    assert_eq!(p.pool_id, 11);
    assert_eq!(p.direction, TradeDirection::Up);
    assert_eq!(p.amount_at_risk, 200);
    assert_eq!(p.notional, 1000);
    assert_eq!(p.leverage, 5);
    assert_eq!(p.entry_price, 42);
    assert_eq!(p.expires_at, (NOW as u64) + 3600);
}

#[test]
fn open_rejects_expiry_wraparound() {
    let r = open(&pool(), 11, TradeDirection::Down, 5, 1000, u64::MAX, NOW, 42);
    assert_eq!(r, Err(ErrorCode::Overflow));
}

#[test]
fn direction_is_a_one_bit_discriminant() {
    assert_eq!(TradeDirection::from_bit(0), TradeDirection::Down);
    assert_eq!(TradeDirection::from_bit(1), TradeDirection::Up);
}

#[test]
fn transfer_moves_the_exact_amount() {
    let mut from = TokenAccount { address: 1, authority: 9, balance: 1000 };
    let mut to = TokenAccount { address: 2, authority: 8, balance: 70 };
    let auth = SigningAuthority { address: 9 };
    assert_eq!(transfer(&mut from, &mut to, &auth, 300, 6, true), Ok(()));
    assert_eq!(from.balance, 700);
    assert_eq!(to.balance, 370);
}

#[test]
fn transfer_rejects_shortfall_and_changes_nothing() {
    let mut from = TokenAccount { address: 1, authority: 9, balance: 100 };
    let mut to = TokenAccount { address: 2, authority: 8, balance: 70 };
    let auth = SigningAuthority { address: 9 };
    assert_eq!(
        transfer(&mut from, &mut to, &auth, 300, 6, true),
        Err(ErrorCode::InsufficientFunds)
    );
    assert_eq!(from.balance, 100);
    assert_eq!(to.balance, 70);
}

#[test]
fn transfer_rejects_wrong_authority() {
    let mut from = TokenAccount { address: 1, authority: 9, balance: 1000 };
    let mut to = TokenAccount { address: 2, authority: 8, balance: 70 };
    let auth = SigningAuthority { address: 8 };
    assert_eq!(
        transfer(&mut from, &mut to, &auth, 300, 6, true),
        Err(ErrorCode::AuthorityMismatch)
    );
    assert_eq!(from.balance, 1000);
    assert_eq!(to.balance, 70);
}

#[test]
fn transfer_checks_the_destination_when_authority_is_not_source() {
    let mut from = TokenAccount { address: 1, authority: 9, balance: 1000 };
    let mut to = TokenAccount { address: 2, authority: 8, balance: 70 };
    let auth = SigningAuthority { address: 8 };
    assert_eq!(transfer(&mut from, &mut to, &auth, 300, 6, false), Ok(()));
    assert_eq!(from.balance, 700);
    assert_eq!(to.balance, 370);
}

#[test]
fn transfer_rejects_credit_wraparound() {
    let mut from = TokenAccount { address: 1, authority: 9, balance: 1000 };
    let mut to = TokenAccount { address: 2, authority: 8, balance: u64::MAX - 10 };
    let auth = SigningAuthority { address: 9 };
    assert_eq!(transfer(&mut from, &mut to, &auth, 300, 6, true), Err(ErrorCode::Overflow));
    assert_eq!(from.balance, 1000);
    assert_eq!(to.balance, u64::MAX - 10);
}

#[test]
fn schedule_twice_with_one_id_fails_then_fresh_id_succeeds() {
    let mut s = SettlementScheduler::new();
    let mut payer: u64 = 100;
    assert_eq!(s.schedule_one_shot(&mut payer, 41, 500, 30, 7), Ok(()));
    assert_eq!(payer, 70);
    assert_eq!(s.entries.len(), 1);

    assert_eq!(
        s.schedule_one_shot(&mut payer, 41, 900, 30, 7),
        Err(ErrorCode::DuplicateSchedule)
    );
    assert_eq!(payer, 70);
    assert_eq!(s.entries.len(), 1);

    assert_eq!(s.schedule_one_shot(&mut payer, 41, 900, 30, 8), Ok(()));
    assert_eq!(payer, 40);
    assert_eq!(s.entries.len(), 2);
    assert_eq!(s.entries[1].id, 8);
    assert_eq!(s.entries[1].trigger_at, 900);
}

#[test]
fn error_names_are_exact() {
    assert_eq!(ErrorCode::NotApproved.name(), "not approved");
    assert_eq!(ErrorCode::InvalidAmount.name(), "invalid amount");
    assert_eq!(ErrorCode::Overflow.name(), "overflow");
    assert_eq!(ErrorCode::OracleUnavailable.name(), "oracle unavailable");
    assert_eq!(ErrorCode::OracleStale.name(), "oracle stale");
    assert_eq!(ErrorCode::InsufficientFunds.name(), "insufficient funds");
    assert_eq!(ErrorCode::AuthorityMismatch.name(), "authority mismatch");
    assert_eq!(ErrorCode::DuplicateSchedule.name(), "duplicate schedule");
}

#[test]
fn schedule_fee_shortfall_changes_nothing() {
    let mut s = SettlementScheduler::new();
    let mut payer: u64 = 10;
    assert_eq!(
        s.schedule_one_shot(&mut payer, 41, 500, 30, 7),
        Err(ErrorCode::InsufficientFunds)
    );
    assert_eq!(payer, 10);
    assert_eq!(s.entries.len(), 0);

    payer = 30;
    assert_eq!(s.schedule_one_shot(&mut payer, 41, 500, 30, 7), Ok(()));
    assert_eq!(payer, 0);
}
