use fluster_trading::error::ErrorCode;
use fluster_trading::oracle::{get_price, price_of_feed, PriceData, MAX_PRICE_STALENESS_SECONDS};
use pyth_sdk_solana::state::{AccountType, PriceStatus, SolanaPriceAccount, MAGIC, VERSION_2};

const NOW: i64 = 1_700_000_000;

fn price_account(price: i64, expo: i32, publish_time: i64) -> SolanaPriceAccount {
    let mut acc = SolanaPriceAccount::default();
    acc.magic = MAGIC;
    acc.ver = VERSION_2;
    acc.atype = AccountType::Price as u32;
    acc.expo = expo;
    acc.agg.status = PriceStatus::Trading;
    acc.agg.price = price;
    acc.timestamp = publish_time;
    acc
}

#[test]
fn get_price_returns_raw_mantissa_and_exponent() {
    let acc = price_account(123_456_789, -8, NOW - 3);
    let bytes = bytemuck::bytes_of(&acc);
    assert_eq!(get_price(bytes, NOW, MAX_PRICE_STALENESS_SECONDS), Ok((123_456_789, -8)));
}

#[test]
fn get_price_uses_previous_values_while_not_trading() {
    let mut acc = price_account(123, -5, NOW - 10_000);
    acc.agg.status = PriceStatus::Halted;
    acc.prev_price = 777;
    acc.prev_timestamp = NOW - 1;
    let bytes = bytemuck::bytes_of(&acc);
    assert_eq!(get_price(bytes, NOW, MAX_PRICE_STALENESS_SECONDS), Ok((777, -5)));
}

#[test]
fn get_price_rejects_stale_feed() {
    let acc = price_account(123_456_789, -8, NOW - 15);
    let bytes = bytemuck::bytes_of(&acc);
    assert_eq!(
        get_price(bytes, NOW, MAX_PRICE_STALENESS_SECONDS),
        Err(ErrorCode::OracleStale)
    );
}

#[test]
fn get_price_rejects_bad_magic() {
    let mut acc = price_account(1, 0, NOW);
    acc.magic = MAGIC + 1;
    let bytes = bytemuck::bytes_of(&acc);
    assert_eq!(
        get_price(bytes, NOW, MAX_PRICE_STALENESS_SECONDS),
        Err(ErrorCode::OracleUnavailable)
    );
}

#[test]
fn get_price_rejects_truncated_account() {
    let acc = price_account(1, 0, NOW);
    let bytes = bytemuck::bytes_of(&acc);
    let truncated = &bytes[..bytes.len() - 1];
    assert_eq!(
        get_price(truncated, NOW, MAX_PRICE_STALENESS_SECONDS),
        Err(ErrorCode::OracleUnavailable)
    );
}

#[test]
fn get_price_accepts_a_misaligned_buffer() {
    let acc = price_account(55, -6, NOW - 1);
    let mut padded = vec![0u8];
    padded.extend_from_slice(bytemuck::bytes_of(&acc));
    assert_eq!(
        get_price(&padded[1..], NOW, MAX_PRICE_STALENESS_SECONDS),
        Ok((55, -6))
    );
}

#[test]
fn get_price_rejects_empty_bytes() {
    assert_eq!(
        get_price(&[], NOW, MAX_PRICE_STALENESS_SECONDS),
        Err(ErrorCode::OracleUnavailable)
    );
}

#[test]
fn freshness_boundary_is_inclusive() {
    let at_cutoff = PriceData { mantissa: 5, exponent: -2, publish_time: NOW - 10 };
    assert_eq!(price_of_feed(&at_cutoff, NOW, 10), Ok((5, -2)));

    let beyond_cutoff = PriceData { mantissa: 5, exponent: -2, publish_time: NOW - 11 };
    assert_eq!(price_of_feed(&beyond_cutoff, NOW, 10), Err(ErrorCode::OracleStale));
}

#[test]
fn negative_mantissa_is_unavailable() {
    let feed = PriceData { mantissa: -1, exponent: -2, publish_time: NOW };
    assert_eq!(price_of_feed(&feed, NOW, 10), Err(ErrorCode::OracleUnavailable));
}

#[test]
fn staleness_is_checked_before_the_sign() {
    let feed = PriceData { mantissa: -1, exponent: -2, publish_time: NOW - 100 };
    assert_eq!(price_of_feed(&feed, NOW, 10), Err(ErrorCode::OracleStale));
}
