//! Price oracle adapter: a trusted read of a Pyth price feed account with a
//! verified freshness rule.
//!
//! The feed arrives as the raw bytes of an already-resident account. Parsing
//! those bytes is the work of the Pyth SDK and is trusted; everything after
//! the parse — the staleness rule and the sign check — is verified here and
//! works on plain values.

use vstd::prelude::*;
use crate::error::ErrorCode;

verus! {

/// Staleness cutoff shared by every read of the feed: a price older than
/// this many seconds is rejected.
pub const MAX_PRICE_STALENESS_SECONDS: u64 = 10;

/// What the opening pipeline reads from a price feed: the current raw
/// integer mantissa, its decimal exponent, and when it was published.
/// The displayed value is `mantissa * 10^exponent`; downstream comparisons
/// use the raw mantissa only.
#[derive(Clone, Copy, Debug, PartialEq, Eq, Structural)]
pub struct PriceData {
    /// Signed raw price mantissa.
    pub mantissa: i64,
    /// Decimal exponent of the mantissa.
    pub exponent: i32,
    /// Unix timestamp at which the mantissa was published.
    pub publish_time: i64,
}

/// What the Pyth SDK makes of a price account's raw bytes: `None` where the
/// bytes are not a well-formed price account, otherwise the feed's current
/// price information. A function of the bytes alone.
pub uninterp spec fn pyth_feed_of(data: Seq<u8>) -> Option<PriceData>;

/// Relies on `pyth_sdk_solana::state::load_price_account`: parses a Pyth
/// price account from its raw bytes, checking the magic number, version and
/// account type. The current price information is the aggregate price and
/// its timestamp while the feed's status is Trading, and otherwise the
/// feed's previous Trading-status price and timestamp, exactly as
/// `GenericPriceAccount::to_price_feed` selects them. The parse reads the
/// account in place and requires an eight-byte-aligned buffer, so the bytes
/// are first copied into one; the result is a function of the byte values
/// alone.
#[verifier::external_body]
fn parse_price_feed(data: &[u8]) -> (r: Option<PriceData>)
    ensures
        r == pyth_feed_of(data@),
{
    let mut buf: Vec<u64> = vec![0u64; (data.len() + 7) / 8];
    let aligned: &mut [u8] = bytemuck::cast_slice_mut(&mut buf);
    aligned[..data.len()].copy_from_slice(data);
    let account = match pyth_sdk_solana::state::load_price_account::<32, ()>(&aligned[..data.len()]) {
        Ok(a) => a,
        Err(_) => return None,
    };
    let (mantissa, publish_time) = match account.agg.status {
        pyth_sdk_solana::state::PriceStatus::Trading => (account.agg.price, account.timestamp),
        _ => (account.prev_price, account.prev_timestamp),
    };
    Some(PriceData { mantissa, exponent: account.expo, publish_time })
}

/// A feed reading is fresh when its publish time is not older than the
/// staleness cutoff before `now`.
pub open spec fn feed_fresh(feed: PriceData, now: int, max_staleness: int) -> bool {
    feed.publish_time >= now - max_staleness
}

/// What a freshness-checked read of a feed returns: unavailable where the
/// bytes did not parse, stale where the reading is older than the cutoff,
/// unavailable again where the mantissa is negative and so has no unsigned
/// representation, and otherwise the raw mantissa with its exponent.
pub open spec fn price_outcome(feed: Option<PriceData>, now: int, max_staleness: int) -> Result<
    (u64, i32),
    ErrorCode,
> {
    match feed {
        None => Err(ErrorCode::OracleUnavailable),
        Some(f) => if !feed_fresh(f, now, max_staleness) {
            Err(ErrorCode::OracleStale)
        } else if f.mantissa < 0 {
            Err(ErrorCode::OracleUnavailable)
        } else {
            Ok((f.mantissa as u64, f.exponent))
        },
    }
}

/// The freshness-checked read of an already-parsed feed. Public so that a
/// caller holding the plain feed values can apply exactly the rule the
/// pipeline applies.
pub fn price_of_feed(feed: &PriceData, now: i64, max_staleness: u64) -> (r: Result<
    (u64, i32),
    ErrorCode,
>)
    requires
        now >= 0,
        max_staleness <= i64::MAX,
    ensures
        r == price_outcome(Some(*feed), now as int, max_staleness as int),
{
    let cutoff: i64 = now - (max_staleness as i64);
    if feed.publish_time < cutoff {
        return Err(ErrorCode::OracleStale);
    }
    if feed.mantissa < 0 {
        return Err(ErrorCode::OracleUnavailable);
    }
    Ok((feed.mantissa as u64, feed.exponent))
}

/// Reads a price feed account with a freshness guarantee: fails with
/// `OracleUnavailable` where the bytes cannot be parsed as a price account
/// or the price has no unsigned representation, with `OracleStale` where
/// the feed's embedded timestamp is older than `now - max_staleness`, and
/// otherwise returns the raw integer mantissa and its decimal exponent.
pub fn get_price(data: &[u8], now: i64, max_staleness: u64) -> (r: Result<(u64, i32), ErrorCode>)
    requires
        now >= 0,
        max_staleness <= i64::MAX,
    ensures
        r == price_outcome(pyth_feed_of(data@), now as int, max_staleness as int),
{
    match parse_price_feed(data) {
        None => Err(ErrorCode::OracleUnavailable),
        Some(feed) => price_of_feed(&feed, now, max_staleness),
    }
}

} // verus!
