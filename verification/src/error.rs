//! Error taxonomy of the opening pipeline.
//!
//! Every failure aborts the whole request: the caller observes the error kind
//! below and no state change.

use vstd::prelude::*;

verus! {

/// Why an opening request was rejected.
#[derive(Clone, Copy, Debug, PartialEq, Eq, Structural)]
pub enum ErrorCode {
    /// Policy violation: betting is disabled for the pool, or the requested
    /// leverage is zero or above the pool's maximum.
    NotApproved,
    /// The stated amount rounds down to zero collateral at risk under the
    /// requested leverage.
    InvalidAmount,
    /// Checked arithmetic wrapped around on an amount or a timestamp.
    Overflow,
    /// The referenced price feed account cannot be used: it does not parse,
    /// or its current mantissa is not representable as an unsigned price.
    OracleUnavailable,
    /// The price feed's embedded timestamp is older than the staleness cutoff.
    OracleStale,
    /// The source balance cannot cover the collateral, or the payer cannot
    /// cover the automation fee.
    InsufficientFunds,
    /// The signing authority presented is not the one the custody account
    /// was created with.
    AuthorityMismatch,
    /// The caller-supplied schedule identifier is already in use.
    DuplicateSchedule,
}

impl ErrorCode {
    /// The short human-readable name of each error kind.
    pub open spec fn spec_name(self) -> Seq<char> {
        match self {
            ErrorCode::NotApproved => "not approved"@,
            ErrorCode::InvalidAmount => "invalid amount"@,
            ErrorCode::Overflow => "overflow"@,
            ErrorCode::OracleUnavailable => "oracle unavailable"@,
            ErrorCode::OracleStale => "oracle stale"@,
            ErrorCode::InsufficientFunds => "insufficient funds"@,
            ErrorCode::AuthorityMismatch => "authority mismatch"@,
            ErrorCode::DuplicateSchedule => "duplicate schedule"@,
        }
    }

    /// A short human-readable name for the error kind.
    pub fn name(&self) -> (r: &'static str)
        ensures
            r@ == self.spec_name(),
    {
        match self {
            ErrorCode::NotApproved => "not approved",
            ErrorCode::InvalidAmount => "invalid amount",
            ErrorCode::Overflow => "overflow",
            ErrorCode::OracleUnavailable => "oracle unavailable",
            ErrorCode::OracleStale => "oracle stale",
            ErrorCode::InsufficientFunds => "insufficient funds",
            ErrorCode::AuthorityMismatch => "authority mismatch",
            ErrorCode::DuplicateSchedule => "duplicate schedule",
        }
    }
}

} // verus!
