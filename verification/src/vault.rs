//! Collateral custody: asset-ledger accounts and the authorized transfer.
//!
//! Funds move between custody accounts only under the signing authority the
//! source (or destination) account was created with. The authority is a
//! capability value derived by the program, never a raw credential held by
//! business logic.

use vstd::prelude::*;
use crate::error::ErrorCode;

verus! {

/// The program-derived signing authority, as a capability: holding this
/// value is what authorizes a transfer out of an account gated by it.
#[derive(Clone, Copy, Debug, PartialEq, Eq, Structural)]
pub struct SigningAuthority {
    /// The deterministically derived address the capability stands for.
    pub address: u64,
}

/// One custody account of the asset ledger.
#[derive(Clone, Copy, Debug, PartialEq, Eq, Structural)]
pub struct TokenAccount {
    /// The account's own address.
    pub address: u64,
    /// Address of the authority allowed to move funds out of this account.
    pub authority: u64,
    /// Balance, in the asset's native units.
    pub balance: u64,
}

/// The first reason a transfer would fail, if any: the presented capability
/// must match the gated side's authority, the source must cover the amount,
/// and the destination balance must not wrap around.
pub open spec fn transfer_error(
    from: TokenAccount,
    to: TokenAccount,
    authority: SigningAuthority,
    amount: u64,
    authority_is_source: bool,
) -> Option<ErrorCode> {
    let gated = if authority_is_source {
        from
    } else {
        to
    };
    if authority.address != gated.authority {
        Some(ErrorCode::AuthorityMismatch)
    } else if from.balance < amount {
        Some(ErrorCode::InsufficientFunds)
    } else if to.balance + amount > u64::MAX {
        Some(ErrorCode::Overflow)
    } else {
        None
    }
}

/// Decides whether a transfer would go through, without moving anything;
/// `transfer` applies exactly this decision.
pub fn check_transfer(
    from: &TokenAccount,
    to: &TokenAccount,
    authority: &SigningAuthority,
    amount: u64,
    authority_is_source: bool,
) -> (r: Result<(), ErrorCode>)
    ensures
        (match transfer_error(*from, *to, *authority, amount, authority_is_source) {
            Some(e) => r == Err::<(), ErrorCode>(e),
            None => r == Ok::<(), ErrorCode>(()),
        }),
{
    let gated_authority = if authority_is_source {
        from.authority
    } else {
        to.authority
    };
    if authority.address != gated_authority {
        return Err(ErrorCode::AuthorityMismatch);
    }
    if from.balance < amount {
        return Err(ErrorCode::InsufficientFunds);
    }
    if amount > u64::MAX - to.balance {
        return Err(ErrorCode::Overflow);
    }
    Ok(())
}

/// Moves `amount` of the asset from one custody account to another under
/// the program-derived signing authority, atomically: on any failure both
/// accounts are left unchanged. `decimals` is the asset's display scale; it
/// is carried to the underlying asset ledger and plays no part in the
/// bookkeeping itself.
#[allow(unused_variables)]
pub fn transfer(
    from: &mut TokenAccount,
    to: &mut TokenAccount,
    authority: &SigningAuthority,
    amount: u64,
    decimals: u8,
    authority_is_source: bool,
) -> (r: Result<(), ErrorCode>)
    ensures
        (match transfer_error(*old(from), *old(to), *authority, amount, authority_is_source) {
            Some(e) => r == Err::<(), ErrorCode>(e) && *final(from) == *old(from) && *final(to)
                == *old(to),
            None => r == Ok::<(), ErrorCode>(()) && *final(from) == (TokenAccount {
                balance: (old(from).balance - amount) as u64,
                ..*old(from)
            }) && *final(to) == (TokenAccount {
                balance: (old(to).balance + amount) as u64,
                ..*old(to)
            }),
        }),
{
    match check_transfer(from, to, authority, amount, authority_is_source) {
        Ok(()) => {},
        Err(e) => {
            return Err(e);
        },
    }
    from.balance = from.balance - amount;
    to.balance = to.balance + amount;
    Ok(())
}

} // verus!
