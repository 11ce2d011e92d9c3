//! Settlement scheduling: one-shot triggers registered with the automation
//! service.
//!
//! A trigger is keyed by a caller-supplied identifier and fires at or after
//! its target timestamp; registering it costs a flat fee paid by the caller.
//! The service is best-effort from this core's point of view: the core's
//! contract is limited to submitting a well-formed one-shot registration
//! under an identifier that is not already in use.

use vstd::prelude::*;
use crate::error::ErrorCode;

verus! {

/// One registered one-shot trigger: at or after `trigger_at`, invoke the
/// settlement entry point for the position behind `callback`.
#[derive(Clone, Copy, Debug, PartialEq, Eq, Structural)]
pub struct ScheduledTrigger {
    /// The caller-supplied identifier the registration is keyed by.
    pub id: u64,
    /// Address of the position record the settlement entry point is to be
    /// invoked for.
    pub callback: u64,
    /// Unix timestamp at or after which the trigger fires.
    pub trigger_at: u64,
    /// The automation fee that was paid for the registration.
    pub fee_paid: u64,
}

/// Whether some registration among `entries` is keyed by `id`.
pub open spec fn ids_contain(entries: Seq<ScheduledTrigger>, id: u64) -> bool {
    exists|i: int| 0 <= i < entries.len() && entries[i].id == id
}

/// No two registrations among `entries` share an identifier.
pub open spec fn ids_unique(entries: Seq<ScheduledTrigger>) -> bool {
    forall|i: int, j: int| 0 <= i < j < entries.len() ==> entries[i].id != entries[j].id
}

/// Why a registration would be rejected, if at all: the identifier is
/// already in use, or the payer cannot cover the fee.
pub open spec fn schedule_error(
    entries: Seq<ScheduledTrigger>,
    payer_balance: u64,
    fee: u64,
    id: u64,
) -> Option<ErrorCode> {
    if ids_contain(entries, id) {
        Some(ErrorCode::DuplicateSchedule)
    } else if payer_balance < fee {
        Some(ErrorCode::InsufficientFunds)
    } else {
        None
    }
}

/// The registry after an accepted registration: the new trigger appended.
pub open spec fn schedule_apply(
    entries: Seq<ScheduledTrigger>,
    callback: u64,
    trigger_at: u64,
    fee: u64,
    id: u64,
) -> Seq<ScheduledTrigger> {
    entries.push(ScheduledTrigger { id, callback, trigger_at, fee_paid: fee })
}

/// The registry of one-shot triggers submitted to the automation service.
pub struct SettlementScheduler {
    /// Every registration accepted so far, in submission order.
    pub entries: Vec<ScheduledTrigger>,
}

impl SettlementScheduler {
    /// Whether some registration is already keyed by `id`.
    pub open spec fn contains_id(self, id: u64) -> bool {
        ids_contain(self.entries@, id)
    }

    /// Internal invariant: no two registrations share an identifier.
    pub open spec fn well_formed(self) -> bool {
        ids_unique(self.entries@)
    }

    /// An empty registry.
    pub fn new() -> (r: SettlementScheduler)
        ensures
            r.entries@ =~= Seq::<ScheduledTrigger>::empty(),
            r.well_formed(),
    {
        SettlementScheduler { entries: Vec::new() }
    }

    /// Registers a one-shot trigger: fails with `DuplicateSchedule` where
    /// `id` is already in use and with `InsufficientFunds` where the payer
    /// cannot cover the fee, and in either case changes nothing; otherwise
    /// it debits the fee and appends the registration.
    pub fn schedule_one_shot(
        &mut self,
        payer_balance: &mut u64,
        callback: u64,
        trigger_at: u64,
        fee: u64,
        id: u64,
    ) -> (r: Result<(), ErrorCode>)
        requires
            old(self).well_formed(),
        ensures
            (match schedule_error(old(self).entries@, *old(payer_balance), fee, id) {
                Some(e) => r == Err::<(), ErrorCode>(e) && final(self).entries@ == old(
                    self,
                ).entries@ && *final(payer_balance) == *old(payer_balance),
                None => r == Ok::<(), ErrorCode>(()) && final(self).entries@ == schedule_apply(
                    old(self).entries@,
                    callback,
                    trigger_at,
                    fee,
                    id,
                ) && *final(payer_balance) == *old(payer_balance) - fee,
            }),
            final(self).well_formed(),
    {
        let mut i: usize = 0;
        while i < self.entries.len()
            invariant
                ids_unique(self.entries@),
                self.entries@ == old(self).entries@,
                *payer_balance == *old(payer_balance),
                i <= self.entries@.len(),
                forall|k: int| 0 <= k < i ==> self.entries@[k].id != id,
            decreases self.entries@.len() - i,
        {
            if self.entries[i].id == id {
                return Err(ErrorCode::DuplicateSchedule);
            }
            i = i + 1;
        }
        if *payer_balance < fee {
            return Err(ErrorCode::InsufficientFunds);
        }
        *payer_balance = *payer_balance - fee;
        self.entries.push(ScheduledTrigger { id, callback, trigger_at, fee_paid: fee });
        Ok(())
    }
}

/// Law: once a registration under some identifier is accepted, any later
/// registration under the same identifier is rejected with
/// `DuplicateSchedule`, whatever its other parameters.
pub proof fn lemma_schedule_id_used_once(
    entries: Seq<ScheduledTrigger>,
    payer_balance: u64,
    callback: u64,
    trigger_at: u64,
    fee: u64,
    id: u64,
    later_payer_balance: u64,
    later_fee: u64,
)
    requires
        schedule_error(entries, payer_balance, fee, id) is None,
    ensures
        schedule_error(
            schedule_apply(entries, callback, trigger_at, fee, id),
            later_payer_balance,
            later_fee,
            id,
        ) == Some(ErrorCode::DuplicateSchedule),
{
    let applied = schedule_apply(entries, callback, trigger_at, fee, id);
    assert(applied[entries.len() as int].id == id);
}

/// Law: a rejected registration changes nothing, so a later registration
/// under a fresh identifier, by a payer who covers the fee, is accepted.
pub proof fn lemma_fresh_id_after_failure(
    entries: Seq<ScheduledTrigger>,
    payer_balance: u64,
    fee: u64,
    failed_id: u64,
    fresh_id: u64,
    later_payer_balance: u64,
    later_fee: u64,
)
    requires
        schedule_error(entries, payer_balance, fee, failed_id) is Some,
        !ids_contain(entries, fresh_id),
        later_payer_balance >= later_fee,
    ensures
        schedule_error(entries, later_payer_balance, later_fee, fresh_id) is None,
{
}

} // verus!
