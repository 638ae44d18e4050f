//! The data model: pool ledger, reward slots, reward vaults, and the
//! specification of what a settlement attempt must produce.

use vstd::prelude::*;

verus! {

/// Identity of a ledger participant or account: a pool owner, a funder, or a
/// token vault. Settlement only ever compares identities for equality.
#[derive(Clone, Copy, PartialEq, Eq, Structural, Debug)]
pub struct AccountId {
    pub value: u128,
}

/// One configured emission schedule within a pool.
///
/// `last_update_time` is the time up to which accrued emission has been
/// reconciled into `total_emitted`; it advances monotonically and is capped at
/// `end_time`. Equality of the two signals the terminal state: the schedule
/// has fully lapsed and been reconciled, and no further emission will occur.
#[derive(Clone, Copy, PartialEq, Eq, Structural, Debug)]
pub struct RewardSlot {
    pub initialized: bool,
    pub start_time: u64,
    pub end_time: u64,
    pub last_update_time: u64,
    pub total_emitted: u64,
    pub vault_ref: AccountId,
}

/// A token-balance holder backing a reward slot. Funds only leave it through
/// an authorized settlement, never by direct external debit.
#[derive(Clone, Copy, PartialEq, Eq, Structural, Debug)]
pub struct RewardVault {
    pub id: AccountId,
    pub balance: u64,
}

/// The pool's ledger-resident state: its administrative authority and its
/// fixed sequence of reward slots.
#[derive(Clone, Debug)]
pub struct PoolLedger {
    pub owner: AccountId,
    pub reward_slots: Vec<RewardSlot>,
}

/// Why a settlement attempt was rejected.
///
/// The first four variants are precondition violations, detected by pure
/// comparison and reported distinctly so the caller can correct the request.
/// `InvariantBreach` means the vault holds less than the slot has emitted:
/// the subtraction computing the surplus would underflow, which indicates
/// external corruption of the vault/ledger relationship, so settlement aborts
/// rather than wrap or clamp.
#[derive(Clone, Copy, PartialEq, Eq, Structural, Debug)]
pub enum SettleError {
    UninitializedSlot,
    NotTerminal,
    AuthorityMismatch,
    VaultMismatch,
    InvariantBreach,
}

impl RewardSlot {
    /// The slot's standing invariant: reconciled progress never runs past the
    /// emission window's end.
    pub open spec fn wf(self) -> bool {
        &&& self.start_time <= self.end_time
        &&& self.last_update_time <= self.end_time
    }

    /// Terminal state: the schedule has fully lapsed and been reconciled.
    pub open spec fn is_terminal(self) -> bool {
        self.last_update_time == self.end_time
    }
}

impl PoolLedger {
    pub open spec fn wf(self) -> bool {
        forall|i: int|
            0 <= i < self.reward_slots@.len() ==> (#[trigger] self.reward_slots@[i]).wf()
    }
}

pub open spec fn min_time(a: u64, b: u64) -> u64 {
    if a <= b {
        a
    } else {
        b
    }
}

/// Where reconciliation moves a slot's `last_update_time` when the clock reads
/// `now`: forward to `now`, but never past `end_time` and never backward.
pub open spec fn reconciled_update_time(slot: RewardSlot, now: u64) -> u64 {
    if min_time(now, slot.end_time) > slot.last_update_time {
        min_time(now, slot.end_time)
    } else {
        slot.last_update_time
    }
}

/// The slot after reconciliation at time `now`, with `emitted_delta` the
/// amount the emission-accrual schedule released over the newly covered part
/// of the window. Accrual itself is a collaborator, so the amount is an input
/// here; it must fit, and must be zero when no window time was covered.
pub open spec fn reconciled(slot: RewardSlot, now: u64, emitted_delta: u64) -> RewardSlot {
    RewardSlot {
        initialized: slot.initialized,
        start_time: slot.start_time,
        end_time: slot.end_time,
        last_update_time: reconciled_update_time(slot, now),
        total_emitted: (slot.total_emitted + emitted_delta) as u64,
        vault_ref: slot.vault_ref,
    }
}

/// What a settlement attempt returns once the slot has been reconciled:
/// the validations in order, failing fast, then the surplus.
pub open spec fn settle_outcome(
    owner: AccountId,
    slot: RewardSlot,
    claimed_funder: AccountId,
    vault: RewardVault,
) -> Result<u64, SettleError> {
    if !slot.initialized {
        Err(SettleError::UninitializedSlot)
    } else if !slot.is_terminal() {
        Err(SettleError::NotTerminal)
    } else if claimed_funder != owner {
        Err(SettleError::AuthorityMismatch)
    } else if vault.id != slot.vault_ref {
        Err(SettleError::VaultMismatch)
    } else if vault.balance < slot.total_emitted {
        Err(SettleError::InvariantBreach)
    } else {
        Ok((vault.balance - slot.total_emitted) as u64)
    }
}

/// The vault after `amount` tokens have left it.
pub open spec fn debited(vault: RewardVault, amount: u64) -> RewardVault {
    RewardVault { id: vault.id, balance: (vault.balance - amount) as u64 }
}

} // verus!
