//! The settlement operation: reconcile, validate, compute the surplus, and
//! debit the vault.

use crate::state::AccountId;
use crate::state::PoolLedger;
use crate::state::RewardSlot;
use crate::state::RewardVault;
use crate::state::SettleError;
use crate::state::debited;
use crate::state::reconciled;
use crate::state::reconciled_update_time;
use crate::state::settle_outcome;
use vstd::prelude::*;

verus! {

/// Bring a slot's lazy emission bookkeeping current as of `now`.
///
/// `last_update_time` advances to `now`, capped at `end_time` and never moved
/// backward; `emitted_delta` is what the emission-accrual schedule released
/// over the newly covered part of the window, and is folded into
/// `total_emitted`. Reconciliation only advances the bookkeeping toward
/// truth, so it is safe to apply whether or not a settlement then proceeds.
pub fn reconcile_slot(slot: &mut RewardSlot, now: u64, emitted_delta: u64)
    requires
        old(slot).wf(),
        old(slot).total_emitted + emitted_delta <= u64::MAX,
        reconciled_update_time(*old(slot), now) == old(slot).last_update_time ==> emitted_delta
            == 0,
    ensures
        *final(slot) == reconciled(*old(slot), now, emitted_delta),
        final(slot).wf(),
        final(slot).last_update_time >= old(slot).last_update_time,
        final(slot).total_emitted >= old(slot).total_emitted,
{
    let capped_now: u64 = if now <= slot.end_time {
        now
    } else {
        slot.end_time
    };
    if capped_now > slot.last_update_time {
        slot.last_update_time = capped_now;
    }
    slot.total_emitted = slot.total_emitted + emitted_delta;
}

/// Reconcile the addressed slot, validate the settlement, and compute the
/// reclaimable surplus.
///
/// The slot's bookkeeping is brought current first, unconditionally: a
/// schedule that ended in the past but was never reconciled is not treated as
/// terminal until this step catches it up, and the reconciliation stands
/// whether or not the validations then pass. The validations run in order,
/// failing fast: the slot must be initialized, terminal, the claimed funder
/// must be the pool's owner, and the presented vault must be the slot's
/// recorded vault. The surplus is the vault's balance less what the slot has
/// emitted; a vault holding less than was emitted is a broken invariant and
/// aborts the settlement.
pub fn get_remaining_reward_amount(
    pool_state: &mut PoolLedger,
    reward_token_vault: &RewardVault,
    reward_funder: AccountId,
    reward_index: u8,
    now: u64,
    emitted_delta: u64,
) -> (result: Result<u64, SettleError>)
    requires
        old(pool_state).wf(),
        (reward_index as int) < old(pool_state).reward_slots@.len(),
        old(pool_state).reward_slots@[reward_index as int].total_emitted + emitted_delta
            <= u64::MAX,
        reconciled_update_time(old(pool_state).reward_slots@[reward_index as int], now)
            == old(pool_state).reward_slots@[reward_index as int].last_update_time
            ==> emitted_delta == 0,
    ensures
        final(pool_state).owner == old(pool_state).owner,
        final(pool_state).reward_slots@.len() == old(pool_state).reward_slots@.len(),
        forall|i: int|
            0 <= i < old(pool_state).reward_slots@.len() && i != reward_index as int
                ==> final(pool_state).reward_slots@[i] == old(pool_state).reward_slots@[i],
        final(pool_state).reward_slots@[reward_index as int] == reconciled(
            old(pool_state).reward_slots@[reward_index as int],
            now,
            emitted_delta,
        ),
        final(pool_state).wf(),
        result == settle_outcome(
            old(pool_state).owner,
            final(pool_state).reward_slots@[reward_index as int],
            reward_funder,
            *reward_token_vault,
        ),
        result matches Ok(amount)
            ==> amount + final(pool_state).reward_slots@[reward_index as int].total_emitted
                == reward_token_vault.balance,
{
    let idx = reward_index as usize;
    let slot = &mut pool_state.reward_slots[idx];
    reconcile_slot(slot, now, emitted_delta);

    let reward_info = pool_state.reward_slots[idx];
    if !reward_info.initialized {
        return Err(SettleError::UninitializedSlot);
    }
    if reward_info.last_update_time != reward_info.end_time {
        return Err(SettleError::NotTerminal);
    }
    if reward_funder != pool_state.owner {
        return Err(SettleError::AuthorityMismatch);
    }
    if reward_token_vault.id != reward_info.vault_ref {
        return Err(SettleError::VaultMismatch);
    }
    if reward_token_vault.balance < reward_info.total_emitted {
        return Err(SettleError::InvariantBreach);
    }
    Ok(reward_token_vault.balance - reward_info.total_emitted)
}

/// Settle a lapsed reward slot: reconcile it, validate the request, and move
/// the unclaimed surplus out of the vault.
///
/// On success exactly the returned amount leaves the vault, leaving it
/// holding what the slot has emitted; the only other effect on ledger state
/// is the reconciliation, which stands whether or not the settlement
/// proceeds. On any rejection the vault is untouched. The pool's owner and
/// the other slots are never changed.
pub fn collect_remaining_rewards(
    pool_state: &mut PoolLedger,
    reward_token_vault: &mut RewardVault,
    reward_funder: AccountId,
    reward_index: u8,
    now: u64,
    emitted_delta: u64,
) -> (result: Result<u64, SettleError>)
    requires
        old(pool_state).wf(),
        (reward_index as int) < old(pool_state).reward_slots@.len(),
        old(pool_state).reward_slots@[reward_index as int].total_emitted + emitted_delta
            <= u64::MAX,
        reconciled_update_time(old(pool_state).reward_slots@[reward_index as int], now)
            == old(pool_state).reward_slots@[reward_index as int].last_update_time
            ==> emitted_delta == 0,
    ensures
        final(pool_state).owner == old(pool_state).owner,
        final(pool_state).reward_slots@.len() == old(pool_state).reward_slots@.len(),
        forall|i: int|
            0 <= i < old(pool_state).reward_slots@.len() && i != reward_index as int
                ==> final(pool_state).reward_slots@[i] == old(pool_state).reward_slots@[i],
        final(pool_state).reward_slots@[reward_index as int] == reconciled(
            old(pool_state).reward_slots@[reward_index as int],
            now,
            emitted_delta,
        ),
        final(pool_state).wf(),
        result == settle_outcome(
            old(pool_state).owner,
            final(pool_state).reward_slots@[reward_index as int],
            reward_funder,
            *old(reward_token_vault),
        ),
        result matches Ok(amount)
            ==> *final(reward_token_vault) == debited(*old(reward_token_vault), amount),
        result matches Ok(amount)
            ==> final(reward_token_vault).balance == old(reward_token_vault).balance - amount,
        result matches Ok(amount)
            ==> amount + final(pool_state).reward_slots@[reward_index as int].total_emitted
                == old(reward_token_vault).balance,
        result matches Err(_) ==> *final(reward_token_vault) == *old(reward_token_vault),
        !old(pool_state).reward_slots@[reward_index as int].initialized
            ==> result == Err::<u64, SettleError>(SettleError::UninitializedSlot),
        ({
            let slot = final(pool_state).reward_slots@[reward_index as int];
            slot.initialized && slot.last_update_time < slot.end_time
                ==> result == Err::<u64, SettleError>(SettleError::NotTerminal)
        }),
        ({
            let slot = final(pool_state).reward_slots@[reward_index as int];
            slot.initialized && slot.is_terminal() && reward_funder != old(pool_state).owner
                ==> result == Err::<u64, SettleError>(SettleError::AuthorityMismatch)
        }),
        ({
            let slot = final(pool_state).reward_slots@[reward_index as int];
            slot.initialized && slot.is_terminal() && reward_funder == old(pool_state).owner
                && old(reward_token_vault).id == slot.vault_ref
                && old(reward_token_vault).balance < slot.total_emitted
                ==> result == Err::<u64, SettleError>(SettleError::InvariantBreach)
        }),
{
    let amount_remaining = match get_remaining_reward_amount(
        pool_state,
        reward_token_vault,
        reward_funder,
        reward_index,
        now,
        emitted_delta,
    ) {
        Ok(amount) => amount,
        Err(rejection) => {
            return Err(rejection);
        },
    };

    reward_token_vault.balance = reward_token_vault.balance - amount_remaining;
    Ok(amount_remaining)
}

/// Settlement is idempotent on a terminal slot with a fully drained vault:
/// reconciliation moves nothing (terminal is absorbing, and a covered window
/// of zero width accrues zero emission), the settlement succeeds transferring
/// a surplus of zero, and the slot and vault come out exactly as they went
/// in — so an immediate second settlement succeeds the same way, again
/// transferring zero.
pub proof fn lemma_settle_idempotent_when_drained(
    owner: AccountId,
    slot: RewardSlot,
    claimed_funder: AccountId,
    vault: RewardVault,
    now: u64,
)
    requires
        slot.wf(),
        slot.initialized,
        slot.is_terminal(),
        vault.balance == slot.total_emitted,
        claimed_funder == owner,
        vault.id == slot.vault_ref,
    ensures
        reconciled(slot, now, 0) == slot,
        settle_outcome(owner, reconciled(slot, now, 0), claimed_funder, vault) == Ok::<
            u64,
            SettleError,
        >(0u64),
        debited(vault, 0) == vault,
        settle_outcome(
            owner,
            reconciled(reconciled(slot, now, 0), now, 0),
            claimed_funder,
            debited(vault, 0),
        ) == Ok::<u64, SettleError>(0u64),
{
}

} // verus!
