//! Reward settlement for a liquidity-pool ledger.
//!
//! When a time-bounded reward-emission schedule attached to a pool has fully
//! lapsed, the pool's owner may reclaim whatever tokens remain escrowed in the
//! reward vault but were never emitted to participants. This crate holds the
//! settlement core: the reconciliation step that brings a slot's lazy emission
//! bookkeeping current, the invariant checks that gate the withdrawal, and the
//! arithmetic that computes the reclaimable surplus. The environment edges
//! (reading the clock, performing the token transfer) live with the caller,
//! who hands in the current time and receives the amount to move.

pub mod settle;
pub mod state;

pub use settle::collect_remaining_rewards;
pub use settle::get_remaining_reward_amount;
pub use settle::lemma_settle_idempotent_when_drained;
pub use settle::reconcile_slot;
pub use state::AccountId;
pub use state::PoolLedger;
pub use state::RewardSlot;
pub use state::RewardVault;
pub use state::SettleError;
