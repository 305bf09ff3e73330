use vstd::prelude::*;

use crate::state::{
    claimable_amount, first_active_phase, lemma_claimable_le_total, PresaleConfig, UserPurchase,
};

verus! {

/// A read-only snapshot of a wallet's standing in the sale.
#[derive(Clone, Copy, Debug, PartialEq, Eq)]
pub struct PurchaseStatus {
    /// Index of the phase active at the queried time, if any.
    pub current_phase: Option<usize>,
    /// What the wallet could claim at the queried time.
    pub claimable: u64,
    /// How much more the wallet may purchase under the per-wallet cap.
    pub remaining_allocation: u64,
    pub total_purchased: u64,
    pub total_spent_sol: u64,
    pub total_spent_usdc: u64,
    pub last_purchase_time: i64,
    pub is_paused: bool,
}

/// The status report as a function of the sale state, the wallet's ledger
/// and the queried time. Every field except the reported pause flag is
/// independent of the pause flag.
pub open spec fn spec_status(config: PresaleConfig, user: UserPurchase, now: i64) -> PurchaseStatus {
    PurchaseStatus {
        current_phase: match first_active_phase(config.phases@, now) {
            Some(i) => Some(i as usize),
            None => None,
        },
        claimable: claimable_amount(user.vesting_schedule@, now) as u64,
        remaining_allocation: if user.total_purchased >= config.max_purchase_per_wallet {
            0
        } else {
            (config.max_purchase_per_wallet - user.total_purchased) as u64
        },
        total_purchased: user.total_purchased,
        total_spent_sol: user.total_spent_sol,
        total_spent_usdc: user.total_spent_usdc,
        last_purchase_time: user.last_purchase_time,
        is_paused: config.is_paused,
    }
}

/// Reports the wallet's standing: the active phase, the claimable amount,
/// the remaining per-wallet allocation, the cumulative spend in both
/// denominations, the last purchase time and the pause flag. Reads only;
/// neither record changes, and the report is available whether or not the
/// sale is paused.
pub fn get_purchase_status(config: &PresaleConfig, user: &UserPurchase, now: i64) -> (st:
    PurchaseStatus)
    requires
        config.wf(),
        user.wf(),
    ensures
        st == spec_status(*config, *user, now),
{
    proof {
        lemma_claimable_le_total(user.vesting_schedule@, now);
    }
    PurchaseStatus {
        current_phase: config.get_current_phase(now),
        claimable: user.get_claimable_amount(now),
        remaining_allocation: user.get_remaining_allocation(config.max_purchase_per_wallet),
        total_purchased: user.total_purchased,
        total_spent_sol: user.total_spent_sol,
        total_spent_usdc: user.total_spent_usdc,
        last_purchase_time: user.last_purchase_time,
        is_paused: config.is_paused,
    }
}

} // verus!
