use vstd::pervasive::VecAdditionalExecFns;
use vstd::prelude::*;

use crate::error::PresaleError;
use crate::state::{
    claimable_amount, lemma_claimable_zero_when_none, lemma_total_vesting_amount_unfold,
    UserPurchase, VestingEntry,
};

verus! {

/// How a claim at `now` transforms one vesting entry: a claimable entry
/// is marked claimed, any other is untouched. Amounts and release times
/// never change.
pub open spec fn spec_claimed_entry(e: VestingEntry, now: i64) -> VestingEntry {
    if e.claimable_at(now) {
        VestingEntry { amount: e.amount, release_time: e.release_time, claimed: true }
    } else {
        e
    }
}

/// Claims every vesting entry of the wallet that is released at `now`,
/// not yet claimed, and carrying a positive amount. Returns the claimed
/// total — the quantity the caller must transfer to the wallet — and
/// fails with nothing changed when that total is zero. The marking and
/// the returned total come from the same snapshot: an entry is marked if
/// and only if its amount is counted, so immediately after a successful
/// claim nothing is claimable at `now`.
#[verifier::loop_isolation(false)]
pub fn claim_vested(user: &mut UserPurchase, now: i64) -> (r: Result<u64, PresaleError>)
    requires
        old(user).wf(),
    ensures
        final(user).wf(),
        match r {
            Ok(claimed) => {
                &&& claimed == claimable_amount(old(user).vesting_schedule@, now)
                &&& claimed > 0
                &&& final(user).vesting_schedule@.len() == old(user).vesting_schedule@.len()
                &&& forall|i: int|
                    0 <= i < old(user).vesting_schedule@.len()
                        ==> #[trigger] final(user).vesting_schedule@[i] == spec_claimed_entry(
                        old(user).vesting_schedule@[i],
                        now,
                    )
                &&& claimable_amount(final(user).vesting_schedule@, now) == 0
                &&& final(user).wallet == old(user).wallet
                &&& final(user).total_purchased == old(user).total_purchased
                &&& final(user).total_spent_sol == old(user).total_spent_sol
                &&& final(user).total_spent_usdc == old(user).total_spent_usdc
                &&& final(user).last_purchase_time == old(user).last_purchase_time
            },
            Err(e) => {
                &&& e == PresaleError::NoTokensToClaim
                &&& claimable_amount(old(user).vesting_schedule@, now) == 0
                &&& *final(user) == *old(user)
            },
        },
{
    let claimable = user.get_claimable_amount(now);
    if claimable == 0 {
        return Err(PresaleError::NoTokensToClaim);
    }
    let ghost old_schedule = user.vesting_schedule@;
    let mut i: usize = 0;
    while i < user.vesting_schedule.len()
        invariant
            i <= old_schedule.len(),
            user.vesting_schedule@.len() == old_schedule.len(),
            user.wallet == old(user).wallet,
            user.total_purchased == old(user).total_purchased,
            user.total_spent_sol == old(user).total_spent_sol,
            user.total_spent_usdc == old(user).total_spent_usdc,
            user.last_purchase_time == old(user).last_purchase_time,
            forall|j: int|
                0 <= j < i ==> #[trigger] user.vesting_schedule@[j] == spec_claimed_entry(
                    old_schedule[j],
                    now,
                ),
            forall|j: int|
                i <= j < old_schedule.len() ==> #[trigger] user.vesting_schedule@[j]
                    == old_schedule[j],
        decreases old_schedule.len() - i,
    {
        let entry = user.vesting_schedule[i];
        if !entry.claimed && now >= entry.release_time && entry.amount > 0 {
            user.vesting_schedule.set(
                i,
                VestingEntry {
                    amount: entry.amount,
                    release_time: entry.release_time,
                    claimed: true,
                },
            );
        }
        i = i + 1;
    }
    proof {
        lemma_total_vesting_amount_unfold(old_schedule);
        lemma_total_vesting_amount_unfold(user.vesting_schedule@);
        assert(user.vesting_schedule@[0] == spec_claimed_entry(old_schedule[0], now));
        assert(user.vesting_schedule@[1] == spec_claimed_entry(old_schedule[1], now));
        assert(user.vesting_schedule@[2] == spec_claimed_entry(old_schedule[2], now));
        assert forall|j: int| 0 <= j < user.vesting_schedule@.len() implies !(
        #[trigger] user.vesting_schedule@[j]).claimable_at(now) by {
            assert(user.vesting_schedule@[j] == spec_claimed_entry(old_schedule[j], now));
        };
        lemma_claimable_zero_when_none(user.vesting_schedule@, now);
    }
    Ok(claimable)
}

} // verus!
