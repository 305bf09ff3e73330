use vstd::prelude::*;

use crate::admin::config_eq_except_pause;
use crate::purchase::{
    spec_entry_add, spec_merge_entry, spec_purchase_applied, spec_purchase_error,
    spec_release_time, spec_vesting_merge_overflows,
};
use crate::state::{first_active_from, first_active_phase, PaymentType, PresaleConfig,
    PresalePhase, UserPurchase};
use crate::status::spec_status;

verus! {

/// Helper for the first-match law, generalized over the scan's start
/// index.
proof fn lemma_first_active_from_props(phases: Seq<PresalePhase>, t: i64, i: int)
    requires
        0 <= i <= phases.len(),
    ensures
        match first_active_from(phases, t, i) {
            Some(k) => {
                &&& i <= k < phases.len()
                &&& phases[k].active_at(t)
                &&& forall|j: int| i <= j < k ==> !(#[trigger] phases[j]).active_at(t)
            },
            None => forall|j: int| i <= j < phases.len() ==> !(#[trigger] phases[j]).active_at(t),
        },
    decreases phases.len() - i,
{
    if i < phases.len() && !phases[i].active_at(t) {
        lemma_first_active_from_props(phases, t, i + 1);
    }
}

/// Phase resolution is first-match-wins: for every phase table and time,
/// `first_active_phase` returns the lowest-indexed phase whose inclusive
/// window contains the time, or none if no phase's window does.
pub proof fn lemma_current_phase_is_first_match(phases: Seq<PresalePhase>, t: i64)
    ensures
        match first_active_phase(phases, t) {
            Some(k) => {
                &&& 0 <= k < phases.len()
                &&& phases[k].active_at(t)
                &&& forall|j: int| 0 <= j < k ==> !(#[trigger] phases[j]).active_at(t)
            },
            None => forall|j: int| 0 <= j < phases.len() ==> !(#[trigger] phases[j]).active_at(t),
        },
{
    lemma_first_active_from_props(phases, t, 0);
}

/// A wallet's vesting buckets accumulate in place: when the engine
/// accepts a purchase for a wallet whose schedule is fully populated,
/// every entry keeps its index, release time and claim mark, and no
/// entry's amount decreases — until a claim, vesting amounts only grow.
/// The wallet's cumulative total grows by exactly the purchased quantity.
pub proof fn lemma_purchase_accumulates(
    c0: PresaleConfig,
    u0: UserPurchase,
    c1: PresaleConfig,
    u1: UserPurchase,
    token_amount: u64,
    payment_type: PaymentType,
    now: i64,
    payment: u64,
)
    requires
        c0.wf(),
        u0.wf(),
        spec_purchase_error(c0, u0, token_amount, payment_type, now) is None,
        spec_purchase_applied(c0, u0, c1, u1, token_amount, payment_type, now, payment),
        forall|i: int|
            0 <= i < u0.vesting_schedule@.len() ==> (
            #[trigger] u0.vesting_schedule@[i]).populated(),
    ensures
        u1.total_purchased == u0.total_purchased + token_amount,
        u1.vesting_schedule@.len() == u0.vesting_schedule@.len(),
        forall|i: int|
            0 <= i < u0.vesting_schedule@.len() ==> {
                &&& (#[trigger] u1.vesting_schedule@[i]).release_time
                    == u0.vesting_schedule@[i].release_time
                &&& u1.vesting_schedule@[i].claimed == u0.vesting_schedule@[i].claimed
                &&& u1.vesting_schedule@[i].amount >= u0.vesting_schedule@[i].amount
            },
{
    let lp = c0.vesting_launch_percentage;
    let mp = c0.vesting_monthly_percentage;
    crate::purchase::lemma_vesting_split_le(token_amount, lp, mp);
    assert(!spec_vesting_merge_overflows(
        u0.vesting_schedule@,
        token_amount,
        lp,
        mp,
        c0.launch_timestamp,
    ));
    assert forall|i: int| 0 <= i < u0.vesting_schedule@.len() implies {
        &&& (#[trigger] u1.vesting_schedule@[i]).release_time
            == u0.vesting_schedule@[i].release_time
        &&& u1.vesting_schedule@[i].claimed == u0.vesting_schedule@[i].claimed
        &&& u1.vesting_schedule@[i].amount >= u0.vesting_schedule@[i].amount
    } by {
        let e0 = u0.vesting_schedule@[i];
        let add = spec_entry_add(token_amount, lp, mp, i);
        assert(u1.vesting_schedule@[i] == spec_merge_entry(
            e0,
            add as u64,
            spec_release_time(c0.launch_timestamp, i),
        ));
        assert(e0.populated());
        assert(0 <= add <= u64::MAX);
        assert(e0.amount + add <= u64::MAX);
    };
}

/// Reading the sale status is unaffected by pausing: two configurations
/// that differ at most in the pause flag yield status reports that agree
/// on every field except the reported flag itself.
pub proof fn lemma_status_ignores_pause(
    c0: PresaleConfig,
    c1: PresaleConfig,
    u: UserPurchase,
    now: i64,
)
    requires
        config_eq_except_pause(c0, c1),
    ensures
        ({
            let s0 = spec_status(c0, u, now);
            let s1 = spec_status(c1, u, now);
            &&& s0.current_phase == s1.current_phase
            &&& s0.claimable == s1.claimable
            &&& s0.remaining_allocation == s1.remaining_allocation
            &&& s0.total_purchased == s1.total_purchased
            &&& s0.total_spent_sol == s1.total_spent_sol
            &&& s0.total_spent_usdc == s1.total_spent_usdc
            &&& s0.last_purchase_time == s1.last_purchase_time
            &&& s0.is_paused == c0.is_paused
            &&& s1.is_paused == c1.is_paused
        }),
{
}

} // verus!
