use vstd::arithmetic::div_mod::{
    lemma_div_is_ordered, lemma_div_multiples_vanish, lemma_fundamental_div_mod, lemma_mod_bound,
};
use vstd::arithmetic::mul::{lemma_mul_is_distributive_add, lemma_mul_nonnegative};
use vstd::pervasive::VecAdditionalExecFns;
use vstd::prelude::*;

use crate::constants::{MONTH_SECONDS, PERCENT_DENOMINATOR, TOKEN_SCALE, VESTING_MONTHS};
use crate::error::PresaleError;
use crate::laws::lemma_current_phase_is_first_match;
use crate::state::{
    first_active_phase, lemma_remaining_le_total, lemma_total_remaining_nonneg,
    lemma_total_remaining_update, lemma_total_vesting_amount_unfold, vesting_percentages_wf,
    PaymentType, PresaleConfig, PresalePhase, UserPurchase, VestingEntry,
};

verus! {

/// Payment owed, in the chosen denomination's smallest unit, for
/// `token_amount` base units at `price` per `TOKEN_SCALE` base units: a
/// truncating fixed-point multiplication.
pub open spec fn spec_payment(price: u64, token_amount: u64) -> int {
    (price as int) * (token_amount as int) / (TOKEN_SCALE as int)
}

/// The truncating percentage split of a purchase.
pub open spec fn spec_split(token_amount: u64, pct: u8) -> int {
    (token_amount as int) * (pct as int) / (PERCENT_DENOMINATOR as int)
}

/// What a purchase adds to vesting entry `i`: the launch split for entry
/// 0, the monthly split for every later entry.
pub open spec fn spec_entry_add(token_amount: u64, launch_pct: u8, monthly_pct: u8, i: int) -> int {
    if i == 0 {
        spec_split(token_amount, launch_pct)
    } else {
        spec_split(token_amount, monthly_pct)
    }
}

/// Release time of vesting entry `i`: the launch timestamp for entry 0,
/// then one fixed-length month later per further entry.
pub open spec fn spec_release_time(launch_timestamp: i64, i: int) -> int {
    launch_timestamp + i * (MONTH_SECONDS as int)
}

/// How a purchase merges `add` tokens into vesting entry `e` whose
/// release time is `rt`: a never-populated entry is initialized afresh, a
/// populated one accumulates and keeps its release time and claim mark.
pub open spec fn spec_merge_entry(e: VestingEntry, add: u64, rt: int) -> VestingEntry {
    if !e.populated() {
        VestingEntry { amount: add, release_time: rt as i64, claimed: false }
    } else {
        VestingEntry {
            amount: (e.amount + add) as u64,
            release_time: e.release_time,
            claimed: e.claimed,
        }
    }
}

/// Some step of the vesting-schedule merge overflows: a monthly release
/// time leaves the timestamp range, or an accumulated entry amount leaves
/// u64.
pub open spec fn spec_vesting_merge_overflows(
    schedule: Seq<VestingEntry>,
    token_amount: u64,
    launch_pct: u8,
    monthly_pct: u8,
    launch_timestamp: i64,
) -> bool {
    ||| schedule[0].populated() && schedule[0].amount + spec_split(token_amount, launch_pct)
        > u64::MAX
    ||| exists|i: int|
        1 <= i < schedule.len() && !(i64::MIN <= #[trigger] spec_release_time(launch_timestamp, i)
            <= i64::MAX)
    ||| exists|i: int|
        1 <= i < schedule.len() && (#[trigger] schedule[i]).populated() && schedule[i].amount
            + spec_split(token_amount, monthly_pct) > u64::MAX
}

/// The validation pipeline of a purchase: why a purchase of
/// `token_amount` at `now`, paid in `payment_type`, is rejected — or none
/// if it is accepted. The checks run in this order and the first failure
/// decides the error.
pub open spec fn spec_purchase_error(
    config: PresaleConfig,
    user: UserPurchase,
    token_amount: u64,
    payment_type: PaymentType,
    now: i64,
) -> Option<PresaleError> {
    if config.is_paused {
        Some(PresaleError::PresalePaused)
    } else {
        match first_active_phase(config.phases@, now) {
            None => Some(PresaleError::NoActivePhase),
            Some(pi) => {
                let phase = config.phases@[pi];
                let price = phase.price(payment_type);
                if token_amount > config.max_purchase_per_transaction {
                    Some(PresaleError::ExceedsMaxPerTransaction)
                } else if user.total_purchased + token_amount > u64::MAX {
                    Some(PresaleError::MathOverflow)
                } else if user.total_purchased + token_amount > config.max_purchase_per_wallet {
                    Some(PresaleError::ExceedsMaxPerWallet)
                } else if user.last_purchase_time > 0 && now - user.last_purchase_time
                    < i64::MIN {
                    Some(PresaleError::MathOverflow)
                } else if user.last_purchase_time > 0 && now - user.last_purchase_time
                    < config.min_time_between_purchases {
                    Some(PresaleError::TooSoonSinceLastPurchase)
                } else if token_amount > phase.remaining() {
                    Some(PresaleError::InsufficientTokensInPhase)
                } else if (price as int) * (token_amount as int) > u64::MAX {
                    Some(PresaleError::MathOverflow)
                } else if spec_payment(price, token_amount) == 0 {
                    Some(PresaleError::InsufficientPayment)
                } else if user.spent(payment_type) + spec_payment(price, token_amount)
                    > u64::MAX {
                    Some(PresaleError::MathOverflow)
                } else if (token_amount as int) * (config.vesting_launch_percentage as int)
                    > u64::MAX {
                    Some(PresaleError::MathOverflow)
                } else if (token_amount as int) * (config.vesting_monthly_percentage as int)
                    > u64::MAX {
                    Some(PresaleError::MathOverflow)
                } else if spec_vesting_merge_overflows(
                    user.vesting_schedule@,
                    token_amount,
                    config.vesting_launch_percentage,
                    config.vesting_monthly_percentage,
                    config.launch_timestamp,
                ) {
                    Some(PresaleError::MathOverflow)
                } else {
                    None
                }
            },
        }
    }
}

/// The configuration fields a purchase never touches.
pub open spec fn purchase_preserves_config(c0: PresaleConfig, c1: PresaleConfig) -> bool {
    &&& c1.authority == c0.authority
    &&& c1.token_mint == c0.token_mint
    &&& c1.treasury == c0.treasury
    &&& c1.usdc_mint == c0.usdc_mint
    &&& c1.sol_vault == c0.sol_vault
    &&& c1.usdc_vault == c0.usdc_vault
    &&& c1.is_paused == c0.is_paused
    &&& c1.total_tokens_for_sale == c0.total_tokens_for_sale
    &&& c1.launch_timestamp == c0.launch_timestamp
    &&& c1.max_purchase_per_transaction == c0.max_purchase_per_transaction
    &&& c1.max_purchase_per_wallet == c0.max_purchase_per_wallet
    &&& c1.min_time_between_purchases == c0.min_time_between_purchases
    &&& c1.vesting_launch_percentage == c0.vesting_launch_percentage
    &&& c1.vesting_monthly_percentage == c0.vesting_monthly_percentage
}

/// Relates the sale state before (`c0`, `u0`) and after (`c1`, `u1`) a
/// successful purchase of `token_amount` at `now`, with `payment` the
/// amount debited in the chosen denomination: the active phase's and the
/// global sold counters grow by exactly `token_amount`, the wallet's
/// cumulative totals grow accordingly, and every vesting entry merges its
/// split of the purchase.
pub open spec fn spec_purchase_applied(
    c0: PresaleConfig,
    u0: UserPurchase,
    c1: PresaleConfig,
    u1: UserPurchase,
    token_amount: u64,
    payment_type: PaymentType,
    now: i64,
    payment: u64,
) -> bool {
    match first_active_phase(c0.phases@, now) {
        None => false,
        Some(pi) => {
            let phase0 = c0.phases@[pi];
            let price = phase0.price(payment_type);
            &&& payment == spec_payment(price, token_amount)
            &&& c1.phases@ == c0.phases@.update(
                pi,
                PresalePhase {
                    price_sol: phase0.price_sol,
                    price_usdc: phase0.price_usdc,
                    start_time: phase0.start_time,
                    end_time: phase0.end_time,
                    tokens_allocated: phase0.tokens_allocated,
                    tokens_sold: (phase0.tokens_sold + token_amount) as u64,
                },
            )
            &&& c1.tokens_sold == c0.tokens_sold + token_amount
            &&& purchase_preserves_config(c0, c1)
            &&& u1.wallet == u0.wallet
            &&& u1.total_purchased == u0.total_purchased + token_amount
            &&& u1.last_purchase_time == now
            &&& u1.total_spent_sol == if payment_type == PaymentType::Sol {
                (u0.total_spent_sol + payment) as int
            } else {
                u0.total_spent_sol as int
            }
            &&& u1.total_spent_usdc == if payment_type == PaymentType::Usdc {
                (u0.total_spent_usdc + payment) as int
            } else {
                u0.total_spent_usdc as int
            }
            &&& u1.vesting_schedule@.len() == u0.vesting_schedule@.len()
            &&& forall|i: int|
                0 <= i < u0.vesting_schedule@.len() ==> #[trigger] u1.vesting_schedule@[i]
                    == spec_merge_entry(
                    u0.vesting_schedule@[i],
                    spec_entry_add(
                        token_amount,
                        c0.vesting_launch_percentage,
                        c0.vesting_monthly_percentage,
                        i,
                    ) as u64,
                    spec_release_time(c0.launch_timestamp, i),
                )
        },
    }
}

/// Summing two truncating quotients loses no more than summing first:
/// `a/d + b/d <= (a+b)/d` for nonnegative numerators.
proof fn lemma_div_sum_le(a: int, b: int, d: int)
    requires
        0 <= a,
        0 <= b,
        0 < d,
    ensures
        a / d + b / d <= (a + b) / d,
{
    lemma_fundamental_div_mod(a, d);
    lemma_fundamental_div_mod(b, d);
    lemma_mod_bound(a, d);
    lemma_mod_bound(b, d);
    lemma_mul_is_distributive_add(d, a / d, b / d);
    assert(a + b >= d * (a / d + b / d));
    lemma_div_is_ordered(d * (a / d + b / d), a + b, d);
    lemma_div_multiples_vanish(a / d + b / d, d);
}

/// The truncating vesting splits never exceed the whole purchase: with
/// the percentages summing to one hundred, the launch split plus one
/// monthly split per vesting month is at most the purchased amount.
pub proof fn lemma_vesting_split_le(token_amount: u64, launch_pct: u8, monthly_pct: u8)
    requires
        vesting_percentages_wf(launch_pct, monthly_pct),
    ensures
        spec_split(token_amount, launch_pct) + (VESTING_MONTHS as int) * spec_split(
            token_amount,
            monthly_pct,
        ) <= token_amount,
        0 <= spec_split(token_amount, launch_pct),
        0 <= spec_split(token_amount, monthly_pct),
{
    let t = token_amount as int;
    let lp = launch_pct as int;
    let mp = monthly_pct as int;
    lemma_mul_nonnegative(t, lp);
    lemma_mul_nonnegative(t, mp);
    lemma_div_is_ordered(0, t * lp, 100);
    lemma_div_is_ordered(0, t * mp, 100);
    lemma_div_sum_le(t * lp, t * mp, 100);
    lemma_div_sum_le(t * lp + t * mp, t * mp, 100);
    assert(t * lp + t * mp + t * mp == t * 100) by (nonlinear_arith)
        requires
            lp + 2 * mp == 100,
    ;
    lemma_div_multiples_vanish(t, 100);
    assert(100 * t == t * 100) by (nonlinear_arith);
}

/// Validates and applies one purchase against the sale configuration and
/// the buyer's wallet ledger, returning the payment due in the chosen
/// denomination; the caller executes the matching fund transfer. The
/// validation order and the error of each failure are exactly
/// `spec_purchase_error`, a rejected purchase leaves both records
/// untouched, and the state change of an accepted one is exactly
/// `spec_purchase_applied`.
#[verifier::loop_isolation(false)]
pub fn purchase(
    config: &mut PresaleConfig,
    user: &mut UserPurchase,
    token_amount: u64,
    payment_type: PaymentType,
    now: i64,
) -> (r: Result<u64, PresaleError>)
    requires
        old(config).wf(),
        old(user).wf(),
    ensures
        final(config).wf(),
        final(user).wf(),
        match r {
            Ok(payment) => {
                &&& spec_purchase_error(
                    *old(config),
                    *old(user),
                    token_amount,
                    payment_type,
                    now,
                ) is None
                &&& spec_purchase_applied(
                    *old(config),
                    *old(user),
                    *final(config),
                    *final(user),
                    token_amount,
                    payment_type,
                    now,
                    payment,
                )
            },
            Err(e) => {
                &&& Some(e) == spec_purchase_error(
                    *old(config),
                    *old(user),
                    token_amount,
                    payment_type,
                    now,
                )
                &&& *final(config) == *old(config)
                &&& *final(user) == *old(user)
            },
        },
{
    if config.is_paused {
        return Err(PresaleError::PresalePaused);
    }
    let phase_index = match config.get_current_phase(now) {
        Some(i) => i,
        None => {
            return Err(PresaleError::NoActivePhase);
        },
    };
    proof {
        lemma_current_phase_is_first_match(config.phases@, now);
    }
    let price = match config.get_phase_price(phase_index, payment_type) {
        Some(p) => p,
        None => {
            proof {
                assert(false);
            }
            return Err(PresaleError::InvalidPhaseConfig);
        },
    };
    if token_amount > config.max_purchase_per_transaction {
        return Err(PresaleError::ExceedsMaxPerTransaction);
    }
    let new_total = match user.total_purchased.checked_add(token_amount) {
        Some(v) => v,
        None => {
            return Err(PresaleError::MathOverflow);
        },
    };
    if new_total > config.max_purchase_per_wallet {
        return Err(PresaleError::ExceedsMaxPerWallet);
    }
    if user.last_purchase_time > 0 {
        let time_since_last = match now.checked_sub(user.last_purchase_time) {
            Some(v) => v,
            None => {
                return Err(PresaleError::MathOverflow);
            },
        };
        if time_since_last < config.min_time_between_purchases {
            return Err(PresaleError::TooSoonSinceLastPurchase);
        }
    }
    let phase = config.phases[phase_index];
    proof {
        assert(config.phases@[phase_index as int].wf());
    }
    let remaining_in_phase = match phase.tokens_allocated.checked_sub(phase.tokens_sold) {
        Some(v) => v,
        None => {
            proof {
                assert(false);
            }
            return Err(PresaleError::MathOverflow);
        },
    };
    if token_amount > remaining_in_phase {
        return Err(PresaleError::InsufficientTokensInPhase);
    }
    let payment_units = match price.checked_mul(token_amount) {
        Some(v) => v,
        None => {
            return Err(PresaleError::MathOverflow);
        },
    };
    let payment_amount = payment_units / TOKEN_SCALE;
    if payment_amount == 0 {
        return Err(PresaleError::InsufficientPayment);
    }
    let (new_spent_sol, new_spent_usdc) = match payment_type {
        PaymentType::Sol => {
            match user.total_spent_sol.checked_add(payment_amount) {
                Some(v) => (v, user.total_spent_usdc),
                None => {
                    return Err(PresaleError::MathOverflow);
                },
            }
        },
        PaymentType::Usdc => {
            match user.total_spent_usdc.checked_add(payment_amount) {
                Some(v) => (user.total_spent_sol, v),
                None => {
                    return Err(PresaleError::MathOverflow);
                },
            }
        },
    };
    let launch_units = match token_amount.checked_mul(config.vesting_launch_percentage as u64) {
        Some(v) => v,
        None => {
            return Err(PresaleError::MathOverflow);
        },
    };
    let launch_amount = launch_units / PERCENT_DENOMINATOR;
    let monthly_units = match token_amount.checked_mul(config.vesting_monthly_percentage as u64) {
        Some(v) => v,
        None => {
            return Err(PresaleError::MathOverflow);
        },
    };
    let monthly_amount = monthly_units / PERCENT_DENOMINATOR;

    let ghost old_schedule = user.vesting_schedule@;
    let ghost launch_pct = config.vesting_launch_percentage;
    let ghost monthly_pct = config.vesting_monthly_percentage;
    let launch_timestamp = config.launch_timestamp;
    let mut new_schedule: Vec<VestingEntry> = Vec::new();
    let mut i: usize = 0;
    while i < user.vesting_schedule.len()
        invariant
            i <= old_schedule.len(),
            new_schedule@.len() == i,
            forall|j: int|
                0 <= j < i ==> #[trigger] new_schedule@[j] == spec_merge_entry(
                    old_schedule[j],
                    spec_entry_add(token_amount, launch_pct, monthly_pct, j) as u64,
                    spec_release_time(launch_timestamp, j),
                ),
            forall|j: int|
                1 <= j < i ==> i64::MIN <= #[trigger] spec_release_time(launch_timestamp, j)
                    <= i64::MAX,
            forall|j: int|
                0 <= j < i ==> ((#[trigger] old_schedule[j]).populated() ==> old_schedule[j].amount
                    + spec_entry_add(token_amount, launch_pct, monthly_pct, j) <= u64::MAX),
        decreases old_schedule.len() - i,
    {
        let entry = user.vesting_schedule[i];
        let add = if i == 0 {
            launch_amount
        } else {
            monthly_amount
        };
        let release_time: i64;
        if i == 0 {
            release_time = launch_timestamp;
        } else {
            let offset = (i as i64) * MONTH_SECONDS;
            release_time = match launch_timestamp.checked_add(offset) {
                Some(v) => v,
                None => {
                    proof {
                        assert(!(i64::MIN <= spec_release_time(launch_timestamp, i as int)
                            <= i64::MAX));
                    }
                    return Err(PresaleError::MathOverflow);
                },
            };
        }
        if entry.release_time == 0 {
            new_schedule.push(
                VestingEntry { amount: add, release_time: release_time, claimed: false },
            );
        } else {
            let merged = match entry.amount.checked_add(add) {
                Some(v) => v,
                None => {
                    return Err(PresaleError::MathOverflow);
                },
            };
            new_schedule.push(
                VestingEntry {
                    amount: merged,
                    release_time: entry.release_time,
                    claimed: entry.claimed,
                },
            );
        }
        i = i + 1;
    }
    proof {
        assert(!spec_vesting_merge_overflows(
            old_schedule,
            token_amount,
            launch_pct,
            monthly_pct,
            launch_timestamp,
        ));
    }
    let new_phase_sold = phase.tokens_sold + token_amount;
    proof {
        // The configuration invariant bounds the sold counter together
        // with the table's remaining capacity, so the global counter has
        // room for anything the active phase can still sell.
        lemma_remaining_le_total(config.phases@, phase_index as int);
        lemma_total_remaining_nonneg(config.phases@);
    }
    let new_tokens_sold = config.tokens_sold + token_amount;

    user.total_purchased = new_total;
    user.last_purchase_time = now;
    user.total_spent_sol = new_spent_sol;
    user.total_spent_usdc = new_spent_usdc;
    user.vesting_schedule = new_schedule;
    config.phases.set(
        phase_index,
        PresalePhase {
            price_sol: phase.price_sol,
            price_usdc: phase.price_usdc,
            start_time: phase.start_time,
            end_time: phase.end_time,
            tokens_allocated: phase.tokens_allocated,
            tokens_sold: new_phase_sold,
        },
    );
    config.tokens_sold = new_tokens_sold;

    proof {
        let c0 = *old(config);
        let u0 = *old(user);
        let pi = phase_index as int;
        lemma_total_remaining_update(c0.phases@, pi, config.phases@[pi]);
        assert forall|k: int| 0 <= k < config.phases@.len() implies (
        #[trigger] config.phases@[k]).wf() by {
            if k != pi {
                assert(config.phases@[k] == c0.phases@[k]);
            }
        };
        assert forall|k: int| 1 <= k < config.phases@.len() implies config.phases@[k
            - 1].end_time <= (#[trigger] config.phases@[k]).start_time by {
            assert(c0.phases@[k - 1].end_time <= c0.phases@[k].start_time);
            assert(config.phases@[k].start_time == c0.phases@[k].start_time);
            assert(config.phases@[k - 1].end_time == c0.phases@[k - 1].end_time);
        };
        lemma_total_vesting_amount_unfold(old_schedule);
        lemma_total_vesting_amount_unfold(user.vesting_schedule@);
        lemma_vesting_split_le(token_amount, launch_pct, monthly_pct);
        assert(user.vesting_schedule@[0] == spec_merge_entry(
            old_schedule[0],
            spec_entry_add(token_amount, launch_pct, monthly_pct, 0) as u64,
            spec_release_time(launch_timestamp, 0),
        ));
        assert(user.vesting_schedule@[1] == spec_merge_entry(
            old_schedule[1],
            spec_entry_add(token_amount, launch_pct, monthly_pct, 1) as u64,
            spec_release_time(launch_timestamp, 1),
        ));
        assert(user.vesting_schedule@[2] == spec_merge_entry(
            old_schedule[2],
            spec_entry_add(token_amount, launch_pct, monthly_pct, 2) as u64,
            spec_release_time(launch_timestamp, 2),
        ));
    }
    Ok(payment_amount)
}

} // verus!
