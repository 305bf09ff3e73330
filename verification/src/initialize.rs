use vstd::prelude::*;

use crate::constants::{PHASE_COUNT, VESTING_MONTHS};
use crate::error::PresaleError;
use crate::state::{
    lemma_remaining_take_le, total_remaining, vesting_percentages_wf, PresaleConfig, PresalePhase,
};

verus! {

/// Why a candidate configuration is rejected, if at all. The checks run
/// in order: the vesting percentages, then the phase table, then that the
/// table's capacity does not exceed the tokens offered for sale, then
/// that the treasury holding is denominated in the sale token's mint.
pub open spec fn spec_initialize_error(
    phases: Seq<PresalePhase>,
    total_tokens_for_sale: u64,
    launch_pct: u8,
    monthly_pct: u8,
    treasury_mint: u64,
    token_mint: u64,
) -> Option<PresaleError> {
    if !vesting_percentages_wf(launch_pct, monthly_pct) {
        Some(PresaleError::InvalidVestingSchedule)
    } else if !PresaleConfig::phases_wf(phases) {
        Some(PresaleError::InvalidPhaseConfig)
    } else if total_remaining(phases) > total_tokens_for_sale {
        Some(PresaleError::InvalidPhaseConfig)
    } else if treasury_mint != token_mint {
        Some(PresaleError::InvalidTokenMint)
    } else {
        None
    }
}

/// One-time construction of the sale configuration. Succeeds exactly when
/// the vesting percentages sum to one hundred, the phase table is valid,
/// the table's unsold capacity fits within `total_tokens_for_sale` (so
/// the global sold counter can never pass the total), and the treasury's
/// declared mint (`treasury_mint`, as the custody collaborator reports
/// it) is the configured `token_mint`. The resulting configuration starts
/// unpaused with nothing sold and satisfies the configuration invariant.
#[verifier::loop_isolation(false)]
pub fn initialize(
    phases: Vec<PresalePhase>,
    total_tokens_for_sale: u64,
    max_purchase_per_transaction: u64,
    max_purchase_per_wallet: u64,
    min_time_between_purchases: i64,
    launch_timestamp: i64,
    vesting_launch_percentage: u8,
    vesting_monthly_percentage: u8,
    authority: u64,
    token_mint: u64,
    usdc_mint: u64,
    treasury: u64,
    treasury_mint: u64,
    sol_vault: u64,
    usdc_vault: u64,
) -> (r: Result<PresaleConfig, PresaleError>)
    ensures
        match r {
            Ok(config) => {
                &&& spec_initialize_error(
                    phases@,
                    total_tokens_for_sale,
                    vesting_launch_percentage,
                    vesting_monthly_percentage,
                    treasury_mint,
                    token_mint,
                ) is None
                &&& config.wf()
                &&& config.authority == authority
                &&& config.token_mint == token_mint
                &&& config.usdc_mint == usdc_mint
                &&& config.treasury == treasury
                &&& config.sol_vault == sol_vault
                &&& config.usdc_vault == usdc_vault
                &&& config.is_paused == false
                &&& config.total_tokens_for_sale == total_tokens_for_sale
                &&& config.tokens_sold == 0
                &&& config.launch_timestamp == launch_timestamp
                &&& config.phases@ == phases@
                &&& config.max_purchase_per_transaction == max_purchase_per_transaction
                &&& config.max_purchase_per_wallet == max_purchase_per_wallet
                &&& config.min_time_between_purchases == min_time_between_purchases
                &&& config.vesting_launch_percentage == vesting_launch_percentage
                &&& config.vesting_monthly_percentage == vesting_monthly_percentage
            },
            Err(e) => Some(e) == spec_initialize_error(
                phases@,
                total_tokens_for_sale,
                vesting_launch_percentage,
                vesting_monthly_percentage,
                treasury_mint,
                token_mint,
            ),
        },
{
    let months: u64 = VESTING_MONTHS as u64;
    assert(months == 2);
    if (vesting_launch_percentage as u64) + months * (vesting_monthly_percentage as u64) != 100 {
        return Err(PresaleError::InvalidVestingSchedule);
    }
    if phases.len() != PHASE_COUNT {
        return Err(PresaleError::InvalidPhaseConfig);
    }
    let ghost s = phases@;
    let mut i: usize = 0;
    while i < phases.len()
        invariant
            i <= s.len(),
            phases@ == s,
            s.len() == PHASE_COUNT,
            forall|j: int| 0 <= j < i ==> (#[trigger] s[j]).wf(),
            forall|j: int| 1 <= j < i ==> s[j - 1].end_time <= (#[trigger] s[j]).start_time,
        decreases s.len() - i,
    {
        let phase = phases[i];
        if phase.start_time >= phase.end_time {
            return Err(PresaleError::InvalidPhaseConfig);
        }
        if phase.price_sol == 0 || phase.price_usdc == 0 {
            return Err(PresaleError::InvalidPhaseConfig);
        }
        if phase.tokens_allocated == 0 {
            return Err(PresaleError::InvalidPhaseConfig);
        }
        if phase.tokens_sold > phase.tokens_allocated {
            return Err(PresaleError::InvalidPhaseConfig);
        }
        if i > 0 {
            if phases[i - 1].end_time > phase.start_time {
                return Err(PresaleError::InvalidPhaseConfig);
            }
        }
        i = i + 1;
    }
    let mut capacity: u64 = 0;
    let mut k: usize = 0;
    while k < phases.len()
        invariant
            k <= s.len(),
            phases@ == s,
            capacity == total_remaining(s.take(k as int)),
        decreases s.len() - k,
    {
        let phase = phases[k];
        proof {
            assert(s.take(k + 1).drop_last() =~= s.take(k as int));
            assert(s.take(k + 1).last() == s[k as int]);
            lemma_remaining_take_le(s, k + 1);
        }
        capacity = match capacity.checked_add(phase.tokens_allocated - phase.tokens_sold) {
            Some(v) => v,
            None => {
                return Err(PresaleError::InvalidPhaseConfig);
            },
        };
        k = k + 1;
    }
    proof {
        assert(s.take(s.len() as int) =~= s);
    }
    if capacity > total_tokens_for_sale {
        return Err(PresaleError::InvalidPhaseConfig);
    }
    if treasury_mint != token_mint {
        return Err(PresaleError::InvalidTokenMint);
    }
    Ok(
        PresaleConfig {
            authority,
            token_mint,
            treasury,
            usdc_mint,
            sol_vault,
            usdc_vault,
            is_paused: false,
            total_tokens_for_sale,
            tokens_sold: 0,
            launch_timestamp,
            phases,
            max_purchase_per_transaction,
            max_purchase_per_wallet,
            min_time_between_purchases,
            vesting_launch_percentage,
            vesting_monthly_percentage,
        },
    )
}

} // verus!
