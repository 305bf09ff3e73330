use vstd::prelude::*;

use crate::constants::PHASE_COUNT;
use crate::error::PresaleError;
use crate::state::PresaleConfig;

verus! {

/// Two configurations agreeing on every field except possibly the pause
/// flag.
pub open spec fn config_eq_except_pause(c0: PresaleConfig, c1: PresaleConfig) -> bool {
    &&& c1.authority == c0.authority
    &&& c1.token_mint == c0.token_mint
    &&& c1.treasury == c0.treasury
    &&& c1.usdc_mint == c0.usdc_mint
    &&& c1.sol_vault == c0.sol_vault
    &&& c1.usdc_vault == c0.usdc_vault
    &&& c1.total_tokens_for_sale == c0.total_tokens_for_sale
    &&& c1.tokens_sold == c0.tokens_sold
    &&& c1.launch_timestamp == c0.launch_timestamp
    &&& c1.phases@ == c0.phases@
    &&& c1.max_purchase_per_transaction == c0.max_purchase_per_transaction
    &&& c1.max_purchase_per_wallet == c0.max_purchase_per_wallet
    &&& c1.min_time_between_purchases == c0.min_time_between_purchases
    &&& c1.vesting_launch_percentage == c0.vesting_launch_percentage
    &&& c1.vesting_monthly_percentage == c0.vesting_monthly_percentage
}

/// The configuration fields a limit update never touches.
pub open spec fn update_preserves_config(c0: PresaleConfig, c1: PresaleConfig) -> bool {
    &&& c1.authority == c0.authority
    &&& c1.token_mint == c0.token_mint
    &&& c1.treasury == c0.treasury
    &&& c1.usdc_mint == c0.usdc_mint
    &&& c1.sol_vault == c0.sol_vault
    &&& c1.usdc_vault == c0.usdc_vault
    &&& c1.is_paused == c0.is_paused
    &&& c1.total_tokens_for_sale == c0.total_tokens_for_sale
    &&& c1.tokens_sold == c0.tokens_sold
    &&& c1.launch_timestamp == c0.launch_timestamp
    &&& c1.phases@ == c0.phases@
    &&& c1.vesting_launch_percentage == c0.vesting_launch_percentage
    &&& c1.vesting_monthly_percentage == c0.vesting_monthly_percentage
}

/// Marks the sale paused. Only the configured authority may; nothing but
/// the pause flag changes, and purchases are rejected until `unpause`.
pub fn pause(config: &mut PresaleConfig, caller: u64) -> (r: Result<(), PresaleError>)
    requires
        old(config).wf(),
    ensures
        final(config).wf(),
        match r {
            Ok(_) => {
                &&& caller == old(config).authority
                &&& config_eq_except_pause(*old(config), *final(config))
                &&& final(config).is_paused == true
            },
            Err(e) => {
                &&& e == PresaleError::Unauthorized
                &&& caller != old(config).authority
                &&& *final(config) == *old(config)
            },
        },
{
    if caller != config.authority {
        return Err(PresaleError::Unauthorized);
    }
    config.is_paused = true;
    Ok(())
}

/// Clears the pause flag. Only the configured authority may; nothing but
/// the pause flag changes.
pub fn unpause(config: &mut PresaleConfig, caller: u64) -> (r: Result<(), PresaleError>)
    requires
        old(config).wf(),
    ensures
        final(config).wf(),
        match r {
            Ok(_) => {
                &&& caller == old(config).authority
                &&& config_eq_except_pause(*old(config), *final(config))
                &&& final(config).is_paused == false
            },
            Err(e) => {
                &&& e == PresaleError::Unauthorized
                &&& caller != old(config).authority
                &&& *final(config) == *old(config)
            },
        },
{
    if caller != config.authority {
        return Err(PresaleError::Unauthorized);
    }
    config.is_paused = false;
    Ok(())
}

/// Overwrites the per-transaction limit, the per-wallet limit and/or the
/// minimum inter-purchase interval; absent fields are left unchanged. A
/// negative interval is rejected, and a rejected update changes nothing.
/// Only the configured authority may.
pub fn update_config(
    config: &mut PresaleConfig,
    caller: u64,
    max_purchase_per_transaction: Option<u64>,
    max_purchase_per_wallet: Option<u64>,
    min_time_between_purchases: Option<i64>,
) -> (r: Result<(), PresaleError>)
    requires
        old(config).wf(),
    ensures
        final(config).wf(),
        match r {
            Ok(_) => {
                &&& caller == old(config).authority
                &&& !(min_time_between_purchases matches Some(m) && m < 0)
                &&& update_preserves_config(*old(config), *final(config))
                &&& final(config).max_purchase_per_transaction
                    == match max_purchase_per_transaction {
                    Some(v) => v,
                    None => old(config).max_purchase_per_transaction,
                }
                &&& final(config).max_purchase_per_wallet == match max_purchase_per_wallet {
                    Some(v) => v,
                    None => old(config).max_purchase_per_wallet,
                }
                &&& final(config).min_time_between_purchases == match min_time_between_purchases {
                    Some(v) => v,
                    None => old(config).min_time_between_purchases,
                }
            },
            Err(e) => {
                &&& *final(config) == *old(config)
                &&& if caller != old(config).authority {
                    e == PresaleError::Unauthorized
                } else {
                    &&& e == PresaleError::InvalidPhaseConfig
                    &&& min_time_between_purchases matches Some(m) && m < 0
                }
            },
        },
{
    if caller != config.authority {
        return Err(PresaleError::Unauthorized);
    }
    if let Some(min_time) = min_time_between_purchases {
        if min_time < 0 {
            return Err(PresaleError::InvalidPhaseConfig);
        }
    }
    if let Some(max_tx) = max_purchase_per_transaction {
        config.max_purchase_per_transaction = max_tx;
    }
    if let Some(max_wallet) = max_purchase_per_wallet {
        config.max_purchase_per_wallet = max_wallet;
    }
    if let Some(min_time) = min_time_between_purchases {
        config.min_time_between_purchases = min_time;
    }
    Ok(())
}

/// Outcome of the end-of-sale burn request: the unsold quantity to
/// destroy, or why the request is rejected. The checks run in order: the
/// caller must be the authority, every phase must have ended, the unsold
/// difference must be computable and positive, and the treasury must hold
/// at least that much. The arithmetic arm mirrors the checked
/// subtraction; for a configuration satisfying the invariant the sold
/// counter never passes the total, so that arm cannot fire.
pub open spec fn spec_burn_outcome(
    config: PresaleConfig,
    caller: u64,
    treasury_balance: u64,
    now: i64,
) -> Result<int, PresaleError> {
    if caller != config.authority {
        Err(PresaleError::Unauthorized)
    } else if now <= config.phases@[PHASE_COUNT - 1].end_time {
        Err(PresaleError::PresaleNotEnded)
    } else if config.tokens_sold > config.total_tokens_for_sale {
        Err(PresaleError::MathOverflow)
    } else if config.total_tokens_for_sale - config.tokens_sold == 0 {
        Err(PresaleError::NoTokensToClaim)
    } else if treasury_balance < config.total_tokens_for_sale - config.tokens_sold {
        Err(PresaleError::InsufficientTokensInPhase)
    } else {
        Ok(config.total_tokens_for_sale - config.tokens_sold)
    }
}

/// Decides the end-of-sale burn: succeeds with the unsold quantity
/// exactly when every phase has ended, something is unsold, and the
/// treasury balance covers it; the caller then instructs the token
/// custody to destroy that quantity. Reads only; the configuration is
/// never changed.
pub fn burn_unsold(config: &PresaleConfig, caller: u64, treasury_balance: u64, now: i64) -> (r:
    Result<u64, PresaleError>)
    requires
        config.wf(),
    ensures
        match r {
            Ok(unsold) => spec_burn_outcome(*config, caller, treasury_balance, now) == Ok::<
                int,
                PresaleError,
            >(unsold as int),
            Err(e) => spec_burn_outcome(*config, caller, treasury_balance, now) == Err::<
                int,
                PresaleError,
            >(e),
        },
{
    if caller != config.authority {
        return Err(PresaleError::Unauthorized);
    }
    let last_phase = config.phases[PHASE_COUNT - 1];
    if now <= last_phase.end_time {
        return Err(PresaleError::PresaleNotEnded);
    }
    let unsold_tokens = match config.total_tokens_for_sale.checked_sub(config.tokens_sold) {
        Some(v) => v,
        None => {
            return Err(PresaleError::MathOverflow);
        },
    };
    if unsold_tokens == 0 {
        return Err(PresaleError::NoTokensToClaim);
    }
    if treasury_balance < unsold_tokens {
        return Err(PresaleError::InsufficientTokensInPhase);
    }
    Ok(unsold_tokens)
}

} // verus!
