use velirion_presale::error::PresaleError;
use velirion_presale::initialize::initialize;
use velirion_presale::purchase::purchase;
use velirion_presale::state::{PaymentType, PresaleConfig, PresalePhase, UserPurchase};
use velirion_presale::vesting::claim_vested;

const AUTH: u64 = 7;
const LAUNCH: i64 = 100_000;
const MONTH: i64 = 2_592_000;

fn phases_with(price_sol: u64, price_usdc: u64, allocated: u64) -> Vec<PresalePhase> {
    let mut v = Vec::new();
    for i in 0..10i64 {
        v.push(PresalePhase {
            price_sol,
            price_usdc,
            start_time: 1000 + i * 1000,
            end_time: 2000 + i * 1000,
            tokens_allocated: allocated,
            tokens_sold: 0,
        });
    }
    v
}

fn config_with(
    max_tx: u64,
    max_wallet: u64,
    min_interval: i64,
    total: u64,
    price_sol: u64,
    price_usdc: u64,
    allocated: u64,
) -> PresaleConfig {
    initialize(
        phases_with(price_sol, price_usdc, allocated),
        total,
        max_tx,
        max_wallet,
        min_interval,
        LAUNCH,
        40,
        30,
        AUTH,
        11,
        12,
        13,
        11,
        14,
        15,
    )
    .unwrap()
}

fn default_config() -> PresaleConfig {
    config_with(1000, 2000, 0, 5000, 2_000_000_000, 20_000_000, 500)
}

#[test]
fn purchase_scaled_price_scenario() {
    // Phase 0 spans [1000, 2000] with price 2_000_000_000 lamports per
    // scaled token: 50 base units cost floor(2e9 * 50 / 1e9) = 100.
    let mut config = default_config();
    let mut user = UserPurchase::new(42);
    let payment = purchase(&mut config, &mut user, 50, PaymentType::Sol, 1500).unwrap();
    assert_eq!(payment, 100);
    assert_eq!(user.total_purchased, 50);
    assert_eq!(user.total_spent_sol, 100);
    assert_eq!(user.total_spent_usdc, 0);
    assert_eq!(user.last_purchase_time, 1500);
    assert_eq!(config.tokens_sold, 50);
    assert_eq!(config.phases[0].tokens_sold, 50);
    assert_eq!(config.phases[1].tokens_sold, 0);
}

#[test]
fn purchase_tiny_price_pays_zero() {
    // floor(100 * 50 / 1e9) rounds to zero payment and is rejected.
    let mut config = config_with(1000, 2000, 0, 5000, 100, 100, 500);
    let mut user = UserPurchase::new(42);
    let r = purchase(&mut config, &mut user, 50, PaymentType::Sol, 1500);
    assert_eq!(r, Err(PresaleError::InsufficientPayment));
    assert_eq!(user.total_purchased, 0);
    assert_eq!(config.tokens_sold, 0);
}

#[test]
fn purchase_usdc_updates_usdc_totals() {
    let mut config = default_config();
    let mut user = UserPurchase::new(42);
    let payment = purchase(&mut config, &mut user, 100, PaymentType::Usdc, 1500).unwrap();
    assert_eq!(payment, 2); // floor(20_000_000 * 100 / 1e9)
    assert_eq!(user.total_spent_usdc, 2);
    assert_eq!(user.total_spent_sol, 0);
}

#[test]
fn purchase_rejects_outside_any_phase() {
    let mut config = default_config();
    let mut user = UserPurchase::new(42);
    assert_eq!(
        purchase(&mut config, &mut user, 50, PaymentType::Sol, 500),
        Err(PresaleError::NoActivePhase)
    );
    assert_eq!(
        purchase(&mut config, &mut user, 50, PaymentType::Sol, 11_001),
        Err(PresaleError::NoActivePhase)
    );
}

#[test]
fn purchase_rejects_over_transaction_cap() {
    let mut config = default_config();
    let mut user = UserPurchase::new(42);
    assert_eq!(
        purchase(&mut config, &mut user, 1001, PaymentType::Sol, 1500),
        Err(PresaleError::ExceedsMaxPerTransaction)
    );
    assert_eq!(user.total_purchased, 0);
}

#[test]
fn purchase_rejects_over_wallet_cap_exactly() {
    // max per wallet 450: 400 passes, 400 + 51 would exceed, 400 + 50 is
    // exactly the cap and passes.
    let mut config = config_with(1000, 450, 0, 5000, 2_000_000_000, 20_000_000, 500);
    let mut user = UserPurchase::new(42);
    purchase(&mut config, &mut user, 400, PaymentType::Sol, 1500).unwrap();
    assert_eq!(
        purchase(&mut config, &mut user, 51, PaymentType::Sol, 1600),
        Err(PresaleError::ExceedsMaxPerWallet)
    );
    assert_eq!(user.total_purchased, 400);
    assert_eq!(config.tokens_sold, 400);
    purchase(&mut config, &mut user, 50, PaymentType::Sol, 1700).unwrap();
    assert_eq!(user.total_purchased, 450);
}

#[test]
fn purchase_rejects_when_phase_allocation_short() {
    let mut config = config_with(1000, 10_000, 0, 50_000, 2_000_000_000, 20_000_000, 500);
    let mut user = UserPurchase::new(42);
    assert_eq!(
        purchase(&mut config, &mut user, 501, PaymentType::Sol, 1500),
        Err(PresaleError::InsufficientTokensInPhase)
    );
    purchase(&mut config, &mut user, 500, PaymentType::Sol, 1500).unwrap();
    assert_eq!(
        purchase(&mut config, &mut user, 1, PaymentType::Sol, 1600),
        Err(PresaleError::InsufficientTokensInPhase)
    );
}

#[test]
fn purchase_enforces_minimum_interval() {
    let mut config = config_with(1000, 10_000, 3600, 50_000, 2_000_000_000, 20_000_000, 500);
    let mut user = UserPurchase::new(42);
    purchase(&mut config, &mut user, 10, PaymentType::Sol, 1500).unwrap();
    assert_eq!(
        purchase(&mut config, &mut user, 10, PaymentType::Sol, 1600),
        Err(PresaleError::TooSoonSinceLastPurchase)
    );
    // 1500 + 3600 = 5100 lies in phase 4; the interval has fully elapsed.
    purchase(&mut config, &mut user, 10, PaymentType::Sol, 5100).unwrap();
    assert_eq!(user.total_purchased, 20);
}

#[test]
fn purchase_overflow_is_detected() {
    // Ten phases of u64::MAX / 16 still fit within a total of u64::MAX.
    let mut config =
        config_with(u64::MAX, u64::MAX, 0, u64::MAX, u64::MAX, u64::MAX, u64::MAX / 16);
    let mut user = UserPurchase::new(42);
    user.total_purchased = u64::MAX;
    assert_eq!(
        purchase(&mut config, &mut user, 1, PaymentType::Sol, 1500),
        Err(PresaleError::MathOverflow)
    );
    let mut fresh = UserPurchase::new(43);
    // price * amount leaves u64.
    assert_eq!(
        purchase(&mut config, &mut fresh, 2, PaymentType::Sol, 1500),
        Err(PresaleError::MathOverflow)
    );
}

#[test]
fn vesting_split_forty_thirty() {
    // 40/30/30 split of 100 tokens: 40 at launch, 30 per month, no
    // rounding loss.
    let mut config = default_config();
    let mut user = UserPurchase::new(42);
    purchase(&mut config, &mut user, 100, PaymentType::Sol, 1500).unwrap();
    assert_eq!(user.vesting_schedule[0].amount, 40);
    assert_eq!(user.vesting_schedule[0].release_time, LAUNCH);
    assert!(!user.vesting_schedule[0].claimed);
    assert_eq!(user.vesting_schedule[1].amount, 30);
    assert_eq!(user.vesting_schedule[1].release_time, LAUNCH + MONTH);
    assert_eq!(user.vesting_schedule[2].amount, 30);
    assert_eq!(user.vesting_schedule[2].release_time, LAUNCH + 2 * MONTH);
}

#[test]
fn vesting_split_truncates_on_odd_amount() {
    // 101 tokens: floor(101*40/100) = 40 and floor(101*30/100) = 30; the
    // three splits sum to 100 and one token is never vested.
    let mut config = default_config();
    let mut user = UserPurchase::new(42);
    purchase(&mut config, &mut user, 101, PaymentType::Sol, 1500).unwrap();
    assert_eq!(user.vesting_schedule[0].amount, 40);
    assert_eq!(user.vesting_schedule[1].amount, 30);
    assert_eq!(user.vesting_schedule[2].amount, 30);
    let vested: u64 = user.vesting_schedule.iter().map(|e| e.amount).sum();
    assert_eq!(vested, 100);
    assert_eq!(user.total_purchased, 101);
}

#[test]
fn repeat_purchases_accumulate_same_buckets() {
    let mut config = default_config();
    let mut user = UserPurchase::new(42);
    purchase(&mut config, &mut user, 100, PaymentType::Sol, 1500).unwrap();
    purchase(&mut config, &mut user, 101, PaymentType::Sol, 1600).unwrap();
    assert_eq!(user.vesting_schedule.len(), 3);
    assert_eq!(user.vesting_schedule[0].amount, 80);
    assert_eq!(user.vesting_schedule[0].release_time, LAUNCH);
    assert_eq!(user.vesting_schedule[1].amount, 60);
    assert_eq!(user.vesting_schedule[1].release_time, LAUNCH + MONTH);
    assert_eq!(user.vesting_schedule[2].amount, 60);
    assert_eq!(user.vesting_schedule[2].release_time, LAUNCH + 2 * MONTH);
    assert_eq!(user.total_purchased, 201);
}

#[test]
fn claim_before_launch_finds_nothing() {
    let mut config = default_config();
    let mut user = UserPurchase::new(42);
    purchase(&mut config, &mut user, 100, PaymentType::Sol, 1500).unwrap();
    assert_eq!(user.get_claimable_amount(LAUNCH - 1), 0);
    assert_eq!(claim_vested(&mut user, LAUNCH - 1), Err(PresaleError::NoTokensToClaim));
    assert!(!user.vesting_schedule[0].claimed);
}

#[test]
fn claim_never_double_counts() {
    let mut config = default_config();
    let mut user = UserPurchase::new(42);
    purchase(&mut config, &mut user, 100, PaymentType::Sol, 1500).unwrap();
    // At launch only entry 0 is released.
    assert_eq!(user.get_claimable_amount(LAUNCH), 40);
    assert_eq!(claim_vested(&mut user, LAUNCH), Ok(40));
    assert_eq!(user.get_claimable_amount(LAUNCH), 0);
    assert_eq!(claim_vested(&mut user, LAUNCH), Err(PresaleError::NoTokensToClaim));
    // One month later the next entry matures.
    assert_eq!(user.get_claimable_amount(LAUNCH + MONTH), 30);
    assert_eq!(claim_vested(&mut user, LAUNCH + MONTH), Ok(30));
    assert_eq!(user.get_claimable_amount(LAUNCH + MONTH), 0);
    // Far in the future only the last entry is left.
    assert_eq!(claim_vested(&mut user, LAUNCH + 3 * MONTH), Ok(30));
    assert_eq!(claim_vested(&mut user, LAUNCH + 3 * MONTH), Err(PresaleError::NoTokensToClaim));
    assert!(user.vesting_schedule.iter().all(|e| e.claimed));
    assert_eq!(user.total_purchased, 100);
}

#[test]
fn claim_all_entries_at_once() {
    let mut config = default_config();
    let mut user = UserPurchase::new(42);
    purchase(&mut config, &mut user, 100, PaymentType::Sol, 1500).unwrap();
    assert_eq!(claim_vested(&mut user, LAUNCH + 2 * MONTH), Ok(100));
    assert_eq!(user.get_claimable_amount(LAUNCH + 2 * MONTH), 0);
}

#[test]
fn purchase_after_claim_lands_in_claimed_bucket() {
    // A claimed launch bucket keeps its mark: amounts merged into it
    // later are never claimable again.
    let mut config = default_config();
    let mut user = UserPurchase::new(42);
    purchase(&mut config, &mut user, 100, PaymentType::Sol, 1500).unwrap();
    assert_eq!(claim_vested(&mut user, LAUNCH), Ok(40));
    purchase(&mut config, &mut user, 100, PaymentType::Sol, 1600).unwrap();
    assert_eq!(user.vesting_schedule[0].amount, 80);
    assert!(user.vesting_schedule[0].claimed);
    assert_eq!(user.get_claimable_amount(LAUNCH), 0);
    assert_eq!(user.get_claimable_amount(LAUNCH + MONTH), 60);
}

#[test]
fn fresh_wallet_ledger_is_empty() {
    let user = UserPurchase::new(42);
    assert_eq!(user.wallet, 42);
    assert_eq!(user.total_purchased, 0);
    assert_eq!(user.total_spent_sol, 0);
    assert_eq!(user.total_spent_usdc, 0);
    assert_eq!(user.last_purchase_time, 0);
    assert_eq!(user.vesting_schedule.len(), 3);
    assert!(user.vesting_schedule.iter().all(|e| e.amount == 0 && e.release_time == 0 && !e.claimed));
    assert_eq!(user.get_claimable_amount(i64::MAX), 0);
    assert_eq!(user.get_remaining_allocation(2000), 2000);
}
