use vstd::prelude::*;

verus! {

/// Number of pricing phases in every sale.
pub const PHASE_COUNT: usize = 10;

/// Number of monthly vesting releases after the launch release.
pub const VESTING_MONTHS: usize = 2;

/// Length of a wallet's vesting schedule: one launch entry plus the
/// monthly entries.
pub const VESTING_SCHEDULE_LEN: usize = VESTING_MONTHS + 1;

/// The token's fixed-point base unit (9 decimals). A phase price is the
/// cost, in the payment denomination's smallest unit, of `TOKEN_SCALE`
/// base units of the sale token.
pub const TOKEN_SCALE: u64 = 1_000_000_000;

/// Seconds in one vesting month (30 days).
pub const MONTH_SECONDS: i64 = 2_592_000;

/// Divisor for the vesting split percentages.
pub const PERCENT_DENOMINATOR: u64 = 100;

} // verus!
