use vstd::prelude::*;

verus! {

/// Every way an operation of the presale can fail. A failing operation
/// returns one of these and leaves all state unchanged; nothing in this
/// crate panics.
#[derive(Clone, Copy, Debug, PartialEq, Eq, Structural)]
pub enum PresaleError {
    /// The sale is paused.
    PresalePaused,
    /// No phase is active at the supplied time.
    NoActivePhase,
    /// The requested quantity exceeds the per-transaction limit.
    ExceedsMaxPerTransaction,
    /// The wallet's new cumulative total would exceed the per-wallet limit.
    ExceedsMaxPerWallet,
    /// Too little time has passed since the wallet's last purchase.
    TooSoonSinceLastPurchase,
    /// The payment denomination is not one of the two supported ones.
    InvalidPaymentType,
    /// The computed payment would round down to zero.
    InsufficientPayment,
    /// Fewer unsold tokens than requested are available (in the active
    /// phase, or in the treasury at end of sale).
    InsufficientTokensInPhase,
    /// An end-of-sale operation was invoked before the last phase ended.
    PresaleNotEnded,
    /// Nothing is claimable, or nothing is left to burn.
    NoTokensToClaim,
    /// A vesting entry was already claimed.
    AlreadyClaimed,
    /// A phase table fails its validity checks, or a supplied interval is
    /// negative.
    InvalidPhaseConfig,
    /// The caller is not the configured authority or wallet owner.
    Unauthorized,
    /// A referenced account does not carry the configured token mint.
    InvalidTokenMint,
    /// A referenced account is not the configured treasury.
    InvalidTreasury,
    /// A checked arithmetic operation overflowed.
    MathOverflow,
    /// The vesting percentages do not sum to one hundred.
    InvalidVestingSchedule,
}

} // verus!
