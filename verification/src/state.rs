use vstd::prelude::*;

use crate::constants::{PHASE_COUNT, VESTING_MONTHS, VESTING_SCHEDULE_LEN};

verus! {

/// One of the two accepted payment denominations: the native chain
/// currency (priced in its smallest unit, lamports) or the stable-value
/// token (priced in its smallest unit, micro units).
#[derive(Clone, Copy, Debug, PartialEq, Eq, Structural)]
pub enum PaymentType {
    Sol,
    Usdc,
}

/// A time-bounded pricing tier of the sale with its own allocation cap.
/// Both window bounds are inclusive.
#[derive(Clone, Copy, Debug, PartialEq, Eq, Structural)]
pub struct PresalePhase {
    /// Cost of `TOKEN_SCALE` base units of the sale token, in lamports.
    pub price_sol: u64,
    /// Cost of `TOKEN_SCALE` base units of the sale token, in micro units
    /// of the stable denomination.
    pub price_usdc: u64,
    pub start_time: i64,
    pub end_time: i64,
    pub tokens_allocated: u64,
    pub tokens_sold: u64,
}

impl PresalePhase {
    /// Validity of a single phase: a non-empty time window, positive
    /// prices in both denominations, a positive allocation, and no more
    /// sold than allocated.
    pub open spec fn wf(self) -> bool {
        &&& self.start_time < self.end_time
        &&& self.price_sol > 0
        &&& self.price_usdc > 0
        &&& self.tokens_allocated > 0
        &&& self.tokens_sold <= self.tokens_allocated
    }

    /// The phase is active at `t` (both bounds inclusive).
    pub open spec fn active_at(self, t: i64) -> bool {
        self.start_time <= t && t <= self.end_time
    }

    /// The phase's price in the given denomination.
    pub open spec fn price(self, payment_type: PaymentType) -> u64 {
        match payment_type {
            PaymentType::Sol => self.price_sol,
            PaymentType::Usdc => self.price_usdc,
        }
    }

    /// Unsold remainder of the phase's allocation.
    pub open spec fn remaining(self) -> int {
        self.tokens_allocated - self.tokens_sold
    }
}

impl Default for PresalePhase {
    /// An all-zero placeholder phase (not itself a valid phase).
    fn default() -> (p: Self)
        ensures
            p == (PresalePhase {
                price_sol: 0,
                price_usdc: 0,
                start_time: 0,
                end_time: 0,
                tokens_allocated: 0,
                tokens_sold: 0,
            }),
    {
        PresalePhase {
            price_sol: 0,
            price_usdc: 0,
            start_time: 0,
            end_time: 0,
            tokens_allocated: 0,
            tokens_sold: 0,
        }
    }
}

/// The lowest-indexed phase at index `i` or later that is active at `t`.
pub open spec fn first_active_from(phases: Seq<PresalePhase>, t: i64, i: int) -> Option<int>
    decreases phases.len() - i,
{
    if i < 0 || i >= phases.len() {
        None
    } else if phases[i].active_at(t) {
        Some(i)
    } else {
        first_active_from(phases, t, i + 1)
    }
}

/// The lowest-indexed phase active at `t`, if any: the first-match-wins
/// phase resolution policy.
pub open spec fn first_active_phase(phases: Seq<PresalePhase>, t: i64) -> Option<int> {
    first_active_from(phases, t, 0)
}

/// Unsold capacity the table still offers: the sum over all phases of
/// allocated minus sold.
pub open spec fn total_remaining(phases: Seq<PresalePhase>) -> int
    decreases phases.len(),
{
    if phases.len() == 0 {
        0
    } else {
        total_remaining(phases.drop_last()) + phases.last().remaining()
    }
}

/// A table of well-formed phases never offers negative capacity.
pub proof fn lemma_total_remaining_nonneg(phases: Seq<PresalePhase>)
    requires
        forall|i: int| 0 <= i < phases.len() ==> (#[trigger] phases[i]).wf(),
    ensures
        0 <= total_remaining(phases),
    decreases phases.len(),
{
    if phases.len() > 0 {
        assert(phases.last() == phases[phases.len() - 1]);
        lemma_total_remaining_nonneg(phases.drop_last());
    }
}

/// In a table of well-formed phases, one phase's unsold remainder never
/// exceeds the whole table's remaining capacity.
pub proof fn lemma_remaining_le_total(phases: Seq<PresalePhase>, i: int)
    requires
        forall|k: int| 0 <= k < phases.len() ==> (#[trigger] phases[k]).wf(),
        0 <= i < phases.len(),
    ensures
        phases[i].remaining() <= total_remaining(phases),
    decreases phases.len(),
{
    assert(phases.last() == phases[phases.len() - 1]);
    if i == phases.len() - 1 {
        lemma_total_remaining_nonneg(phases.drop_last());
    } else {
        lemma_remaining_le_total(phases.drop_last(), i);
    }
}

/// The remaining capacity of a prefix never exceeds that of the whole
/// table of well-formed phases.
pub proof fn lemma_remaining_take_le(phases: Seq<PresalePhase>, i: int)
    requires
        forall|k: int| 0 <= k < phases.len() ==> (#[trigger] phases[k]).wf(),
        0 <= i <= phases.len(),
    ensures
        total_remaining(phases.take(i)) <= total_remaining(phases),
    decreases phases.len() - i,
{
    if i == phases.len() {
        assert(phases.take(i) =~= phases);
    } else {
        assert(phases.take(i + 1).drop_last() =~= phases.take(i));
        assert(phases.take(i + 1).last() == phases[i]);
        lemma_remaining_take_le(phases, i + 1);
    }
}

/// Replacing one phase changes the table's remaining capacity by exactly
/// the change in that phase's own remainder.
pub proof fn lemma_total_remaining_update(phases: Seq<PresalePhase>, i: int, p: PresalePhase)
    requires
        0 <= i < phases.len(),
    ensures
        total_remaining(phases.update(i, p)) == total_remaining(phases) - phases[i].remaining()
            + p.remaining(),
    decreases phases.len(),
{
    let updated = phases.update(i, p);
    if i == phases.len() - 1 {
        assert(updated.drop_last() =~= phases.drop_last());
        assert(updated.last() == p);
        assert(phases.last() == phases[i]);
    } else {
        assert(updated.drop_last() =~= phases.drop_last().update(i, p));
        assert(updated.last() == phases.last());
        lemma_total_remaining_update(phases.drop_last(), i, p);
        assert(phases.drop_last()[i] == phases[i]);
    }
}

/// A scheduled future release of a fixed token amount, claimable once its
/// release time has passed. `release_time == 0` is the sentinel of an
/// entry that no purchase has populated yet.
#[derive(Clone, Copy, Debug, PartialEq, Eq, Structural)]
pub struct VestingEntry {
    pub amount: u64,
    pub release_time: i64,
    pub claimed: bool,
}

impl VestingEntry {
    /// Some purchase has populated this entry.
    pub open spec fn populated(self) -> bool {
        self.release_time != 0
    }

    /// The entry counts toward the claimable total at `now`: released,
    /// not yet claimed, and carrying a positive amount.
    pub open spec fn claimable_at(self, now: i64) -> bool {
        !self.claimed && now >= self.release_time && self.amount > 0
    }
}

impl Default for VestingEntry {
    /// An unpopulated entry: no amount, sentinel release time, unclaimed.
    fn default() -> (e: Self)
        ensures
            e == (VestingEntry { amount: 0, release_time: 0, claimed: false }),
    {
        VestingEntry { amount: 0, release_time: 0, claimed: false }
    }
}

/// Sum of the amounts of the entries claimable at `now`.
pub open spec fn claimable_amount(entries: Seq<VestingEntry>, now: i64) -> int
    decreases entries.len(),
{
    if entries.len() == 0 {
        0
    } else {
        claimable_amount(entries.drop_last(), now) + if entries.last().claimable_at(now) {
            entries.last().amount as int
        } else {
            0int
        }
    }
}

/// Sum of the amounts of all entries, claimed or not.
pub open spec fn total_vesting_amount(entries: Seq<VestingEntry>) -> int
    decreases entries.len(),
{
    if entries.len() == 0 {
        0
    } else {
        total_vesting_amount(entries.drop_last()) + entries.last().amount
    }
}

/// The vesting schedule of a wallet before its first purchase.
pub open spec fn empty_vesting_schedule() -> Seq<VestingEntry> {
    Seq::new(
        VESTING_SCHEDULE_LEN as nat,
        |i: int| VestingEntry { amount: 0, release_time: 0, claimed: false },
    )
}

/// Per-wallet cumulative purchase record plus the wallet's fixed-length
/// vesting schedule: entry 0 releases at launch, entries `1..` release
/// monthly after launch.
#[derive(Clone, Debug)]
pub struct UserPurchase {
    pub wallet: u64,
    pub total_purchased: u64,
    pub total_spent_sol: u64,
    pub total_spent_usdc: u64,
    pub last_purchase_time: i64,
    pub vesting_schedule: Vec<VestingEntry>,
}

impl UserPurchase {
    /// The wallet-ledger invariant: the schedule has its fixed length and
    /// the amounts parked in it never exceed what the wallet purchased.
    pub open spec fn wf(self) -> bool {
        &&& self.vesting_schedule@.len() == VESTING_SCHEDULE_LEN
        &&& total_vesting_amount(self.vesting_schedule@) <= self.total_purchased
    }

    /// The wallet's cumulative spend in the given denomination.
    pub open spec fn spent(self, payment_type: PaymentType) -> u64 {
        match payment_type {
            PaymentType::Sol => self.total_spent_sol,
            PaymentType::Usdc => self.total_spent_usdc,
        }
    }

    /// A fresh ledger for `wallet`: nothing purchased, nothing vesting.
    /// This is the state a wallet's record is created in on its first
    /// purchase.
    pub fn new(wallet: u64) -> (u: UserPurchase)
        ensures
            u.wf(),
            u.wallet == wallet,
            u.total_purchased == 0,
            u.total_spent_sol == 0,
            u.total_spent_usdc == 0,
            u.last_purchase_time == 0,
            u.vesting_schedule@ == empty_vesting_schedule(),
    {
        let mut schedule: Vec<VestingEntry> = Vec::new();
        let mut i: usize = 0;
        while i < VESTING_SCHEDULE_LEN
            invariant
                i <= VESTING_SCHEDULE_LEN,
                schedule@.len() == i,
                forall|j: int| 0 <= j < i ==> schedule@[j]
                    == (VestingEntry { amount: 0, release_time: 0, claimed: false }),
            decreases VESTING_SCHEDULE_LEN - i,
        {
            schedule.push(VestingEntry { amount: 0, release_time: 0, claimed: false });
            i = i + 1;
        }
        proof {
            assert(schedule@ =~= empty_vesting_schedule());
            lemma_total_vesting_amount_unfold(schedule@);
        }
        UserPurchase {
            wallet,
            total_purchased: 0,
            total_spent_sol: 0,
            total_spent_usdc: 0,
            last_purchase_time: 0,
            vesting_schedule: schedule,
        }
    }

    /// Sums the amounts of all entries that are released at
    /// `current_time`, not yet claimed, and carry a positive amount.
    pub fn get_claimable_amount(&self, current_time: i64) -> (r: u64)
        requires
            self.wf(),
        ensures
            r == claimable_amount(self.vesting_schedule@, current_time),
    {
        let entries = &self.vesting_schedule;
        let ghost s = entries@;
        let mut claimable: u64 = 0;
        let mut i: usize = 0;
        while i < entries.len()
            invariant
                i <= s.len(),
                entries@ == s,
                s.len() == VESTING_SCHEDULE_LEN,
                total_vesting_amount(s) <= u64::MAX,
                claimable == claimable_amount(s.take(i as int), current_time),
            decreases s.len() - i,
        {
            let entry = entries[i];
            proof {
                assert(s.take(i + 1).drop_last() =~= s.take(i as int));
                assert(s.take(i + 1).last() == s[i as int]);
                lemma_claimable_le_total(s.take(i + 1), current_time);
                lemma_total_take_le(s, i + 1);
            }
            if !entry.claimed && current_time >= entry.release_time && entry.amount > 0 {
                claimable = claimable + entry.amount;
            }
            i = i + 1;
        }
        proof {
            assert(s.take(s.len() as int) =~= s);
        }
        claimable
    }

    /// How much more the wallet may purchase under the per-wallet cap.
    pub fn get_remaining_allocation(&self, max_per_wallet: u64) -> (r: u64)
        ensures
            r == if self.total_purchased >= max_per_wallet {
                0int
            } else {
                max_per_wallet - self.total_purchased
            },
    {
        if self.total_purchased >= max_per_wallet {
            return 0;
        }
        max_per_wallet - self.total_purchased
    }
}

/// The vesting split percentages cover the whole purchase: the launch
/// percentage plus one monthly percentage per vesting month is exactly
/// one hundred.
pub open spec fn vesting_percentages_wf(launch_pct: u8, monthly_pct: u8) -> bool {
    launch_pct + VESTING_MONTHS * monthly_pct == 100
}

/// Global sale parameters: the phase table, totals, limits, pause flag,
/// vesting split, and the identities of the authority and the custody
/// destinations (opaque to this crate).
#[derive(Clone, Debug)]
pub struct PresaleConfig {
    pub authority: u64,
    pub token_mint: u64,
    pub treasury: u64,
    pub usdc_mint: u64,
    pub sol_vault: u64,
    pub usdc_vault: u64,
    pub is_paused: bool,
    pub total_tokens_for_sale: u64,
    pub tokens_sold: u64,
    pub launch_timestamp: i64,
    pub phases: Vec<PresalePhase>,
    pub max_purchase_per_transaction: u64,
    pub max_purchase_per_wallet: u64,
    pub min_time_between_purchases: i64,
    pub vesting_launch_percentage: u8,
    pub vesting_monthly_percentage: u8,
}

impl PresaleConfig {
    /// Phase-table validity: exactly `PHASE_COUNT` phases, each well
    /// formed, ordered and non-overlapping.
    pub open spec fn phases_wf(phases: Seq<PresalePhase>) -> bool {
        &&& phases.len() == PHASE_COUNT
        &&& forall|i: int| 0 <= i < phases.len() ==> (#[trigger] phases[i]).wf()
        &&& forall|i: int| 1 <= i < phases.len() ==> phases[i - 1].end_time
            <= (#[trigger] phases[i]).start_time
    }

    /// The sale-configuration invariant, established at initialization
    /// and preserved by every operation: a valid phase table, percentages
    /// covering the purchase, and never more sold than offered for sale.
    /// The last clause bounds the sold counter together with the unsold
    /// capacity the table can still sell, which is what makes the bound
    /// inductive: a purchase moves quantity from the table's remaining
    /// capacity to the sold counter, leaving their sum unchanged.
    pub open spec fn wf(self) -> bool {
        &&& Self::phases_wf(self.phases@)
        &&& vesting_percentages_wf(self.vesting_launch_percentage, self.vesting_monthly_percentage)
        &&& self.tokens_sold <= self.total_tokens_for_sale
        &&& self.tokens_sold + total_remaining(self.phases@) <= self.total_tokens_for_sale
    }

    /// Returns the index of the lowest-indexed phase whose inclusive time
    /// window contains `current_time`, or none if no phase is active.
    pub fn get_current_phase(&self, current_time: i64) -> (r: Option<usize>)
        ensures
            match r {
                Some(i) => first_active_phase(self.phases@, current_time) == Some(i as int),
                None => first_active_phase(self.phases@, current_time) is None,
            },
    {
        let ghost s = self.phases@;
        let mut index: usize = 0;
        while index < self.phases.len()
            invariant
                index <= s.len(),
                self.phases@ == s,
                first_active_phase(s, current_time) == first_active_from(s, current_time, index as int),
            decreases s.len() - index,
        {
            let phase = self.phases[index];
            if current_time >= phase.start_time && current_time <= phase.end_time {
                return Some(index);
            }
            index = index + 1;
        }
        None
    }

    /// Returns the price of the phase at `phase_index` in the given
    /// denomination, or none if the index is out of range.
    pub fn get_phase_price(&self, phase_index: usize, payment_type: PaymentType) -> (r: Option<
        u64,
    >)
        requires
            self.phases@.len() == PHASE_COUNT,
        ensures
            r == if phase_index < PHASE_COUNT {
                Some(self.phases@[phase_index as int].price(payment_type))
            } else {
                None::<u64>
            },
    {
        if phase_index >= PHASE_COUNT {
            return None;
        }
        match payment_type {
            PaymentType::Sol => Some(self.phases[phase_index].price_sol),
            PaymentType::Usdc => Some(self.phases[phase_index].price_usdc),
        }
    }
}

/// Neither sum of vesting amounts is negative, and the claimable part
/// never exceeds the whole.
pub proof fn lemma_claimable_le_total(entries: Seq<VestingEntry>, now: i64)
    ensures
        0 <= claimable_amount(entries, now),
        claimable_amount(entries, now) <= total_vesting_amount(entries),
    decreases entries.len(),
{
    if entries.len() > 0 {
        lemma_claimable_le_total(entries.drop_last(), now);
    }
}

/// The vesting-amount sum of a prefix never exceeds the sum of the whole
/// schedule.
pub proof fn lemma_total_take_le(entries: Seq<VestingEntry>, i: int)
    requires
        0 <= i <= entries.len(),
    ensures
        total_vesting_amount(entries.take(i)) <= total_vesting_amount(entries),
    decreases entries.len() - i,
{
    if i == entries.len() {
        assert(entries.take(i) =~= entries);
    } else {
        assert(entries.take(i + 1).drop_last() =~= entries.take(i));
        lemma_total_take_le(entries, i + 1);
    }
}

/// Unfolds the vesting-amount sum for a schedule of the fixed length.
pub proof fn lemma_total_vesting_amount_unfold(entries: Seq<VestingEntry>)
    requires
        entries.len() == VESTING_SCHEDULE_LEN,
    ensures
        total_vesting_amount(entries) == entries[0].amount + entries[1].amount
            + entries[2].amount,
{
    let e2 = entries.drop_last();
    let e1 = e2.drop_last();
    let e0 = e1.drop_last();
    assert(e0.len() == 0);
    assert(total_vesting_amount(e0) == 0);
    assert(total_vesting_amount(e1) == e1.last().amount + total_vesting_amount(e0));
    assert(total_vesting_amount(e2) == e2.last().amount + total_vesting_amount(e1));
    assert(e1.last() == entries[0]);
    assert(e2.last() == entries[1]);
    assert(entries.last() == entries[2]);
}

/// A schedule with no claimable entry has a zero claimable total.
pub proof fn lemma_claimable_zero_when_none(entries: Seq<VestingEntry>, now: i64)
    requires
        forall|i: int| 0 <= i < entries.len() ==> !(#[trigger] entries[i]).claimable_at(now),
    ensures
        claimable_amount(entries, now) == 0,
    decreases entries.len(),
{
    if entries.len() > 0 {
        assert(entries.last() == entries[entries.len() - 1]);
        lemma_claimable_zero_when_none(entries.drop_last(), now);
    }
}

} // verus!
