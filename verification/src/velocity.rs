//! Rolling spend counters and their limits.
//!
//! Each card accumulates totals and transaction counts over three fixed
//! windows (daily, weekly, monthly). Windows reset lazily and independently:
//! before any check or mutation the caller runs [`VelocityCounters::auto_reset_if_needed`],
//! which zeroes exactly the windows whose span has elapsed.

use vstd::prelude::*;

use crate::clock::{
    spec_window_expired, should_reset_daily, should_reset_monthly, should_reset_weekly,
    SLOTS_PER_DAY, SLOTS_PER_MONTH, SLOTS_PER_WEEK,
};
use crate::errors::HookError;

verus! {

/// Spending ceilings for a card. An effectively unlimited ceiling is a very
/// large value, never an absent one.
#[derive(Clone, Copy, PartialEq, Eq, Structural, Debug)]
pub struct VelocityLimits {
    /// Maximum amount of a single transaction.
    pub per_transaction: u64,
    /// Maximum total spend in the daily window.
    pub daily: u64,
    /// Maximum total spend in the weekly window.
    pub weekly: u64,
    /// Maximum total spend in the monthly window.
    pub monthly: u64,
    /// Maximum number of transactions per daily window (tracked, not gated).
    pub max_daily_transactions: u16,
    /// Maximum number of transactions per weekly window (tracked, not gated).
    pub max_weekly_transactions: u16,
    /// Maximum number of transactions per monthly window (tracked, not gated).
    pub max_monthly_transactions: u16,
}

/// Rolling totals and counts per window, with the slot of each window's last
/// reset.
#[derive(Clone, Copy, PartialEq, Eq, Structural, Debug)]
pub struct VelocityCounters {
    pub daily_total: u64,
    pub weekly_total: u64,
    pub monthly_total: u64,
    pub daily_transaction_count: u16,
    pub weekly_transaction_count: u16,
    pub monthly_transaction_count: u16,
    pub last_daily_reset_slot: u64,
    pub last_weekly_reset_slot: u64,
    pub last_monthly_reset_slot: u64,
}

/// Addition on `u64` that clamps at the maximum instead of wrapping.
pub open spec fn spec_sat_add_u64(a: u64, b: u64) -> u64 {
    if a + b <= u64::MAX {
        (a + b) as u64
    } else {
        u64::MAX
    }
}

/// Increment on `u16` that clamps at the maximum instead of wrapping.
pub open spec fn spec_sat_inc_u16(a: u16) -> u16 {
    if a + 1 <= u16::MAX {
        (a + 1) as u16
    } else {
        u16::MAX
    }
}

/// The velocity decision for one amount, in the fixed order: per-transaction
/// ceiling, daily total, weekly total, monthly total. A sum that does not fit
/// in `u64` necessarily exceeds the window's ceiling, so overflow surfaces as
/// the same limit violation, never as wraparound.
pub open spec fn spec_check_velocity(
    c: VelocityCounters,
    l: VelocityLimits,
    amount: u64,
) -> Result<(), HookError> {
    if amount > l.per_transaction {
        Err(HookError::TransactionLimitExceeded)
    } else if c.daily_total + amount > l.daily {
        Err(HookError::DailyLimitExceeded)
    } else if c.weekly_total + amount > l.weekly {
        Err(HookError::WeeklyLimitExceeded)
    } else if c.monthly_total + amount > l.monthly {
        Err(HookError::MonthlyLimitExceeded)
    } else {
        Ok(())
    }
}

/// Counters after recording one transaction: the amount is added to all
/// three totals and all three counts are incremented, saturating.
pub open spec fn spec_record(c: VelocityCounters, amount: u64) -> VelocityCounters {
    VelocityCounters {
        daily_total: spec_sat_add_u64(c.daily_total, amount),
        weekly_total: spec_sat_add_u64(c.weekly_total, amount),
        monthly_total: spec_sat_add_u64(c.monthly_total, amount),
        daily_transaction_count: spec_sat_inc_u16(c.daily_transaction_count),
        weekly_transaction_count: spec_sat_inc_u16(c.weekly_transaction_count),
        monthly_transaction_count: spec_sat_inc_u16(c.monthly_transaction_count),
        ..c
    }
}

/// Counters after a daily reset at `current_slot`.
pub open spec fn spec_reset_daily(c: VelocityCounters, current_slot: u64) -> VelocityCounters {
    VelocityCounters {
        daily_total: 0,
        daily_transaction_count: 0,
        last_daily_reset_slot: current_slot,
        ..c
    }
}

/// Counters after a weekly reset at `current_slot`.
pub open spec fn spec_reset_weekly(c: VelocityCounters, current_slot: u64) -> VelocityCounters {
    VelocityCounters {
        weekly_total: 0,
        weekly_transaction_count: 0,
        last_weekly_reset_slot: current_slot,
        ..c
    }
}

/// Counters after a monthly reset at `current_slot`.
pub open spec fn spec_reset_monthly(c: VelocityCounters, current_slot: u64) -> VelocityCounters {
    VelocityCounters {
        monthly_total: 0,
        monthly_transaction_count: 0,
        last_monthly_reset_slot: current_slot,
        ..c
    }
}

/// Counters after the lazy reset at `current_slot`: each window is zeroed
/// independently, exactly when its own span has elapsed.
pub open spec fn spec_auto_reset(c: VelocityCounters, current_slot: u64) -> VelocityCounters {
    let c1 = if spec_window_expired(c.last_daily_reset_slot, current_slot, SLOTS_PER_DAY) {
        spec_reset_daily(c, current_slot)
    } else {
        c
    };
    let c2 = if spec_window_expired(c1.last_weekly_reset_slot, current_slot, SLOTS_PER_WEEK) {
        spec_reset_weekly(c1, current_slot)
    } else {
        c1
    };
    if spec_window_expired(c2.last_monthly_reset_slot, current_slot, SLOTS_PER_MONTH) {
        spec_reset_monthly(c2, current_slot)
    } else {
        c2
    }
}

impl VelocityCounters {
    /// Record one transaction: add `amount` to all three totals and bump all
    /// three counts, saturating at the type maxima. To be called only after
    /// the velocity check has passed; saturation on the totals is then
    /// impossible because each total stays under its ceiling.
    pub fn record_transaction(&mut self, amount: u64)
        ensures
            *final(self) == spec_record(*old(self), amount),
    {
        self.daily_total = self.daily_total.saturating_add(amount);
        self.weekly_total = self.weekly_total.saturating_add(amount);
        self.monthly_total = self.monthly_total.saturating_add(amount);
        self.daily_transaction_count = self.daily_transaction_count.saturating_add(1);
        self.weekly_transaction_count = self.weekly_transaction_count.saturating_add(1);
        self.monthly_transaction_count = self.monthly_transaction_count.saturating_add(1);
    }

    /// Zero the daily window and stamp it with `current_slot`.
    pub fn reset_daily(&mut self, current_slot: u64)
        ensures
            *final(self) == spec_reset_daily(*old(self), current_slot),
    {
        self.daily_total = 0;
        self.daily_transaction_count = 0;
        self.last_daily_reset_slot = current_slot;
    }

    /// Zero the weekly window and stamp it with `current_slot`.
    pub fn reset_weekly(&mut self, current_slot: u64)
        ensures
            *final(self) == spec_reset_weekly(*old(self), current_slot),
    {
        self.weekly_total = 0;
        self.weekly_transaction_count = 0;
        self.last_weekly_reset_slot = current_slot;
    }

    /// Zero the monthly window and stamp it with `current_slot`.
    pub fn reset_monthly(&mut self, current_slot: u64)
        ensures
            *final(self) == spec_reset_monthly(*old(self), current_slot),
    {
        self.monthly_total = 0;
        self.monthly_transaction_count = 0;
        self.last_monthly_reset_slot = current_slot;
    }

    /// The lazy reset: zero every window whose span has elapsed by
    /// `current_slot`, each independently. Idempotent, and a no-op for a
    /// window whose recorded reset lies in the future.
    pub fn auto_reset_if_needed(&mut self, current_slot: u64)
        ensures
            *final(self) == spec_auto_reset(*old(self), current_slot),
    {
        if should_reset_daily(self.last_daily_reset_slot, current_slot) {
            self.reset_daily(current_slot);
        }
        if should_reset_weekly(self.last_weekly_reset_slot, current_slot) {
            self.reset_weekly(current_slot);
        }
        if should_reset_monthly(self.last_monthly_reset_slot, current_slot) {
            self.reset_monthly(current_slot);
        }
    }
}

// ============================================================================
// Velocity limit presets
// ============================================================================

/// Conservative limits for low-risk users.
pub fn conservative_limits() -> (l: VelocityLimits)
    ensures
        l == (VelocityLimits {
            per_transaction: 50000,
            daily: 100000,
            weekly: 250000,
            monthly: 500000,
            max_daily_transactions: 10,
            max_weekly_transactions: 30,
            max_monthly_transactions: 100,
        }),
{
    VelocityLimits {
        per_transaction: 50000,
        daily: 100000,
        weekly: 250000,
        monthly: 500000,
        max_daily_transactions: 10,
        max_weekly_transactions: 30,
        max_monthly_transactions: 100,
    }
}

/// Standard limits for verified users.
pub fn standard_limits() -> (l: VelocityLimits)
    ensures
        l == (VelocityLimits {
            per_transaction: 250000,
            daily: 500000,
            weekly: 1500000,
            monthly: 5000000,
            max_daily_transactions: 25,
            max_weekly_transactions: 100,
            max_monthly_transactions: 300,
        }),
{
    VelocityLimits {
        per_transaction: 250000,
        daily: 500000,
        weekly: 1500000,
        monthly: 5000000,
        max_daily_transactions: 25,
        max_weekly_transactions: 100,
        max_monthly_transactions: 300,
    }
}

/// Premium limits for fully verified users.
pub fn premium_limits() -> (l: VelocityLimits)
    ensures
        l == (VelocityLimits {
            per_transaction: 1000000,
            daily: 2500000,
            weekly: 10000000,
            monthly: 25000000,
            max_daily_transactions: 50,
            max_weekly_transactions: 200,
            max_monthly_transactions: 500,
        }),
{
    VelocityLimits {
        per_transaction: 1000000,
        daily: 2500000,
        weekly: 10000000,
        monthly: 25000000,
        max_daily_transactions: 50,
        max_weekly_transactions: 200,
        max_monthly_transactions: 500,
    }
}

/// Institutional limits for business accounts.
pub fn institutional_limits() -> (l: VelocityLimits)
    ensures
        l == (VelocityLimits {
            per_transaction: 10000000,
            daily: 50000000,
            weekly: 200000000,
            monthly: 500000000,
            max_daily_transactions: 500,
            max_weekly_transactions: 2000,
            max_monthly_transactions: 10000,
        }),
{
    VelocityLimits {
        per_transaction: 10000000,
        daily: 50000000,
        weekly: 200000000,
        monthly: 500000000,
        max_daily_transactions: 500,
        max_weekly_transactions: 2000,
        max_monthly_transactions: 10000,
    }
}

// ============================================================================
// Laws
// ============================================================================

/// Law: an amount above the per-transaction ceiling is refused by the
/// velocity check with `TransactionLimitExceeded`, whatever the counters
/// hold.
pub proof fn lemma_per_transaction_limit_decisive(
    c: VelocityCounters,
    l: VelocityLimits,
    amount: u64,
)
    requires
        amount > l.per_transaction,
    ensures
        spec_check_velocity(c, l, amount) == Err::<(), HookError>(
            HookError::TransactionLimitExceeded,
        ),
{
}

/// Sum of a sequence of amounts.
pub open spec fn spec_sum(amounts: Seq<u64>) -> int
    decreases amounts.len(),
{
    if amounts.len() == 0 {
        0
    } else {
        amounts[0] + spec_sum(amounts.skip(1))
    }
}

/// Counters after recording a whole sequence of transactions in order.
pub open spec fn spec_record_all(c: VelocityCounters, amounts: Seq<u64>) -> VelocityCounters
    decreases amounts.len(),
{
    if amounts.len() == 0 {
        c
    } else {
        spec_record_all(spec_record(c, amounts[0]), amounts.skip(1))
    }
}

/// A sum of unsigned amounts is never negative.
pub proof fn lemma_sum_nonneg(amounts: Seq<u64>)
    ensures
        spec_sum(amounts) >= 0,
    decreases amounts.len(),
{
    if amounts.len() > 0 {
        lemma_sum_nonneg(amounts.skip(1));
    }
}

/// Law: recording a sequence of transactions accumulates exactly the sum of
/// the amounts in every total (as long as the sums fit), adds the number of
/// transactions to every count, and leaves every reset slot untouched: only
/// a reset ever lowers a total.
pub proof fn lemma_record_all_accumulates(c: VelocityCounters, amounts: Seq<u64>)
    requires
        c.daily_total + spec_sum(amounts) <= u64::MAX,
        c.weekly_total + spec_sum(amounts) <= u64::MAX,
        c.monthly_total + spec_sum(amounts) <= u64::MAX,
        c.daily_transaction_count + amounts.len() <= u16::MAX,
        c.weekly_transaction_count + amounts.len() <= u16::MAX,
        c.monthly_transaction_count + amounts.len() <= u16::MAX,
    ensures
        spec_record_all(c, amounts).daily_total == c.daily_total + spec_sum(amounts),
        spec_record_all(c, amounts).weekly_total == c.weekly_total + spec_sum(amounts),
        spec_record_all(c, amounts).monthly_total == c.monthly_total + spec_sum(amounts),
        spec_record_all(c, amounts).daily_transaction_count == c.daily_transaction_count
            + amounts.len(),
        spec_record_all(c, amounts).weekly_transaction_count == c.weekly_transaction_count
            + amounts.len(),
        spec_record_all(c, amounts).monthly_transaction_count == c.monthly_transaction_count
            + amounts.len(),
        spec_record_all(c, amounts).last_daily_reset_slot == c.last_daily_reset_slot,
        spec_record_all(c, amounts).last_weekly_reset_slot == c.last_weekly_reset_slot,
        spec_record_all(c, amounts).last_monthly_reset_slot == c.last_monthly_reset_slot,
    decreases amounts.len(),
{
    if amounts.len() > 0 {
        lemma_sum_nonneg(amounts.skip(1));
        lemma_record_all_accumulates(spec_record(c, amounts[0]), amounts.skip(1));
    }
}

/// Law: the lazy reset treats the three windows independently. A window
/// whose span has elapsed comes out zeroed and stamped with the current
/// slot; a window whose span has not elapsed keeps its total, count and
/// reset slot exactly as they were.
pub proof fn lemma_auto_reset_windows_independent(c: VelocityCounters, current_slot: u64)
    ensures
        spec_window_expired(c.last_daily_reset_slot, current_slot, SLOTS_PER_DAY) ==> {
            &&& spec_auto_reset(c, current_slot).daily_total == 0
            &&& spec_auto_reset(c, current_slot).daily_transaction_count == 0
            &&& spec_auto_reset(c, current_slot).last_daily_reset_slot == current_slot
        },
        !spec_window_expired(c.last_daily_reset_slot, current_slot, SLOTS_PER_DAY) ==> {
            &&& spec_auto_reset(c, current_slot).daily_total == c.daily_total
            &&& spec_auto_reset(c, current_slot).daily_transaction_count
                == c.daily_transaction_count
            &&& spec_auto_reset(c, current_slot).last_daily_reset_slot == c.last_daily_reset_slot
        },
        spec_window_expired(c.last_weekly_reset_slot, current_slot, SLOTS_PER_WEEK) ==> {
            &&& spec_auto_reset(c, current_slot).weekly_total == 0
            &&& spec_auto_reset(c, current_slot).weekly_transaction_count == 0
            &&& spec_auto_reset(c, current_slot).last_weekly_reset_slot == current_slot
        },
        !spec_window_expired(c.last_weekly_reset_slot, current_slot, SLOTS_PER_WEEK) ==> {
            &&& spec_auto_reset(c, current_slot).weekly_total == c.weekly_total
            &&& spec_auto_reset(c, current_slot).weekly_transaction_count
                == c.weekly_transaction_count
            &&& spec_auto_reset(c, current_slot).last_weekly_reset_slot == c.last_weekly_reset_slot
        },
        spec_window_expired(c.last_monthly_reset_slot, current_slot, SLOTS_PER_MONTH) ==> {
            &&& spec_auto_reset(c, current_slot).monthly_total == 0
            &&& spec_auto_reset(c, current_slot).monthly_transaction_count == 0
            &&& spec_auto_reset(c, current_slot).last_monthly_reset_slot == current_slot
        },
        !spec_window_expired(c.last_monthly_reset_slot, current_slot, SLOTS_PER_MONTH) ==> {
            &&& spec_auto_reset(c, current_slot).monthly_total == c.monthly_total
            &&& spec_auto_reset(c, current_slot).monthly_transaction_count
                == c.monthly_transaction_count
            &&& spec_auto_reset(c, current_slot).last_monthly_reset_slot
                == c.last_monthly_reset_slot
        },
{
}

/// Law: the lazy reset is idempotent — running it twice at the same slot
/// leaves exactly the state of running it once.
pub proof fn lemma_auto_reset_idempotent(c: VelocityCounters, current_slot: u64)
    ensures
        spec_auto_reset(spec_auto_reset(c, current_slot), current_slot)
            == spec_auto_reset(c, current_slot),
{
}

} // verus!
