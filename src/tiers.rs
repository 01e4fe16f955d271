//! The tier table: how long the countdown runs after a deposit of a given size.

use vstd::prelude::*;

verus! {

/// Largest deposit, in token units (24 decimals), that earns a one-month countdown.
pub const TIER_1_MAX: u128 = 1_000_000_000_000_000_000_000_000;

/// Largest deposit that earns a two-week countdown.
pub const TIER_2_MAX: u128 = 10_000_000_000_000_000_000_000_000;

/// Largest deposit that earns a three-day countdown.
pub const TIER_3_MAX: u128 = 30_000_000_000_000_000_000_000_000;

/// Largest deposit that earns a one-day countdown.
pub const TIER_4_MAX: u128 = 50_000_000_000_000_000_000_000_000;

/// Largest deposit that earns a one-hour countdown; anything above gets fifteen minutes.
pub const TIER_5_MAX: u128 = 999_999_999_999_999_999_999_999_999;

/// One month (2,629,743 seconds, about 30.44 days), in nanoseconds.
pub const ONE_MONTH: u64 = 2_629_743_000_000_000;

/// Two weeks, in nanoseconds.
pub const TWO_WEEKS: u64 = 1_209_600_000_000_000;

/// Three days, in nanoseconds.
pub const THREE_DAYS: u64 = 259_200_000_000_000;

/// One day, in nanoseconds.
pub const ONE_DAY: u64 = 86_400_000_000_000;

/// One hour, in nanoseconds.
pub const ONE_HOUR: u64 = 3_600_000_000_000;

/// Fifteen minutes, in nanoseconds.
pub const FIFTEEN_MINUTES: u64 = 900_000_000_000;

/// The countdown that a deposit of `amount` starts: the first tier whose
/// upper bound the amount does not exceed.
pub open spec fn tier_duration(amount: int) -> int {
    if amount <= TIER_1_MAX {
        ONE_MONTH as int
    } else if amount <= TIER_2_MAX {
        TWO_WEEKS as int
    } else if amount <= TIER_3_MAX {
        THREE_DAYS as int
    } else if amount <= TIER_4_MAX {
        ONE_DAY as int
    } else if amount <= TIER_5_MAX {
        ONE_HOUR as int
    } else {
        FIFTEEN_MINUTES as int
    }
}

/// The durations that a countdown can have.
pub open spec fn is_tier_duration(d: int) -> bool {
    d == ONE_MONTH || d == TWO_WEEKS || d == THREE_DAYS || d == ONE_DAY || d == ONE_HOUR
        || d == FIFTEEN_MINUTES
}

/// The countdown, in nanoseconds, that a deposit of `amount` starts.
pub fn countdown_for_amount(amount: u128) -> (r: u64)
    ensures
        r == tier_duration(amount as int),
        is_tier_duration(r as int),
{
    if amount <= TIER_1_MAX {
        ONE_MONTH
    } else if amount <= TIER_2_MAX {
        TWO_WEEKS
    } else if amount <= TIER_3_MAX {
        THREE_DAYS
    } else if amount <= TIER_4_MAX {
        ONE_DAY
    } else if amount <= TIER_5_MAX {
        ONE_HOUR
    } else {
        FIFTEEN_MINUTES
    }
}

/// A larger deposit never starts a longer countdown than a smaller one.
pub proof fn lemma_tier_monotonic(a1: int, a2: int)
    requires
        a1 <= a2,
    ensures
        tier_duration(a2) <= tier_duration(a1),
{
}

} // verus!
