use vstd::prelude::*;

verus! {

/// The fixed interest gate: thirty days of seconds, not a calendar month.
pub const ONE_MONTH_SECONDS: i64 = 30 * 24 * 60 * 60;

/// The divisor of the flat interest rate: one percent, floor division.
pub const INTEREST_RATE_DIVISOR: u64 = 100;

/// The time condition of the interest scheduler: a vault accrues interest
/// once it is at least one month old, measured from its creation date,
/// boundary inclusive. Eligibility rests on absolute age alone, not on when
/// interest was last distributed, so repeated distributions on an old enough
/// vault all succeed.
pub open spec fn spec_interest_eligible(creation_date: i64, now: i64) -> bool {
    now - creation_date >= ONE_MONTH_SECONDS
}

pub fn interest_eligible(creation_date: i64, now: i64) -> (r: bool)
    requires
        0 <= creation_date,
        0 <= now,
    ensures
        r == spec_interest_eligible(creation_date, now),
{
    now - creation_date >= ONE_MONTH_SECONDS
}

/// The interest owed on an external balance: one percent, truncated.
pub open spec fn spec_interest_amount(external_balance: u64) -> u64 {
    external_balance / INTEREST_RATE_DIVISOR
}

pub fn interest_amount(external_balance: u64) -> (r: u64)
    ensures
        r == spec_interest_amount(external_balance),
        r <= external_balance,
{
    external_balance / INTEREST_RATE_DIVISOR
}

} // verus!
