//! Meal-swipe cost estimates: simple closed-form arithmetic over calendar
//! dates, kept in integer cents so no floating point is involved. One
//! swipe costs 1512 cents; two swipes are counted per day.

use vstd::prelude::*;
use crate::date::{Date, is_leap_year, spec_days_in_month, spec_next_day, days_in_month};
use crate::machine::App;

verus! {

/// Days in years `0..y` of the proleptic Gregorian calendar.
pub open spec fn days_before_year(y: int) -> int {
    365 * y + (y + 3) / 4 - (y + 99) / 100 + (y + 399) / 400
}

/// Days in the months of year `y` before month `m`.
pub open spec fn days_before_month(y: int, m: int) -> int {
    let plain: int = if m == 1 {
        0
    } else if m == 2 {
        31
    } else if m == 3 {
        59
    } else if m == 4 {
        90
    } else if m == 5 {
        120
    } else if m == 6 {
        151
    } else if m == 7 {
        181
    } else if m == 8 {
        212
    } else if m == 9 {
        243
    } else if m == 10 {
        273
    } else if m == 11 {
        304
    } else {
        334
    };
    plain + if m >= 3 && is_leap_year(y) {
        1int
    } else {
        0int
    }
}

/// The index of a date in the count of days from 0000-01-01.
pub open spec fn spec_day_number(d: Date) -> int {
    days_before_year(d.year as int) + days_before_month(d.year as int, d.month as int) + d.day - 1
}

/// One year holds 365 days, or 366 before a leap year's March: counting
/// a year forward moves the day number by exactly that year's length.
proof fn lemma_days_before_year_step(y: int)
    requires
        0 <= y,
    ensures
        days_before_year(y + 1) - days_before_year(y) == 365 + if is_leap_year(y) {
            1int
        } else {
            0int
        },
{
    assert((y + 4) / 4 - (y + 3) / 4 == if y % 4 == 0 {
        1int
    } else {
        0int
    }) by (nonlinear_arith);
    assert((y + 100) / 100 - (y + 99) / 100 == if y % 100 == 0 {
        1int
    } else {
        0int
    }) by (nonlinear_arith);
    assert((y + 400) / 400 - (y + 399) / 400 == if y % 400 == 0 {
        1int
    } else {
        0int
    }) by (nonlinear_arith);
}

/// Law: stepping one day forward in the calendar raises the day number
/// by exactly one, so `spec_day_number` counts real days.
pub proof fn lemma_day_number_next(d: Date)
    requires
        d.wf(),
    ensures
        spec_day_number(spec_next_day(d)) == spec_day_number(d) + 1,
{
    let y = d.year as int;
    let m = d.month as int;
    if d.day < spec_days_in_month(y, m) {
    } else if d.month < 12 {
    } else {
        lemma_days_before_year_step(y);
    }
}

/// The day number of a date, for dates up to year 9999 at most 3660003.
pub fn day_number(d: &Date) -> (n: i64)
    requires
        d.wf(),
    ensures
        n as int == spec_day_number(*d),
        0 <= n <= 3660003,
{
    let y = d.year as i64;
    let before_year: i64 = 365 * y + (y + 3) / 4 - (y + 99) / 100 + (y + 399) / 400;
    let m = d.month;
    let plain: i64 = if m == 1 {
        0
    } else if m == 2 {
        31
    } else if m == 3 {
        59
    } else if m == 4 {
        90
    } else if m == 5 {
        120
    } else if m == 6 {
        151
    } else if m == 7 {
        181
    } else if m == 8 {
        212
    } else if m == 9 {
        243
    } else if m == 10 {
        273
    } else if m == 11 {
        304
    } else {
        334
    };
    let leap_extra: i64 = if m >= 3 && days_in_month(d.year, 2) == 29 {
        1
    } else {
        0
    };
    proof {
        assert(0 <= before_year <= 3652425) by (nonlinear_arith)
            requires
                before_year == 365 * y + (y + 3) / 4 - (y + 99) / 100 + (y + 399) / 400,
                0 <= y <= 9999,
        ;
    }
    before_year + plain + leap_extra + (d.day as i64) - 1
}

/// What the presentation layer shows about semester meal swipes.
pub struct MealSwipeInfo {
    /// Swipes counted since the semester started: two per day.
    pub swipes: i64,
    /// Their cost in cents.
    pub cost_cents: i64,
}

/// The cost of one meal swipe, in cents.
pub const SWIPE_COST_CENTS: i64 = 1512;

impl App {
    /// The estimated meal-swipe bill for the running month, in cents:
    /// two swipes for every full day passed since the first of the
    /// month.
    pub fn get_monthly_meal_swipe_estimate(today: &Date) -> (cents: i64)
        requires
            today.wf(),
        ensures
            cents == (today.day - 1) * 2 * SWIPE_COST_CENTS,
    {
        ((today.day as i64) - 1) * 2 * SWIPE_COST_CENTS
    }

    /// The swipes used and their cost since the semester began on
    /// 2024-09-01: two swipes for every day passed, negative before
    /// that date, as a plain day-count difference.
    pub fn get_semesterly_meal_swipe_estimate(today: &Date) -> (info: MealSwipeInfo)
        requires
            today.wf(),
        ensures
            info.swipes == 2 * (spec_day_number(*today) - spec_day_number(
                (Date { year: 2024, month: 9, day: 1 }),
            )),
            info.cost_cents == info.swipes * SWIPE_COST_CENTS,
    {
        let start = Date { year: 2024, month: 9, day: 1 };
        let days = day_number(today) - day_number(&start);
        let swipes = 2 * days;
        MealSwipeInfo { swipes, cost_cents: swipes * SWIPE_COST_CENTS }
    }
}

} // verus!
