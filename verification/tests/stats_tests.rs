use meal_tracker::date::Date;
use meal_tracker::machine::App;
use meal_tracker::stats::{day_number, SWIPE_COST_CENTS};

fn day(y: i32, m: u8, d: u8) -> Date {
    Date { year: y, month: m, day: d }
}

#[test]
fn day_numbers_count_real_days() {
    let feb28 = day(2024, 2, 28);
    let mar1 = day(2024, 3, 1);
    // 2024 is a leap year: the 29th lies between.
    assert_eq!(day_number(&mar1) - day_number(&feb28), 2);
    let plain_feb28 = day(2023, 2, 28);
    let plain_mar1 = day(2023, 3, 1);
    assert_eq!(day_number(&plain_mar1) - day_number(&plain_feb28), 1);
    let dec31 = day(2023, 12, 31);
    let jan1 = day(2024, 1, 1);
    assert_eq!(day_number(&jan1) - day_number(&dec31), 1);
}

#[test]
fn monthly_estimate_counts_days_passed() {
    let cents = App::get_monthly_meal_swipe_estimate(&day(2024, 9, 15));
    assert_eq!(cents, 14 * 2 * SWIPE_COST_CENTS);
    let first = App::get_monthly_meal_swipe_estimate(&day(2024, 9, 1));
    assert_eq!(first, 0);
}

#[test]
fn semester_estimate_counts_from_september_first() {
    let info = App::get_semesterly_meal_swipe_estimate(&day(2024, 9, 11));
    assert_eq!(info.swipes, 20);
    assert_eq!(info.cost_cents, 20 * SWIPE_COST_CENTS);
    let start = App::get_semesterly_meal_swipe_estimate(&day(2024, 9, 1));
    assert_eq!(start.swipes, 0);
    assert_eq!(start.cost_cents, 0);
}
