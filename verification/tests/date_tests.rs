use meal_tracker::date::{date_chars, date_from_parts, prev_day, resolve, today, Date};

fn chars(s: &str) -> Vec<char> {
    s.chars().collect()
}

fn text(v: &[char]) -> String {
    v.iter().collect()
}

#[test]
fn resolve_t_is_today() {
    let d = Date { year: 2024, month: 5, day: 10 };
    assert_eq!(text(&resolve(&chars("t"), d)), "2024-05-10");
}

#[test]
fn resolve_is_case_insensitive() {
    let d = Date { year: 2024, month: 5, day: 10 };
    assert_eq!(resolve(&chars("T"), d), resolve(&chars("t"), d));
    assert_eq!(resolve(&chars("Y"), d), resolve(&chars("y"), d));
}

#[test]
fn resolve_y_is_yesterday() {
    let d = Date { year: 2024, month: 5, day: 10 };
    assert_eq!(text(&resolve(&chars("y"), d)), "2024-05-09");
}

#[test]
fn resolve_y_crosses_month_and_year() {
    let first_of_may = Date { year: 2024, month: 5, day: 1 };
    assert_eq!(text(&resolve(&chars("y"), first_of_may)), "2024-04-30");
    let new_year = Date { year: 2025, month: 1, day: 1 };
    assert_eq!(text(&resolve(&chars("y"), new_year)), "2024-12-31");
}

#[test]
fn resolve_y_knows_leap_years() {
    let first_of_march = Date { year: 2024, month: 3, day: 1 };
    assert_eq!(text(&resolve(&chars("y"), first_of_march)), "2024-02-29");
    let plain_year = Date { year: 2023, month: 3, day: 1 };
    assert_eq!(text(&resolve(&chars("y"), plain_year)), "2023-02-28");
    let century = Date { year: 2100, month: 3, day: 1 };
    assert_eq!(text(&resolve(&chars("y"), century)), "2100-02-28");
}

#[test]
fn resolve_literal_passes_through() {
    let d = Date { year: 2030, month: 12, day: 31 };
    assert_eq!(text(&resolve(&chars("2024-01-05"), d)), "2024-01-05");
    assert_eq!(text(&resolve(&chars("not a date"), d)), "not a date");
    assert_eq!(text(&resolve(&chars(""), d)), "");
    assert_eq!(text(&resolve(&chars("ty"), d)), "ty");
}

#[test]
fn date_chars_zero_pads() {
    let d = Date { year: 987, month: 6, day: 4 };
    assert_eq!(text(&date_chars(d)), "0987-06-04");
}

#[test]
fn prev_day_steps_back_one_day() {
    let d = Date { year: 2024, month: 9, day: 1 };
    let p = prev_day(d);
    assert_eq!((p.year, p.month, p.day), (2024, 8, 31));
}

#[test]
fn date_from_parts_keeps_real_days() {
    let d = date_from_parts(2024, 9, 10);
    assert_eq!((d.year, d.month, d.day), (2024, 9, 10));
    let leap = date_from_parts(2024, 2, 29);
    assert_eq!((leap.year, leap.month, leap.day), (2024, 2, 29));
}

#[test]
fn date_from_parts_falls_back_on_nonsense() {
    let fallback = (2000, 1, 1);
    let bad_day = date_from_parts(2023, 2, 29);
    assert_eq!((bad_day.year, bad_day.month, bad_day.day), fallback);
    let bad_month = date_from_parts(2024, 13, 1);
    assert_eq!((bad_month.year, bad_month.month, bad_month.day), fallback);
    let huge_year = date_from_parts(123456, 1, 1);
    assert_eq!((huge_year.year, huge_year.month, huge_year.day), fallback);
    let year_zero = date_from_parts(0, 1, 1);
    assert_eq!((year_zero.year, year_zero.month, year_zero.day), fallback);
}

#[test]
fn today_is_a_real_calendar_date() {
    let d = today();
    assert!(1 <= d.month && d.month <= 12);
    assert!(1 <= d.day && d.day <= 31);
    assert!(1 <= d.year && d.year <= 9999);
    // The clock's own idea of today must resolve like any other date.
    let s = text(&resolve(&chars("t"), d));
    assert_eq!(s.len(), 10);
    assert_eq!(&s[4..5], "-");
    assert_eq!(&s[7..8], "-");
}
