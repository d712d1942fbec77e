use laporan_bulanan::calendar::{
    date_from_ymd, date_not_after, day_name_id, is_reportable_month, is_weekend, iso_date,
    month_bounds, month_days, weekday, CalDate, WeekDay, MAX_YEAR, MIN_YEAR,
};

fn d(year: i32, month: u32, day: u32) -> CalDate {
    CalDate { year, month, day }
}

#[test]
fn valid_dates_are_accepted() {
    assert_eq!(date_from_ymd(2024, 2, 29), Some(d(2024, 2, 29)));
    assert_eq!(date_from_ymd(2000, 2, 29), Some(d(2000, 2, 29)));
    assert_eq!(date_from_ymd(2026, 12, 31), Some(d(2026, 12, 31)));
    assert_eq!(date_from_ymd(MIN_YEAR, 1, 1), Some(d(MIN_YEAR, 1, 1)));
    assert_eq!(date_from_ymd(MAX_YEAR, 12, 31), Some(d(MAX_YEAR, 12, 31)));
}

#[test]
fn invalid_dates_are_refused() {
    assert_eq!(date_from_ymd(2023, 2, 29), None);
    assert_eq!(date_from_ymd(1900, 2, 29), None);
    assert_eq!(date_from_ymd(2026, 4, 31), None);
    assert_eq!(date_from_ymd(2026, 13, 1), None);
    assert_eq!(date_from_ymd(2026, 0, 1), None);
    assert_eq!(date_from_ymd(2026, 1, 0), None);
    assert_eq!(date_from_ymd(MAX_YEAR + 1, 1, 1), None);
    assert_eq!(date_from_ymd(MIN_YEAR - 1, 12, 31), None);
}

#[test]
fn weekdays_of_known_dates() {
    assert_eq!(weekday(d(2024, 1, 1)), WeekDay::Mon);
    assert_eq!(weekday(d(1970, 1, 1)), WeekDay::Thu);
    assert_eq!(weekday(d(2026, 9, 1)), WeekDay::Tue);
    assert_eq!(weekday(d(2000, 2, 29)), WeekDay::Tue);
    assert_eq!(weekday(d(2026, 9, 5)), WeekDay::Sat);
    assert_eq!(weekday(d(2026, 9, 6)), WeekDay::Sun);
    assert_eq!(weekday(d(1, 1, 1)), WeekDay::Mon);
}

#[test]
fn dates_are_written_year_month_day() {
    assert_eq!(iso_date(d(2026, 9, 5)), "2026-09-05");
    assert_eq!(iso_date(d(5, 1, 2)), "0005-01-02");
    assert_eq!(iso_date(d(-1, 1, 1)), "-0001-01-01");
    assert_eq!(iso_date(d(10000, 12, 31)), "+10000-12-31");
}

#[test]
fn day_names_are_indonesian() {
    assert_eq!(day_name_id(WeekDay::Mon), "Senin");
    assert_eq!(day_name_id(WeekDay::Tue), "Selasa");
    assert_eq!(day_name_id(WeekDay::Wed), "Rabu");
    assert_eq!(day_name_id(WeekDay::Thu), "Kamis");
    assert_eq!(day_name_id(WeekDay::Fri), "Jumat");
    assert_eq!(day_name_id(WeekDay::Sat), "Sabtu");
    assert_eq!(day_name_id(WeekDay::Sun), "Minggu");
    assert!(is_weekend(WeekDay::Sat));
    assert!(is_weekend(WeekDay::Sun));
    assert!(!is_weekend(WeekDay::Fri));
}

#[test]
fn month_bounds_find_the_last_day() {
    assert_eq!(month_bounds(2024, 2), (d(2024, 2, 1), d(2024, 2, 29)));
    assert_eq!(month_bounds(2023, 2), (d(2023, 2, 1), d(2023, 2, 28)));
    assert_eq!(month_bounds(2025, 12), (d(2025, 12, 1), d(2025, 12, 31)));
    assert_eq!(month_bounds(2026, 9), (d(2026, 9, 1), d(2026, 9, 30)));
}

#[test]
fn month_days_step_one_day_at_a_time() {
    let days = month_days(2026, 9);
    assert_eq!(days.len(), 30);
    for (i, day) in days.iter().enumerate() {
        assert_eq!(*day, d(2026, 9, i as u32 + 1));
    }
    assert_eq!(month_days(2024, 2).len(), 29);
    assert_eq!(month_days(2025, 12).last(), Some(&d(2025, 12, 31)));
}

#[test]
fn reportable_months() {
    assert!(is_reportable_month(2026, 9));
    assert!(is_reportable_month(2026, 12));
    assert!(!is_reportable_month(2026, 0));
    assert!(!is_reportable_month(2026, 13));
    assert!(!is_reportable_month(MAX_YEAR, 12));
    assert!(is_reportable_month(MAX_YEAR, 11));
    assert!(!is_reportable_month(MIN_YEAR - 1, 5));
}

#[test]
fn date_order() {
    assert!(date_not_after(d(2026, 9, 30), d(2026, 9, 30)));
    assert!(date_not_after(d(2026, 9, 30), d(2026, 10, 1)));
    assert!(!date_not_after(d(2026, 10, 1), d(2026, 9, 30)));
    assert!(date_not_after(d(2025, 12, 31), d(2026, 1, 1)));
}

/// The weekday rule of the calendar module, written out in plain Rust:
/// days since 0001-01-01 (a Monday), modulo seven.
fn weekday_by_rule(y: i64, m: i64, d: i64) -> i64 {
    let leap = y.rem_euclid(4) == 0 && (y.rem_euclid(100) != 0 || y.rem_euclid(400) == 0);
    let before_month = [0, 31, 59, 90, 120, 151, 181, 212, 243, 273, 304, 334][(m - 1) as usize]
        + if m > 2 && leap { 1 } else { 0 };
    let p = y - 1;
    let before_year = 365 * p + p.div_euclid(4) - p.div_euclid(100) + p.div_euclid(400);
    (before_year + before_month + d - 1).rem_euclid(7)
}

fn weekday_index(w: WeekDay) -> i64 {
    match w {
        WeekDay::Mon => 0,
        WeekDay::Tue => 1,
        WeekDay::Wed => 2,
        WeekDay::Thu => 3,
        WeekDay::Fri => 4,
        WeekDay::Sat => 5,
        WeekDay::Sun => 6,
    }
}

#[test]
fn weekdays_follow_the_stated_rule() {
    assert_eq!(weekday(d(-308, 3, 14)), WeekDay::Fri);
    for year in (-800..2800).step_by(7).chain([MIN_YEAR, MAX_YEAR, 0, 1600, 1900, 2000, 2100]) {
        for month in 1..=12u32 {
            for day in [1u32, 15, 28] {
                assert_eq!(
                    weekday_index(weekday(d(year, month, day))),
                    weekday_by_rule(year as i64, month as i64, day as i64),
                    "{year}-{month}-{day}"
                );
            }
        }
    }
}
