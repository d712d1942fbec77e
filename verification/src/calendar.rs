//! The proleptic Gregorian calendar of a report month. Dates are checked,
//! stepped, named and written by chrono; this module keeps a plain
//! `CalDate` and states what those calls give.

use chrono::Datelike;
use vstd::prelude::*;

use crate::text::padded;

verus! {

/// The earliest year that chrono's `NaiveDate` holds.
pub const MIN_YEAR: i32 = -262143;

/// The latest year that chrono's `NaiveDate` holds.
pub const MAX_YEAR: i32 = 262142;

/// A calendar date as plain numbers.
#[derive(Clone, Copy, Debug, PartialEq, Eq, Structural)]
pub struct CalDate {
    pub year: i32,
    pub month: u32,
    pub day: u32,
}

/// A day of the week, Monday first.
#[derive(Clone, Copy, Debug, PartialEq, Eq, Structural)]
pub enum WeekDay {
    Mon,
    Tue,
    Wed,
    Thu,
    Fri,
    Sat,
    Sun,
}

pub open spec fn is_leap_year(y: int) -> bool {
    y % 4 == 0 && (y % 100 != 0 || y % 400 == 0)
}

pub open spec fn days_in_month(y: int, m: int) -> int {
    if m == 2 {
        if is_leap_year(y) {
            29
        } else {
            28
        }
    } else if m == 4 || m == 6 || m == 9 || m == 11 {
        30
    } else {
        31
    }
}

/// A date that exists in the calendar and in chrono's range of years.
pub open spec fn is_valid_date(y: int, m: int, d: int) -> bool {
    &&& MIN_YEAR <= y <= MAX_YEAR
    &&& 1 <= m <= 12
    &&& 1 <= d <= days_in_month(y, m)
}

pub open spec fn valid(d: CalDate) -> bool {
    is_valid_date(d.year as int, d.month as int, d.day as int)
}

/// The calendar day after `(y, m, d)`.
pub open spec fn next_day(y: int, m: int, d: int) -> (int, int, int) {
    if d < days_in_month(y, m) {
        (y, m, d + 1)
    } else if m < 12 {
        (y, m + 1, 1)
    } else {
        (y + 1, 1, 1)
    }
}

/// The calendar day before `(y, m, d)`.
pub open spec fn prev_day(y: int, m: int, d: int) -> (int, int, int) {
    if d > 1 {
        (y, m, d - 1)
    } else if m > 1 {
        (y, m - 1, days_in_month(y, m - 1))
    } else {
        (y - 1, 12, 31)
    }
}

/// The date with these numbers, where it is one that chrono holds.
pub open spec fn date_of(t: (int, int, int)) -> Option<CalDate> {
    if is_valid_date(t.0, t.1, t.2) {
        Some(CalDate { year: t.0 as i32, month: t.1 as u32, day: t.2 as u32 })
    } else {
        None
    }
}

/// Days from 0001-01-01 to the first day of year `y`.
pub open spec fn days_before_year(y: int) -> int {
    365 * (y - 1) + (y - 1) / 4 - (y - 1) / 100 + (y - 1) / 400
}

/// Days from the first day of year `y` to the first day of month `m`.
pub open spec fn days_before_month(y: int, m: int) -> int {
    let base: int = if m == 1 {
        0
    } else if m == 2 {
        31
    } else if m == 3 {
        59
    } else if m == 4 {
        90
    } else if m == 5 {
        120
    } else if m == 6 {
        151
    } else if m == 7 {
        181
    } else if m == 8 {
        212
    } else if m == 9 {
        243
    } else if m == 10 {
        273
    } else if m == 11 {
        304
    } else {
        334
    };
    if m > 2 && is_leap_year(y) {
        base + 1
    } else {
        base
    }
}

/// Days since Monday of the date `(y, m, d)`: 0001-01-01 was a Monday.
pub open spec fn weekday_number(y: int, m: int, d: int) -> int {
    (days_before_year(y) + days_before_month(y, m) + d - 1) % 7
}

pub open spec fn weekday_from_number(n: int) -> WeekDay {
    if n == 0 {
        WeekDay::Mon
    } else if n == 1 {
        WeekDay::Tue
    } else if n == 2 {
        WeekDay::Wed
    } else if n == 3 {
        WeekDay::Thu
    } else if n == 4 {
        WeekDay::Fri
    } else if n == 5 {
        WeekDay::Sat
    } else {
        WeekDay::Sun
    }
}

pub open spec fn weekday_of(d: CalDate) -> WeekDay {
    weekday_from_number(weekday_number(d.year as int, d.month as int, d.day as int))
}

/// chrono's `%Y`: four digits for years 0 to 9999, otherwise a sign and
/// at least four digits.
pub open spec fn year_text(y: int) -> Seq<char> {
    if 0 <= y <= 9999 {
        padded(y as nat, 4)
    } else if y < 0 {
        seq!['-'] + padded((-y) as nat, 4)
    } else {
        seq!['+'] + padded(y as nat, 4)
    }
}

/// The date as chrono writes it with `%Y-%m-%d`.
pub open spec fn iso_date_text(d: CalDate) -> Seq<char> {
    year_text(d.year as int) + seq!['-'] + padded(d.month as nat, 2) + seq!['-'] + padded(
        d.day as nat,
        2,
    )
}

/// `a` comes no later than `b`.
pub open spec fn date_le(a: CalDate, b: CalDate) -> bool {
    ||| a.year < b.year
    ||| a.year == b.year && a.month < b.month
    ||| a.year == b.year && a.month == b.month && a.day <= b.day
}

/// The Indonesian name of a day of the week.
pub open spec fn day_name(w: WeekDay) -> Seq<char> {
    match w {
        WeekDay::Mon => "Senin"@,
        WeekDay::Tue => "Selasa"@,
        WeekDay::Wed => "Rabu"@,
        WeekDay::Thu => "Kamis"@,
        WeekDay::Fri => "Jumat"@,
        WeekDay::Sat => "Sabtu"@,
        WeekDay::Sun => "Minggu"@,
    }
}

pub open spec fn is_weekend_day(w: WeekDay) -> bool {
    w == WeekDay::Sat || w == WeekDay::Sun
}

/// A month whose first day, and the first day of the month after it,
/// chrono holds: those are the months a report can cover.
pub open spec fn reportable_month(year: int, month: int) -> bool {
    &&& 1 <= month <= 12
    &&& MIN_YEAR <= year
    &&& if month == 12 {
        year + 1 <= MAX_YEAR
    } else {
        year <= MAX_YEAR
    }
}

/// The `day`-th day of the month, as a date.
pub open spec fn day_of_month(year: int, month: int, day: int) -> CalDate {
    CalDate { year: year as i32, month: month as u32, day: day as u32 }
}

/// chrono's `NaiveDate::from_ymd_opt`: a date where the numbers name a
/// day of the calendar within chrono's years, and nothing otherwise.
#[verifier::external_body]
fn chrono_from_ymd(year: i32, month: u32, day: u32) -> (r: Option<CalDate>)
    ensures
        r == date_of((year as int, month as int, day as int)),
{
    match chrono::NaiveDate::from_ymd_opt(year, month, day) {
        Some(d) => Some(CalDate { year: d.year(), month: d.month(), day: d.day() }),
        None => None,
    }
}

/// chrono's `NaiveDate::succ_opt`: the next calendar day, where chrono
/// holds it. (The `NaiveDate` is made from the plain date with
/// `from_ymd_opt`, which holds it by the `requires`.)
#[verifier::external_body]
fn chrono_succ(date: CalDate) -> (r: Option<CalDate>)
    requires
        valid(date),
    ensures
        r == date_of(next_day(date.year as int, date.month as int, date.day as int)),
{
    let d = chrono::NaiveDate::from_ymd_opt(date.year, date.month, date.day).unwrap();
    match d.succ_opt() {
        Some(n) => Some(CalDate { year: n.year(), month: n.month(), day: n.day() }),
        None => None,
    }
}

/// chrono's `NaiveDate::pred_opt`: the previous calendar day, where chrono
/// holds it. (The `NaiveDate` is made as for `chrono_succ`.)
#[verifier::external_body]
fn chrono_pred(date: CalDate) -> (r: Option<CalDate>)
    requires
        valid(date),
    ensures
        r == date_of(prev_day(date.year as int, date.month as int, date.day as int)),
{
    let d = chrono::NaiveDate::from_ymd_opt(date.year, date.month, date.day).unwrap();
    match d.pred_opt() {
        Some(p) => Some(CalDate { year: p.year(), month: p.month(), day: p.day() }),
        None => None,
    }
}

/// chrono's `Datelike::weekday` of a `NaiveDate`: the day of the week in
/// the proleptic Gregorian calendar.
#[verifier::external_body]
fn chrono_weekday(date: CalDate) -> (w: WeekDay)
    requires
        valid(date),
    ensures
        w == weekday_of(date),
{
    let d = chrono::NaiveDate::from_ymd_opt(date.year, date.month, date.day).unwrap();
    match d.weekday() {
        chrono::Weekday::Mon => WeekDay::Mon,
        chrono::Weekday::Tue => WeekDay::Tue,
        chrono::Weekday::Wed => WeekDay::Wed,
        chrono::Weekday::Thu => WeekDay::Thu,
        chrono::Weekday::Fri => WeekDay::Fri,
        chrono::Weekday::Sat => WeekDay::Sat,
        chrono::Weekday::Sun => WeekDay::Sun,
    }
}

/// chrono's `NaiveDate::format` with the pattern `%Y-%m-%d`, written out
/// with `to_string`.
#[verifier::external_body]
fn chrono_iso_text(date: CalDate) -> (s: String)
    requires
        valid(date),
    ensures
        s@ == iso_date_text(date),
{
    let d = chrono::NaiveDate::from_ymd_opt(date.year, date.month, date.day).unwrap();
    d.format("%Y-%m-%d").to_string()
}

/// The date with these numbers, or nothing where the calendar or chrono's
/// range of years has no such day.
pub fn date_from_ymd(year: i32, month: u32, day: u32) -> (r: Option<CalDate>)
    ensures
        r == date_of((year as int, month as int, day as int)),
{
    chrono_from_ymd(year, month, day)
}

/// The day of the week of a date.
pub fn weekday(date: CalDate) -> (w: WeekDay)
    requires
        valid(date),
    ensures
        w == weekday_of(date),
{
    chrono_weekday(date)
}

/// The date written as `YYYY-MM-DD`.
pub fn iso_date(date: CalDate) -> (s: String)
    requires
        valid(date),
    ensures
        s@ == iso_date_text(date),
{
    chrono_iso_text(date)
}

/// Whether `a` comes no later than `b`.
pub fn date_not_after(a: CalDate, b: CalDate) -> (r: bool)
    ensures
        r == date_le(a, b),
{
    if a.year != b.year {
        a.year < b.year
    } else if a.month != b.month {
        a.month < b.month
    } else {
        a.day <= b.day
    }
}

/// The Indonesian name of a day of the week.
pub fn day_name_id(w: WeekDay) -> (name: &'static str)
    ensures
        name@ == day_name(w),
{
    match w {
        WeekDay::Mon => "Senin",
        WeekDay::Tue => "Selasa",
        WeekDay::Wed => "Rabu",
        WeekDay::Thu => "Kamis",
        WeekDay::Fri => "Jumat",
        WeekDay::Sat => "Sabtu",
        WeekDay::Sun => "Minggu",
    }
}

/// Saturday and Sunday.
pub fn is_weekend(w: WeekDay) -> (r: bool)
    ensures
        r == is_weekend_day(w),
{
    match w {
        WeekDay::Sat | WeekDay::Sun => true,
        _ => false,
    }
}

/// Whether a report can cover this month.
pub fn is_reportable_month(year: i32, month: u32) -> (r: bool)
    ensures
        r == reportable_month(year as int, month as int),
{
    1 <= month && month <= 12 && MIN_YEAR <= year && if month == 12 {
        year < MAX_YEAR
    } else {
        year <= MAX_YEAR
    }
}

/// The first and the last day of a month: the first day of the month after
/// it, one day back.
pub fn month_bounds(year: i32, month: u32) -> (r: (CalDate, CalDate))
    requires
        reportable_month(year as int, month as int),
    ensures
        r.0 == day_of_month(year as int, month as int, 1),
        r.1 == day_of_month(year as int, month as int, days_in_month(year as int, month as int)),
{
    let first = chrono_from_ymd(year, month, 1).unwrap();
    let next_month: u32 = if month == 12 { 1 } else { month + 1 };
    let next_month_year: i32 = if month == 12 { year + 1 } else { year };
    let next_first = chrono_from_ymd(next_month_year, next_month, 1).unwrap();
    let last = chrono_pred(next_first).unwrap();
    (first, last)
}

/// Every day of a month, in order: from the first day, one day on at a
/// time, while the day is not after the last one.
pub fn month_days(year: i32, month: u32) -> (days: Vec<CalDate>)
    requires
        reportable_month(year as int, month as int),
    ensures
        days@.len() == days_in_month(year as int, month as int),
        forall|i: int|
            0 <= i < days@.len() ==> #[trigger] days@[i] == day_of_month(
                year as int,
                month as int,
                i + 1,
            ),
{
    let (first, last) = month_bounds(year, month);
    let ghost n = days_in_month(year as int, month as int);
    let ghost after = if month == 12 {
        day_of_month(year + 1, 1, 1)
    } else {
        day_of_month(year as int, month + 1, 1)
    };
    let mut days: Vec<CalDate> = Vec::new();
    let mut current = first;
    while date_not_after(current, last)
        invariant
            reportable_month(year as int, month as int),
            n == days_in_month(year as int, month as int),
            28 <= n <= 31,
            last == day_of_month(year as int, month as int, n),
            after == (if month == 12 {
                day_of_month(year + 1, 1, 1)
            } else {
                day_of_month(year as int, month + 1, 1)
            }),
            days@.len() <= n,
            days@.len() < n ==> current == day_of_month(year as int, month as int, days@.len() as int + 1),
            days@.len() == n ==> current == after,
            forall|i: int|
                0 <= i < days@.len() ==> #[trigger] days@[i] == day_of_month(
                    year as int,
                    month as int,
                    i + 1,
                ),
        decreases n - days@.len(),
    {
        days.push(current);
        let next = chrono_succ(current).unwrap();
        current = next;
    }
    days
}

/// The day after a day is a day whose previous day is the first one.
pub proof fn lemma_prev_of_next(y: int, m: int, d: int)
    requires
        is_valid_date(y, m, d),
    ensures
        ({
            let t = next_day(y, m, d);
            prev_day(t.0, t.1, t.2) == (y, m, d)
        }),
{
}

/// The day before a day is a day whose next day is the first one.
pub proof fn lemma_next_of_prev(y: int, m: int, d: int)
    requires
        is_valid_date(y, m, d),
    ensures
        ({
            let t = prev_day(y, m, d);
            next_day(t.0, t.1, t.2) == (y, m, d)
        }),
{
}

} // verus!
