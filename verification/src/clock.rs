//! Clock times written `HH:MM` and the hours worked between two of them.

use vstd::prelude::*;

use crate::text::{char_digit, digit_char, padded, push_padded, decimal, zeros};

verus! {

/// The number written by two digit characters.
pub open spec fn two_digits(a: char, b: char) -> Option<nat> {
    match (char_digit(a), char_digit(b)) {
        (Some(x), Some(y)) => Some(10 * x + y),
        _ => None,
    }
}

/// The minutes after midnight of a clock time written `HH:MM`, with hours
/// 00 to 23 and minutes 00 to 59; nothing for any other text.
pub open spec fn clock_minutes(s: Seq<char>) -> Option<nat> {
    if s.len() == 5 && s[2] == ':' {
        match (two_digits(s[0], s[1]), two_digits(s[3], s[4])) {
            (Some(h), Some(m)) => if h < 24 && m < 60 {
                Some(60 * h + m)
            } else {
                None
            },
            _ => None,
        }
    } else {
        None
    }
}

/// A number of minutes written as hours and minutes, `HH:MM`, each part
/// at least two digits.
pub open spec fn clock_text(minutes: nat) -> Seq<char> {
    padded(minutes / 60, 2) + seq![':'] + padded(minutes % 60, 2)
}

/// The time worked between a check-in and a check-out time, as `HH:MM`;
/// empty where either time is not a clock time or the check-out comes
/// before the check-in.
pub open spec fn total_hours_text(check_in: Seq<char>, check_out: Seq<char>) -> Seq<char> {
    match (clock_minutes(check_in), clock_minutes(check_out)) {
        (Some(a), Some(b)) => if a <= b {
            clock_text((b - a) as nat)
        } else {
            Seq::empty()
        },
        _ => Seq::empty(),
    }
}

fn digit_of(c: char) -> (r: Option<u32>)
    ensures
        match char_digit(c) {
            Some(v) => r == Some(v as u32),
            None => r is None,
        },
{
    if c == '0' {
        Some(0)
    } else if c == '1' {
        Some(1)
    } else if c == '2' {
        Some(2)
    } else if c == '3' {
        Some(3)
    } else if c == '4' {
        Some(4)
    } else if c == '5' {
        Some(5)
    } else if c == '6' {
        Some(6)
    } else if c == '7' {
        Some(7)
    } else if c == '8' {
        Some(8)
    } else if c == '9' {
        Some(9)
    } else {
        None
    }
}

fn two_digits_of(a: char, b: char) -> (r: Option<u32>)
    ensures
        match two_digits(a, b) {
            Some(v) => r == Some(v as u32),
            None => r is None,
        },
{
    match (digit_of(a), digit_of(b)) {
        (Some(x), Some(y)) => Some(10 * x + y),
        _ => None,
    }
}

/// Reads a clock time written `HH:MM` as minutes after midnight.
pub fn parse_clock(s: &str) -> (r: Option<u32>)
    ensures
        match clock_minutes(s@) {
            Some(v) => r == Some(v as u32),
            None => r is None,
        },
{
    if s.unicode_len() != 5 {
        return None;
    }
    if s.get_char(2) != ':' {
        return None;
    }
    match (two_digits_of(s.get_char(0), s.get_char(1)), two_digits_of(s.get_char(3), s.get_char(4))) {
        (Some(h), Some(m)) => {
            if h < 24 && m < 60 {
                Some(60 * h + m)
            } else {
                None
            }
        },
        _ => None,
    }
}

/// Writes a number of minutes as `HH:MM`.
pub fn format_clock(minutes: u32) -> (t: String)
    ensures
        t@ == clock_text(minutes as nat),
{
    let mut t = String::new();
    push_padded(&mut t, (minutes / 60) as u64, 2);
    proof { reveal_strlit(":"); }
    t.append(":");
    push_padded(&mut t, (minutes % 60) as u64, 2);
    assert(t@ =~= clock_text(minutes as nat));
    t
}

/// The time worked between a check-in and a check-out time, both written
/// `HH:MM`: the difference as `HH:MM`, or empty text where either time
/// cannot be read or the check-out comes before the check-in.
pub fn total_hours_str(check_in: &str, check_out: &str) -> (total: String)
    ensures
        total@ == total_hours_text(check_in@, check_out@),
{
    match (parse_clock(check_in), parse_clock(check_out)) {
        (Some(a), Some(b)) => {
            if a <= b {
                format_clock(b - a)
            } else {
                String::new()
            }
        },
        _ => String::new(),
    }
}

/// A number below 100 is written with two digits as its tens and its ones.
pub proof fn lemma_padded_two(n: nat)
    requires
        n < 100,
    ensures
        padded(n, 2) == seq![digit_char(n / 10), digit_char(n % 10)],
{
    reveal_with_fuel(decimal, 2);
    if n < 10 {
        assert(zeros(1) =~= seq!['0']);
        assert(padded(n, 2) =~= seq![digit_char(n / 10), digit_char(n % 10)]);
    } else {
        assert(decimal(n) =~= seq![digit_char(n / 10), digit_char(n % 10)]);
    }
}

/// A time of day written as `HH:MM` reads back as the same number of
/// minutes.
pub proof fn lemma_clock_round_trip(minutes: nat)
    requires
        minutes < 24 * 60,
    ensures
        clock_minutes(clock_text(minutes)) == Some(minutes),
{
    let h = minutes / 60;
    let m = minutes % 60;
    lemma_padded_two(h);
    lemma_padded_two(m);
    let t = clock_text(minutes);
    assert(t =~= seq![digit_char(h / 10), digit_char(h % 10), ':', digit_char(m / 10), digit_char(m % 10)]);
    assert(two_digits(t[0], t[1]) == Some(h));
    assert(two_digits(t[3], t[4]) == Some(m));
}

/// The total written for two readable times, with the check-out not before
/// the check-in, reads back as the minutes between them.
pub proof fn lemma_total_hours_reads_back(check_in: Seq<char>, check_out: Seq<char>)
    requires
        clock_minutes(check_in) is Some,
        clock_minutes(check_out) is Some,
        clock_minutes(check_in).unwrap() <= clock_minutes(check_out).unwrap(),
    ensures
        clock_minutes(total_hours_text(check_in, check_out)) == Some(
            (clock_minutes(check_out).unwrap() - clock_minutes(check_in).unwrap()) as nat,
        ),
{
    let a = clock_minutes(check_in).unwrap();
    let b = clock_minutes(check_out).unwrap();
    lemma_clock_round_trip((b - a) as nat);
}


/// Two-digit hours below 24 and two-digit minutes below 60, separated by a
/// colon, read as sixty times the hours plus the minutes.
pub proof fn lemma_clock_reads_digits(h: nat, m: nat)
    requires
        h < 24,
        m < 60,
    ensures
        clock_minutes(padded(h, 2) + seq![':'] + padded(m, 2)) == Some(60 * h + m),
{
    lemma_padded_two(h);
    lemma_padded_two(m);
    let t = padded(h, 2) + seq![':'] + padded(m, 2);
    assert(t =~= seq![digit_char(h / 10), digit_char(h % 10), ':', digit_char(m / 10), digit_char(m % 10)]);
    assert(two_digits(t[0], t[1]) == Some(h));
    assert(two_digits(t[3], t[4]) == Some(m));
}

/// A time of day is written as the tens and ones of its whole hours, a
/// colon, and the tens and ones of its remaining minutes.
pub proof fn lemma_clock_writes_digits(n: nat)
    requires
        n < 24 * 60,
    ensures
        clock_text(n) == seq![
            digit_char(n / 60 / 10),
            digit_char(n / 60 % 10),
            ':',
            digit_char(n % 60 / 10),
            digit_char(n % 60 % 10),
        ],
{
    lemma_padded_two(n / 60);
    lemma_padded_two(n % 60);
    assert(clock_text(n) =~= seq![
        digit_char(n / 60 / 10),
        digit_char(n / 60 % 10),
        ':',
        digit_char(n % 60 / 10),
        digit_char(n % 60 % 10),
    ]);
}

} // verus!
