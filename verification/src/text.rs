//! Decimal text of numbers, as std's `{}` and `{:0w}` write them.

use vstd::prelude::*;

verus! {

/// The character of a decimal digit.
pub open spec fn digit_char(d: nat) -> char {
    if d == 0 {
        '0'
    } else if d == 1 {
        '1'
    } else if d == 2 {
        '2'
    } else if d == 3 {
        '3'
    } else if d == 4 {
        '4'
    } else if d == 5 {
        '5'
    } else if d == 6 {
        '6'
    } else if d == 7 {
        '7'
    } else if d == 8 {
        '8'
    } else {
        '9'
    }
}

/// The value of a decimal digit character, if it is one.
pub open spec fn char_digit(c: char) -> Option<nat> {
    if c == '0' {
        Some(0)
    } else if c == '1' {
        Some(1)
    } else if c == '2' {
        Some(2)
    } else if c == '3' {
        Some(3)
    } else if c == '4' {
        Some(4)
    } else if c == '5' {
        Some(5)
    } else if c == '6' {
        Some(6)
    } else if c == '7' {
        Some(7)
    } else if c == '8' {
        Some(8)
    } else if c == '9' {
        Some(9)
    } else {
        None
    }
}

/// The decimal digits of `n`, most significant first, without leading zeros.
pub open spec fn decimal(n: nat) -> Seq<char>
    decreases n,
{
    if n < 10 {
        seq![digit_char(n)]
    } else {
        decimal(n / 10).push(digit_char(n % 10))
    }
}

/// `k` zero characters.
pub open spec fn zeros(k: nat) -> Seq<char> {
    Seq::new(k, |_i: int| '0')
}

/// `s` with zeros in front of it up to `width` characters; never shortened.
pub open spec fn zero_pad(s: Seq<char>, width: nat) -> Seq<char> {
    if s.len() >= width {
        s
    } else {
        zeros((width - s.len()) as nat) + s
    }
}

/// `n` in decimal, zero-padded to `width` characters (std's `{:0width$}`).
pub open spec fn padded(n: nat, width: nat) -> Seq<char> {
    zero_pad(decimal(n), width)
}

/// A signed integer as std's `{:0width$}` writes it: the sign counts
/// towards the width and the zeros stand behind it.
pub open spec fn signed_padded(n: int, width: nat) -> Seq<char> {
    if n < 0 {
        seq!['-'] + zero_pad(decimal((-n) as nat), if width == 0 { 0 } else { (width - 1) as nat })
    } else {
        padded(n as nat, width)
    }
}

/// Every digit character reads back as its digit.
pub proof fn lemma_digit_round_trip(d: nat)
    requires
        d < 10,
    ensures
        char_digit(digit_char(d)) == Some(d),
{
}

/// The text of one decimal digit.
pub fn digit_text(d: u64) -> (t: &'static str)
    requires
        d < 10,
    ensures
        t@ == seq![digit_char(d as nat)],
{
    if d == 0 {
        proof { reveal_strlit("0"); }
        "0"
    } else if d == 1 {
        proof { reveal_strlit("1"); }
        "1"
    } else if d == 2 {
        proof { reveal_strlit("2"); }
        "2"
    } else if d == 3 {
        proof { reveal_strlit("3"); }
        "3"
    } else if d == 4 {
        proof { reveal_strlit("4"); }
        "4"
    } else if d == 5 {
        proof { reveal_strlit("5"); }
        "5"
    } else if d == 6 {
        proof { reveal_strlit("6"); }
        "6"
    } else if d == 7 {
        proof { reveal_strlit("7"); }
        "7"
    } else if d == 8 {
        proof { reveal_strlit("8"); }
        "8"
    } else {
        proof { reveal_strlit("9"); }
        "9"
    }
}

/// Appends `n` in decimal to `s`.
pub fn push_decimal(s: &mut String, n: u64)
    ensures
        final(s)@ == old(s)@ + decimal(n as nat),
    decreases n,
{
    let ghost s0 = s@;
    if n >= 10 {
        push_decimal(s, n / 10);
    }
    s.append(digit_text(n % 10));
    proof {
        if n >= 10 {
            assert(decimal(n as nat) == decimal((n / 10) as nat).push(digit_char((n % 10) as nat)));
            assert(s@ =~= s0 + decimal(n as nat));
        } else {
            assert(s@ =~= s0 + decimal(n as nat));
        }
    }
}

/// Appends `n` in decimal, zero-padded to `width` characters, to `s`.
pub fn push_padded(s: &mut String, n: u64, width: usize)
    ensures
        final(s)@ == old(s)@ + padded(n as nat, width as nat),
{
    let mut digits = String::new();
    push_decimal(&mut digits, n);
    assert(digits@ =~= decimal(n as nat));
    let len = digits.as_str().unicode_len();
    let ghost s0 = s@;
    let mut i = len;
    proof { reveal_strlit("0"); }
    while i < width
        invariant
            len == decimal(n as nat).len(),
            len <= i,
            i <= width || i == len,
            s@ == s0 + zeros((i - len) as nat),
        decreases width - i,
    {
        proof { reveal_strlit("0"); }
        s.append("0");
        i = i + 1;
        assert(zeros((i - len) as nat) =~= zeros((i - 1 - len) as nat).push('0'));
        assert(s@ =~= s0 + zeros((i - len) as nat));
    }
    s.append(digits.as_str());
    proof {
        if len >= width {
            assert(zeros(0) =~= Seq::<char>::empty());
            assert(s@ =~= s0 + padded(n as nat, width as nat));
        } else {
            assert(i == width);
            assert(s@ =~= s0 + padded(n as nat, width as nat));
        }
    }
}

/// Appends `n` as std's `{:0width$}` writes a signed integer.
pub fn push_signed_padded(s: &mut String, n: i64, width: usize)
    requires
        n > i64::MIN,
    ensures
        final(s)@ == old(s)@ + signed_padded(n as int, width as nat),
{
    if n < 0 {
        let ghost s0 = s@;
        proof { reveal_strlit("-"); }
        s.append("-");
        let w = if width == 0 { 0 } else { width - 1 };
        push_padded(s, (-n) as u64, w);
        assert(s@ =~= s0 + signed_padded(n as int, width as nat));
    } else {
        push_padded(s, n as u64, width);
    }
}

} // verus!
