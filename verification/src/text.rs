//! Numbers as text: upper-case hexadecimal of fixed width, and decimal.

use vstd::prelude::*;

verus! {

/// The digit that stands for `n` in bases up to 16, letters in upper case.
pub open spec fn digit_char(n: int) -> char {
    if n == 0 {
        '0'
    } else if n == 1 {
        '1'
    } else if n == 2 {
        '2'
    } else if n == 3 {
        '3'
    } else if n == 4 {
        '4'
    } else if n == 5 {
        '5'
    } else if n == 6 {
        '6'
    } else if n == 7 {
        '7'
    } else if n == 8 {
        '8'
    } else if n == 9 {
        '9'
    } else if n == 10 {
        'A'
    } else if n == 11 {
        'B'
    } else if n == 12 {
        'C'
    } else if n == 13 {
        'D'
    } else if n == 14 {
        'E'
    } else {
        'F'
    }
}

/// Two hexadecimal digits, the high one first.
pub open spec fn hex2(v: u8) -> Seq<char> {
    seq![digit_char(v as int / 16), digit_char(v as int % 16)]
}

/// Four hexadecimal digits, the highest first.
pub open spec fn hex4(v: u16) -> Seq<char> {
    seq![
        digit_char(v as int / 4096),
        digit_char(v as int / 256 % 16),
        digit_char(v as int / 16 % 16),
        digit_char(v as int % 16),
    ]
}

/// Decimal digits of `n` without leading zeros; `0` is the single digit zero.
pub open spec fn decimal(n: nat) -> Seq<char>
    decreases n,
{
    if n < 10 {
        seq![digit_char(n as int)]
    } else {
        decimal(n / 10).push(digit_char((n % 10) as int))
    }
}

/// Appends the digit for `n` to `out`.
pub fn push_digit(out: &mut String, n: u8)
    requires
        n < 16,
    ensures
        final(out)@ == old(out)@.push(digit_char(n as int)),
{
    proof {
        reveal_strlit("0");
        reveal_strlit("1");
        reveal_strlit("2");
        reveal_strlit("3");
        reveal_strlit("4");
        reveal_strlit("5");
        reveal_strlit("6");
        reveal_strlit("7");
        reveal_strlit("8");
        reveal_strlit("9");
        reveal_strlit("A");
        reveal_strlit("B");
        reveal_strlit("C");
        reveal_strlit("D");
        reveal_strlit("E");
        reveal_strlit("F");
    }
    let digit: &str = match n {
        0 => "0",
        1 => "1",
        2 => "2",
        3 => "3",
        4 => "4",
        5 => "5",
        6 => "6",
        7 => "7",
        8 => "8",
        9 => "9",
        10 => "A",
        11 => "B",
        12 => "C",
        13 => "D",
        14 => "E",
        _ => "F",
    };
    assert(digit@ =~= seq![digit_char(n as int)]);
    out.append(digit);
    assert(out@ =~= old(out)@.push(digit_char(n as int)));
}

/// Appends `v` as two hexadecimal digits.
pub fn push_hex2(out: &mut String, v: u8)
    ensures
        final(out)@ == old(out)@ + hex2(v),
{
    push_digit(out, v / 16);
    push_digit(out, v % 16);
    assert(out@ =~= old(out)@ + hex2(v));
}

/// Appends `v` as four hexadecimal digits.
pub fn push_hex4(out: &mut String, v: u16)
    ensures
        final(out)@ == old(out)@ + hex4(v),
{
    push_digit(out, (v / 4096) as u8);
    push_digit(out, (v / 256 % 16) as u8);
    push_digit(out, (v / 16 % 16) as u8);
    push_digit(out, (v % 16) as u8);
    assert(out@ =~= old(out)@ + hex4(v));
}

/// Appends `v` in decimal.
pub fn push_decimal(out: &mut String, v: u16)
    ensures
        final(out)@ == old(out)@ + decimal(v as nat),
    decreases v,
{
    if v >= 10 {
        push_decimal(out, v / 10);
    }
    push_digit(out, (v % 10) as u8);
    assert(out@ =~= old(out)@ + decimal(v as nat));
}

/// `prefix` followed by `v` as two hexadecimal digits.
pub fn hex2_text(prefix: &str, v: u8) -> (text: String)
    ensures
        text@ == prefix@ + hex2(v),
{
    let mut text = String::new();
    text.append(prefix);
    push_hex2(&mut text, v);
    assert(text@ =~= prefix@ + hex2(v));
    text
}

/// `prefix` followed by `v` as four hexadecimal digits.
pub fn hex4_text(prefix: &str, v: u16) -> (text: String)
    ensures
        text@ == prefix@ + hex4(v),
{
    let mut text = String::new();
    text.append(prefix);
    push_hex4(&mut text, v);
    assert(text@ =~= prefix@ + hex4(v));
    text
}

} // verus!
