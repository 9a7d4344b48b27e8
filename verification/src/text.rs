//! Decimal rendering of integers, as it appears in header values and in
//! error reports.

use vstd::prelude::*;

verus! {

/// `String::push` appends one character at the end and leaves the rest of
/// the string as it was.
pub assume_specification[ String::push ](s: &mut String, ch: char)
    ensures
        final(s)@ == old(s)@.push(ch),
;

/// The character for one decimal digit.
pub open spec fn digit_char(d: int) -> char {
    if d == 0 {
        '0'
    } else if d == 1 {
        '1'
    } else if d == 2 {
        '2'
    } else if d == 3 {
        '3'
    } else if d == 4 {
        '4'
    } else if d == 5 {
        '5'
    } else if d == 6 {
        '6'
    } else if d == 7 {
        '7'
    } else if d == 8 {
        '8'
    } else {
        '9'
    }
}

/// A natural number in decimal, without sign or leading zeros.
pub open spec fn decimal_text(n: nat) -> Seq<char>
    decreases n,
{
    if n < 10 {
        seq![digit_char(n as int)]
    } else {
        decimal_text(n / 10).push(digit_char((n % 10) as int))
    }
}

/// A natural number in decimal, with a leading zero where it has a single
/// digit.
pub open spec fn two_digit_text(n: nat) -> Seq<char> {
    if n < 10 {
        seq!['0'] + decimal_text(n)
    } else {
        decimal_text(n)
    }
}

/// An integer in decimal, with a minus sign in front where it is negative.
pub open spec fn signed_decimal_text(i: int) -> Seq<char> {
    if i < 0 {
        seq!['-'] + decimal_text((-i) as nat)
    } else {
        decimal_text(i as nat)
    }
}

/// A shape of three axis lengths as a parenthesised tuple: `(2, 3, 4)`.
pub open spec fn shape_text(shape: (nat, nat, nat)) -> Seq<char> {
    seq!['('] + decimal_text(shape.0) + seq![',', ' '] + decimal_text(shape.1) + seq![',', ' ']
        + decimal_text(shape.2) + seq![')']
}

fn digit(d: u64) -> (c: char)
    requires
        d < 10,
    ensures
        c == digit_char(d as int),
{
    if d == 0 {
        '0'
    } else if d == 1 {
        '1'
    } else if d == 2 {
        '2'
    } else if d == 3 {
        '3'
    } else if d == 4 {
        '4'
    } else if d == 5 {
        '5'
    } else if d == 6 {
        '6'
    } else if d == 7 {
        '7'
    } else if d == 8 {
        '8'
    } else {
        '9'
    }
}

/// Appends `n` in decimal to `out`.
pub fn push_decimal(out: &mut String, n: u64)
    ensures
        final(out)@ == old(out)@ + decimal_text(n as nat),
    decreases n,
{
    if n >= 10 {
        push_decimal(out, n / 10);
    }
    out.push(digit(n % 10));
    assert(out@ =~= old(out)@ + decimal_text(n as nat));
}

/// Appends `n` in decimal to `out`, padded with a zero to two digits.
pub fn push_two_digits(out: &mut String, n: u64)
    ensures
        final(out)@ == old(out)@ + two_digit_text(n as nat),
{
    if n < 10 {
        out.push('0');
    }
    push_decimal(out, n);
    assert(out@ =~= old(out)@ + two_digit_text(n as nat));
}

/// Appends `i` in decimal to `out`, with its sign where it is negative.
pub fn push_signed_decimal(out: &mut String, i: i64)
    ensures
        final(out)@ == old(out)@ + signed_decimal_text(i as int),
{
    if i < 0 {
        out.push('-');
        let magnitude: u64 = if i == i64::MIN {
            9_223_372_036_854_775_808u64
        } else {
            (-i) as u64
        };
        push_decimal(out, magnitude);
    } else {
        push_decimal(out, i as u64);
    }
    assert(out@ =~= old(out)@ + signed_decimal_text(i as int));
}

/// Renders a shape the way a tuple of three integers is printed for
/// debugging: `(2, 3, 4)`.
pub fn shape_string(shape: (usize, usize, usize)) -> (out: String)
    ensures
        out@ == shape_text((shape.0 as nat, shape.1 as nat, shape.2 as nat)),
{
    let mut out = String::new();
    out.push('(');
    push_decimal(&mut out, shape.0 as u64);
    out.push(',');
    out.push(' ');
    push_decimal(&mut out, shape.1 as u64);
    out.push(',');
    out.push(' ');
    push_decimal(&mut out, shape.2 as u64);
    out.push(')');
    assert(out@ =~= shape_text((shape.0 as nat, shape.1 as nat, shape.2 as nat)));
    out
}

} // verus!
