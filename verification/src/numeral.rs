//! Numbers as text: signed decimal numerals and hexadecimal addresses.

use vstd::prelude::*;

verus! {

/// The character of one digit below sixteen: `0` to `9`, then `A` to `F`.
pub open spec fn digit_char(d: int) -> char {
    if d < 10 {
        ('0' as int + d) as char
    } else {
        ('A' as int + d - 10) as char
    }
}

/// The decimal digits of `n`, most significant first, with no leading zero
/// (the single digit `0` for zero).
pub open spec fn decimal_digits(n: nat) -> Seq<char>
    decreases n,
{
    if n < 10 {
        seq![digit_char(n as int)]
    } else {
        decimal_digits(n / 10).push(digit_char((n % 10) as int))
    }
}

/// The upper-case hexadecimal digits of `n`, most significant first, with no
/// leading zero (the single digit `0` for zero).
pub open spec fn hex_digits(n: nat) -> Seq<char>
    decreases n,
{
    if n < 16 {
        seq![digit_char(n as int)]
    } else {
        hex_digits(n / 16).push(digit_char((n % 16) as int))
    }
}

/// A signed number in decimal: a minus sign before the digits of a negative one.
pub open spec fn decimal(value: int) -> Seq<char> {
    if value < 0 {
        seq!['-'] + decimal_digits((-value) as nat)
    } else {
        decimal_digits(value as nat)
    }
}

/// An address in hexadecimal: `0x`, then the upper-case digits, padded with a
/// zero to two digits.
pub open spec fn hex_address(value: nat) -> Seq<char> {
    if value < 16 {
        seq!['0', 'x', '0'] + hex_digits(value)
    } else {
        seq!['0', 'x'] + hex_digits(value)
    }
}

/// `String::push` appends the one character to the end of the string.
pub assume_specification[ String::push ](text: &mut String, ch: char)
    ensures
        final(text)@ == old(text)@.push(ch),
;

fn digit(d: u8) -> (c: char)
    requires
        d < 16,
    ensures
        c == digit_char(d as int),
{
    if d < 10 {
        (48u8 + d) as char
    } else {
        (55u8 + d) as char
    }
}

fn push_decimal_digits(out: &mut String, n: u32)
    ensures
        final(out)@ == old(out)@ + decimal_digits(n as nat),
    decreases n,
{
    if n >= 10 {
        push_decimal_digits(out, n / 10);
    }
    out.push(digit((n % 10) as u8));
    assert(out@ =~= old(out)@ + decimal_digits(n as nat));
}

fn push_hex_digits(out: &mut String, n: usize)
    ensures
        final(out)@ == old(out)@ + hex_digits(n as nat),
    decreases n,
{
    if n >= 16 {
        push_hex_digits(out, n / 16);
    }
    out.push(digit((n % 16) as u8));
    assert(out@ =~= old(out)@ + hex_digits(n as nat));
}

/// Appends `value` in decimal.
pub(crate) fn push_decimal(out: &mut String, value: i32)
    ensures
        final(out)@ == old(out)@ + decimal(value as int),
{
    if value < 0 {
        out.push('-');
        push_decimal_digits(out, (-(value as i64)) as u32);
        assert(out@ =~= old(out)@ + decimal(value as int));
    } else {
        push_decimal_digits(out, value as u32);
    }
}

/// Appends `value` as a hexadecimal address.
pub(crate) fn push_hex_address(out: &mut String, value: usize)
    ensures
        final(out)@ == old(out)@ + hex_address(value as nat),
{
    out.push('0');
    out.push('x');
    if value < 16 {
        out.push('0');
    }
    push_hex_digits(out, value);
    assert(out@ =~= old(out)@ + hex_address(value as nat));
}

} // verus!
