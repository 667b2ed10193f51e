//! Numbers as text, for the traces and the messages of the machine: decimal,
//! hexadecimal and binary digits, at a fixed width or at the width of the number.

use vstd::prelude::*;

verus! {

/// The digits of the bases up to sixteen.
pub const DIGITS: [char; 16] = [
    '0', '1', '2', '3', '4', '5', '6', '7', '8', '9', 'A', 'B', 'C', 'D', 'E', 'F',
];

/// The digit that stands for `d`.
pub open spec fn spec_digit(d: int) -> char {
    DIGITS@[d]
}

/// The last `width` digits of `value` in base `base`, with zeros in front
/// where the number has fewer.
pub open spec fn fixed_digits(value: int, base: int, width: nat) -> Seq<char>
    decreases width,
{
    if width == 0 {
        Seq::empty()
    } else {
        fixed_digits(value / base, base, (width - 1) as nat).push(spec_digit(value % base))
    }
}

/// The decimal digits of `value`, as many as it has.
pub open spec fn decimal_digits(value: int) -> Seq<char>
    decreases value,
{
    if value < 10 {
        seq![spec_digit(value)]
    } else {
        decimal_digits(value / 10).push(spec_digit(value % 10))
    }
}

/// `value` in hexadecimal at `width` digits behind the prefix `0x`.
pub open spec fn prefixed_hex(value: int, width: nat) -> Seq<char> {
    "0x"@ + fixed_digits(value, 16, width)
}

/// Appends one character to `out`, with `String::push`, which puts the
/// character at the end of the string and leaves the rest as it is.
#[verifier::external_body]
pub(crate) fn push_char(out: &mut String, c: char)
    ensures
        final(out)@ == old(out)@.push(c),
{
    out.push(c)
}

/// The digit that stands for `d`.
pub fn digit(d: u32) -> (c: char)
    requires
        d < 16,
    ensures
        c == spec_digit(d as int),
{
    DIGITS[d as usize]
}

/// Appends the last `width` digits of `value` in base `base` to `out`.
pub fn push_fixed(out: &mut String, value: u32, base: u32, width: u32)
    requires
        2 <= base <= 16,
    ensures
        final(out)@ == old(out)@ + fixed_digits(value as int, base as int, width as nat),
    decreases width,
{
    if width > 0 {
        push_fixed(out, value / base, base, width - 1);
        push_char(out, digit(value % base));
        assert(out@ =~= old(out)@ + fixed_digits(value as int, base as int, width as nat));
    } else {
        assert(out@ =~= old(out)@ + fixed_digits(value as int, base as int, width as nat));
    }
}

/// Appends the decimal digits of `value` to `out`.
pub fn push_decimal(out: &mut String, value: usize)
    ensures
        final(out)@ == old(out)@ + decimal_digits(value as int),
    decreases value,
{
    if value >= 10 {
        push_decimal(out, value / 10);
    }
    push_char(out, digit((value % 10) as u32));
    assert(out@ =~= old(out)@ + decimal_digits(value as int));
}

/// Appends `value` in hexadecimal at `width` digits behind the prefix `0x` to `out`.
pub fn push_prefixed_hex(out: &mut String, value: u32, width: u32)
    ensures
        final(out)@ == old(out)@ + prefixed_hex(value as int, width as nat),
{
    out.append("0x");
    push_fixed(out, value, 16, width);
    assert(out@ =~= old(out)@ + prefixed_hex(value as int, width as nat));
}

} // verus!
