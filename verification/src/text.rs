//! Small text-building helpers: appending characters and decimal renderings
//! of counters to strings and byte buffers.

use vstd::prelude::*;

verus! {

/// The ASCII digit character for `d`.
pub open spec fn spec_digit_char(d: int) -> char {
    if d == 0 {
        '0'
    } else if d == 1 {
        '1'
    } else if d == 2 {
        '2'
    } else if d == 3 {
        '3'
    } else if d == 4 {
        '4'
    } else if d == 5 {
        '5'
    } else if d == 6 {
        '6'
    } else if d == 7 {
        '7'
    } else if d == 8 {
        '8'
    } else {
        '9'
    }
}

/// The decimal rendering of `n`, most significant digit first.
pub open spec fn spec_decimal_digits(n: u64) -> Seq<char>
    decreases n,
{
    if n < 10 {
        seq![spec_digit_char(n as int)]
    } else {
        spec_decimal_digits((n / 10) as u64).push(spec_digit_char((n % 10) as int))
    }
}

/// The ASCII digit byte for `d`.
pub open spec fn spec_digit_byte(d: int) -> u8 {
    (48 + d) as u8
}

/// The decimal rendering of `n` as ASCII bytes.
pub open spec fn spec_decimal_bytes(n: u64) -> Seq<u8>
    decreases n,
{
    if n < 10 {
        seq![spec_digit_byte(n as int)]
    } else {
        spec_decimal_bytes((n / 10) as u64).push(spec_digit_byte((n % 10) as int))
    }
}

/// Relies on `String::push`: appends exactly the given character.
#[verifier::external_body]
pub(crate) fn string_push_char(s: &mut String, c: char)
    ensures
        final(s)@ == old(s)@.push(c),
{
    s.push(c);
}

/// Relies on `String::push_str`: appends exactly the given string slice.
#[verifier::external_body]
pub(crate) fn string_push_str(s: &mut String, t: &str)
    ensures
        final(s)@ == old(s)@ + t@,
{
    s.push_str(t);
}

fn digit_char(d: u64) -> (c: char)
    requires
        d < 10,
    ensures
        c == spec_digit_char(d as int),
{
    if d == 0 {
        '0'
    } else if d == 1 {
        '1'
    } else if d == 2 {
        '2'
    } else if d == 3 {
        '3'
    } else if d == 4 {
        '4'
    } else if d == 5 {
        '5'
    } else if d == 6 {
        '6'
    } else if d == 7 {
        '7'
    } else if d == 8 {
        '8'
    } else {
        '9'
    }
}

/// Append the decimal rendering of `n` to a string.
pub fn push_decimal(s: &mut String, n: u64)
    ensures
        final(s)@ == old(s)@ + spec_decimal_digits(n),
    decreases n,
{
    if n < 10 {
        string_push_char(s, digit_char(n));
        proof {
            assert(old(s)@.push(spec_digit_char(n as int)) =~= old(s)@ + spec_decimal_digits(n));
        }
    } else {
        push_decimal(s, n / 10);
        string_push_char(s, digit_char(n % 10));
        proof {
            assert((old(s)@ + spec_decimal_digits(n / 10)).push(
                spec_digit_char((n % 10) as int),
            ) =~= old(s)@ + spec_decimal_digits(n));
        }
    }
}

/// Append the decimal rendering of `n` to a byte buffer.
pub fn push_decimal_bytes(v: &mut Vec<u8>, n: u64)
    ensures
        final(v)@ == old(v)@ + spec_decimal_bytes(n),
    decreases n,
{
    if n < 10 {
        v.push((48 + n) as u8);
        proof {
            assert(old(v)@.push(spec_digit_byte(n as int)) =~= old(v)@ + spec_decimal_bytes(n));
        }
    } else {
        push_decimal_bytes(v, n / 10);
        v.push((48 + n % 10) as u8);
        proof {
            assert((old(v)@ + spec_decimal_bytes(n / 10)).push(
                spec_digit_byte((n % 10) as int),
            ) =~= old(v)@ + spec_decimal_bytes(n));
        }
    }
}

} // verus!
