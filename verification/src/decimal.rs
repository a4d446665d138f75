//! Decimal renderings of the integer types, with a character-level
//! specification of the digit string they produce.

use vstd::prelude::*;

verus! {

/// The character for a single decimal digit.
pub open spec fn dec_digit(d: int) -> char
    recommends
        0 <= d < 10,
{
    if d == 0 {
        '0'
    } else if d == 1 {
        '1'
    } else if d == 2 {
        '2'
    } else if d == 3 {
        '3'
    } else if d == 4 {
        '4'
    } else if d == 5 {
        '5'
    } else if d == 6 {
        '6'
    } else if d == 7 {
        '7'
    } else if d == 8 {
        '8'
    } else {
        '9'
    }
}

/// The decimal digit string of a natural number, most significant digit
/// first, with no leading zeros (a lone `0` for zero).
pub open spec fn dec_repr(n: nat) -> Seq<char>
    decreases n,
{
    if n < 10 {
        seq![dec_digit(n as int)]
    } else {
        dec_repr(n / 10) + seq![dec_digit((n % 10) as int)]
    }
}

/// The decimal rendering of a signed integer: a `-` sign in front of the
/// digit string of its magnitude when it is negative.
pub open spec fn int_repr(n: int) -> Seq<char> {
    if n < 0 {
        seq!['-'] + dec_repr((-n) as nat)
    } else {
        dec_repr(n as nat)
    }
}

/// The character for one decimal digit, as executable code.
fn dec_digit_exec(d: u64) -> (c: char)
    requires
        d < 10,
    ensures
        c == dec_digit(d as int),
{
    if d == 0 {
        '0'
    } else if d == 1 {
        '1'
    } else if d == 2 {
        '2'
    } else if d == 3 {
        '3'
    } else if d == 4 {
        '4'
    } else if d == 5 {
        '5'
    } else if d == 6 {
        '6'
    } else if d == 7 {
        '7'
    } else if d == 8 {
        '8'
    } else {
        '9'
    }
}

/// Render an unsigned 64-bit integer in decimal.
pub fn fmt_u64(n: u64) -> (s: String)
    ensures
        s@ == dec_repr(n as nat),
    decreases n,
{
    if n < 10 {
        let mut s = String::new();
        crate::strutil::string_push(&mut s, dec_digit_exec(n));
        proof {
            assert(s@ =~= dec_repr(n as nat));
        }
        s
    } else {
        assert(n / 10 < n && n / 10 >= 1) by (nonlinear_arith)
            requires
                n >= 10,
        ;
        let mut s = fmt_u64(n / 10);
        crate::strutil::string_push(&mut s, dec_digit_exec(n % 10));
        proof {
            assert(s@ =~= dec_repr(n as nat));
        }
        s
    }
}

/// Render a signed 64-bit integer in decimal, with a leading `-` when it
/// is negative.
pub fn fmt_i64(n: i64) -> (s: String)
    ensures
        s@ == int_repr(n as int),
{
    if n >= 0 {
        fmt_u64(n as u64)
    } else {
        // The magnitude of i64::MIN does not fit in an i64, so shift by
        // one before negating and put the unit back as a u64.
        let mag: u64 = (-(n + 1)) as u64 + 1;
        assert(mag as int == -(n as int));
        let digits = fmt_u64(mag);
        let mut s = String::new();
        crate::strutil::string_push(&mut s, '-');
        s.append(digits.as_str());
        proof {
            assert(s@ =~= int_repr(n as int));
        }
        s
    }
}

} // verus!
