use vstd::prelude::*;
use crate::strutil::push_char;

verus! {

/// The character for one decimal digit.
pub open spec fn digit_char(d: int) -> char
    recommends
        0 <= d <= 9,
{
    (48 + d) as char
}

/// Decimal digits of `n`, most significant first, with no leading zeros
/// (a single `'0'` for zero).
pub open spec fn spec_decimal(n: int) -> Seq<char>
    decreases n,
{
    if n <= 9 {
        seq![digit_char(n)]
    } else {
        spec_decimal(n / 10) + seq![digit_char(n % 10)]
    }
}

/// Decimal digits of `n` padded with leading zeros to exactly `width` digits;
/// only the `width` least significant digits are kept.
pub open spec fn spec_decimal_padded(n: int, width: nat) -> Seq<char>
    decreases width,
{
    if width == 0 {
        Seq::empty()
    } else {
        spec_decimal_padded(n / 10, (width - 1) as nat) + seq![digit_char(n % 10)]
    }
}

/// `n` written in decimal.
pub fn u64_to_decimal(n: u64) -> (s: String)
    ensures
        s@ == spec_decimal(n as int),
    decreases n,
{
    if n <= 9 {
        let mut s = String::new();
        push_char(&mut s, digit_to_char((n % 10) as u8));
        s
    } else {
        let mut s = u64_to_decimal(n / 10);
        push_char(&mut s, digit_to_char((n % 10) as u8));
        s
    }
}

/// `n` written in decimal, zero padded to `width` digits.
pub fn u64_to_decimal_padded(n: u64, width: u8) -> (s: String)
    ensures
        s@ == spec_decimal_padded(n as int, width as nat),
    decreases width,
{
    if width == 0 {
        String::new()
    } else {
        let mut s = u64_to_decimal_padded(n / 10, width - 1);
        push_char(&mut s, digit_to_char((n % 10) as u8));
        s
    }
}

fn digit_to_char(d: u8) -> (c: char)
    requires
        d <= 9,
    ensures
        c == digit_char(d as int),
{
    (48 + d) as char
}

/// A value in 1e-5 units written with exactly five decimal places, the way
/// the display and the webhook payload show amps and watts.
pub open spec fn spec_fixed5(n: int) -> Seq<char> {
    spec_decimal(n / 100000) + seq!['.'] + spec_decimal_padded(n % 100000, 5)
}

pub fn format_fixed5(n: u64) -> (s: String)
    ensures
        s@ == spec_fixed5(n as int),
{
    let mut s = u64_to_decimal(n / 100000);
    push_char(&mut s, '.');
    let frac = u64_to_decimal_padded(n % 100000, 5);
    s.append(frac.as_str());
    s
}

/// A value in 1e-5 units written with exactly twelve decimal places, the way
/// the plain-text telemetry endpoints show it; the seven extra places are
/// zeros.
pub open spec fn spec_fixed12(n: int) -> Seq<char> {
    spec_decimal(n / 100000) + seq!['.'] + spec_decimal_padded(n % 100000, 5)
        + seq!['0', '0', '0', '0', '0', '0', '0']
}

pub fn format_fixed12(n: u64) -> (s: String)
    ensures
        s@ == spec_fixed12(n as int),
{
    let mut s = format_fixed5(n);
    s.append("0000000");
    proof {
        reveal_strlit("0000000");
        assert(s@ =~= spec_fixed12(n as int));
    }
    s
}

} // verus!
