//! Rendering a byte count as a human-readable size: the value scaled
//! to the largest binary unit that keeps it under 1024, with two
//! decimal places, rounded to nearest with ties to even — the rounding
//! of two-decimal floating-point formatting.

use vstd::prelude::*;
use vstd::string::StringExecFns;

verus! {

/// The character for one decimal digit.
pub open spec fn digit_char(d: nat) -> char {
    if d == 0 {
        '0'
    } else if d == 1 {
        '1'
    } else if d == 2 {
        '2'
    } else if d == 3 {
        '3'
    } else if d == 4 {
        '4'
    } else if d == 5 {
        '5'
    } else if d == 6 {
        '6'
    } else if d == 7 {
        '7'
    } else if d == 8 {
        '8'
    } else {
        '9'
    }
}

/// The decimal digits of `n`, most significant first, with no leading
/// zero except for `n == 0` itself.
pub open spec fn dec_digits(n: nat) -> Seq<char>
    decreases n,
{
    if n < 10 {
        seq![digit_char(n)]
    } else {
        dec_digits(n / 10).push(digit_char(n % 10))
    }
}

/// The divisor of the unit `bytes` is displayed in: the largest power
/// of 1024, up to the sixth, that keeps the displayed value under 1024.
pub open spec fn size_divisor(bytes: nat) -> nat {
    if bytes < 1024 {
        1
    } else if bytes < 1048576 {
        1024
    } else if bytes < 1073741824 {
        1048576
    } else if bytes < 1099511627776 {
        1073741824
    } else if bytes < 1125899906842624 {
        1099511627776
    } else {
        1125899906842624
    }
}

/// The unit suffix `bytes` is displayed with.
pub open spec fn size_suffix(bytes: nat) -> Seq<char> {
    if bytes < 1024 {
        " B"@
    } else if bytes < 1048576 {
        " KB"@
    } else if bytes < 1073741824 {
        " MB"@
    } else if bytes < 1099511627776 {
        " GB"@
    } else if bytes < 1125899906842624 {
        " TB"@
    } else {
        " PB"@
    }
}

/// `p / d` rounded to the nearest integer, with an exact half going
/// to the even neighbour.
pub open spec fn div_round_half_even(p: nat, d: nat) -> nat {
    let q = p / d;
    let r = p % d;
    if 2 * r < d {
        q
    } else if 2 * r > d {
        q + 1
    } else if q % 2 == 0 {
        q
    } else {
        q + 1
    }
}

/// `bytes` scaled to its display unit, in hundredths, rounded to
/// nearest with ties to even.
pub open spec fn size_hundredths(bytes: nat) -> nat {
    div_round_half_even(bytes * 100, size_divisor(bytes))
}

/// A fraction of a unit, `0 <= f < 100`, as exactly two digits.
pub open spec fn frac_digits(f: nat) -> Seq<char> {
    if f < 10 {
        "0"@ + dec_digits(f)
    } else {
        dec_digits(f)
    }
}

/// What `bytes_to_human_readable` returns: the scaled value with two
/// decimal places and the unit suffix.
pub open spec fn human_readable(bytes: nat) -> Seq<char> {
    dec_digits(size_hundredths(bytes) / 100) + "."@ + frac_digits(size_hundredths(bytes) % 100)
        + size_suffix(bytes)
}

/// One decimal digit as a string slice.
fn digit_str(d: u64) -> (r: &'static str)
    requires
        d < 10,
    ensures
        r@ == seq![digit_char(d as nat)],
{
    proof {
        reveal_strlit("0");
        reveal_strlit("1");
        reveal_strlit("2");
        reveal_strlit("3");
        reveal_strlit("4");
        reveal_strlit("5");
        reveal_strlit("6");
        reveal_strlit("7");
        reveal_strlit("8");
        reveal_strlit("9");
    }
    if d == 0 {
        "0"
    } else if d == 1 {
        "1"
    } else if d == 2 {
        "2"
    } else if d == 3 {
        "3"
    } else if d == 4 {
        "4"
    } else if d == 5 {
        "5"
    } else if d == 6 {
        "6"
    } else if d == 7 {
        "7"
    } else if d == 8 {
        "8"
    } else {
        "9"
    }
}

/// `n` in decimal.
fn dec_string(n: u64) -> (r: String)
    ensures
        r@ == dec_digits(n as nat),
    decreases n,
{
    if n < 10 {
        String::from_str(digit_str(n))
    } else {
        let mut s = dec_string(n / 10);
        s.append(digit_str(n % 10));
        proof {
            assert(s@ =~= dec_digits((n / 10) as nat).push(digit_char((n % 10) as nat)));
        }
        s
    }
}

/// `p / d` rounded to nearest, ties to even, computed exactly.
fn half_even(p: u128, d: u128) -> (h: u64)
    requires
        1 <= d <= 0x4000000000000,
        p as nat <= d as nat * 0x100000000000,
    ensures
        h as nat == div_round_half_even(p as nat, d as nat),
{
    let q: u128 = p / d;
    let r: u128 = p % d;
    proof {
        assert(q as nat <= 0x100000000000) by (nonlinear_arith)
            requires
                1 <= d,
                p as nat <= d as nat * 0x100000000000,
                q == p as nat / d as nat,
        ;
    }
    let h: u128 = if 2 * r < d {
        q
    } else if 2 * r > d {
        q + 1
    } else if q % 2 == 0 {
        q
    } else {
        q + 1
    };
    h as u64
}

/// Render a byte count with the largest binary unit that keeps the
/// value under 1024, with two decimal places rounded to nearest, ties
/// to even: kibibyte-based units under the conventional short names.
pub fn bytes_to_human_readable(bytes_usize: usize) -> (r: String)
    ensures
        r@ == human_readable(bytes_usize as nat),
{
    let bytes: u64 = bytes_usize as u64;
    let p: u128 = (bytes as u128) * 100;
    let (hundredths, suffix): (u64, &'static str) = if bytes < 1024 {
        (half_even(p, 1), " B")
    } else if bytes < 1048576 {
        (half_even(p, 1024), " KB")
    } else if bytes < 1073741824 {
        (half_even(p, 1048576), " MB")
    } else if bytes < 1099511627776 {
        (half_even(p, 1073741824), " GB")
    } else if bytes < 1125899906842624 {
        (half_even(p, 1099511627776), " TB")
    } else {
        (half_even(p, 1125899906842624), " PB")
    };
    proof {
        assert(hundredths as nat == size_hundredths(bytes_usize as nat));
        assert(suffix@ == size_suffix(bytes_usize as nat));
    }
    let mut s = dec_string(hundredths / 100);
    s.append(".");
    if hundredths % 100 < 10 {
        s.append("0");
    }
    let frac = dec_string(hundredths % 100);
    s.append(frac.as_str());
    s.append(suffix);
    proof {
        assert(s@ =~= human_readable(bytes_usize as nat));
    }
    s
}

} // verus!
