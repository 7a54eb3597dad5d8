//! Compact binary-unit rendering of byte counts, rates and uptimes.
//!
//! Sizes above one kibibyte are shown with one decimal, exactly as Rust's
//! `{:.1}` formatting shows the `f64` quotient `bytes as f64 / unit as f64`:
//! the byte count is first rounded to the nearest `f64` (ties to even), and
//! the quotient is then rounded to tenths (ties to even). The arithmetic here
//! is done on integers, so every step is exact and proved.

use vstd::prelude::*;
use crate::text::{decimal, digit, digit_char, push_char, push_decimal};

verus! {

pub const KIB: u64 = 1024;
pub const MIB: u64 = 1048576;
pub const GIB: u64 = 1073741824;

/// `2^e`.
pub open spec fn pow2_nat(e: nat) -> nat
    decreases e,
{
    if e == 0 {
        1
    } else {
        2 * pow2_nat((e - 1) as nat)
    }
}

/// How many low bits of `b` an `f64` (53-bit significand) cannot hold.
pub open spec fn f64_excess_bits(b: nat) -> nat
    decreases b,
{
    if b < 0x20_0000_0000_0000 {
        0
    } else {
        1 + f64_excess_bits(b / 2)
    }
}

/// Rounds `v` to a multiple of `q`, to the nearest, ties to the even multiple.
pub open spec fn round_half_even(v: nat, q: nat) -> nat
    recommends
        q > 0,
{
    let quotient = v / q;
    let rest = v % q;
    if 2 * rest < q {
        quotient
    } else if 2 * rest > q {
        quotient + 1
    } else if quotient % 2 == 0 {
        quotient
    } else {
        quotient + 1
    }
}

/// The value of `b as f64`: `b` rounded to the nearest representable double.
pub open spec fn nearest_f64(b: nat) -> nat {
    let q = pow2_nat(f64_excess_bits(b));
    round_half_even(b, q) * q
}

/// `value / unit` rounded to tenths, as a count of tenths.
pub open spec fn tenths(value: nat, unit: nat) -> nat {
    round_half_even(value * 10, unit)
}

/// A count of tenths rendered with exactly one decimal, as in `12.5`.
pub open spec fn one_decimal(t: nat) -> Seq<char> {
    decimal(t / 10) + seq!['.', digit_char((t % 10) as int)]
}

/// The text `format_bytes` produces for a byte count.
pub open spec fn spec_format_bytes(bytes: nat) -> Seq<char> {
    if bytes >= GIB {
        one_decimal(tenths(nearest_f64(bytes), GIB as nat)) + " GB"@
    } else if bytes >= MIB {
        one_decimal(tenths(nearest_f64(bytes), MIB as nat)) + " MB"@
    } else if bytes >= KIB {
        one_decimal(tenths(nearest_f64(bytes), KIB as nat)) + " KB"@
    } else {
        decimal(bytes) + " B"@
    }
}

/// The text `format_uptime` produces for a number of seconds.
pub open spec fn spec_format_uptime(seconds: nat) -> Seq<char> {
    let hours = seconds / 3600;
    if hours >= 24 {
        decimal(hours / 24) + "d "@ + decimal(hours % 24) + "h"@
    } else {
        decimal(hours) + "h"@
    }
}

/// An uptime of a day or more reads as whole days and the hours left over:
/// the shown days times 24 plus the shown hours are the whole hours elapsed,
/// and the shown hours stay below 24; a shorter uptime reads as its whole
/// hours.
pub proof fn law_uptime_reads_days_and_hours(seconds: nat)
    ensures
        seconds >= 86400 ==> exists|d: nat, h: nat|
            #![trigger decimal(d), decimal(h)]
            d >= 1 && h < 24 && d * 24 + h == seconds / 3600 && spec_format_uptime(seconds) == decimal(d) + "d "@
                + decimal(h) + "h"@,
        seconds < 86400 ==> spec_format_uptime(seconds) == decimal(seconds / 3600) + "h"@,
{
    let hours = seconds / 3600;
    if seconds >= 86400 {
        assert(hours >= 24);
        let d = hours / 24;
        let h = hours % 24;
        assert(d * 24 + h == hours);
        assert(spec_format_uptime(seconds) == decimal(d) + "d "@ + decimal(h) + "h"@);
    } else {
        assert(hours < 24);
    }
}

proof fn lemma_excess_small(b: nat)
    requires
        b < 0x20_0000_0000_0000,
    ensures
        f64_excess_bits(b) == 0,
        nearest_f64(b) == b,
{
    assert(pow2_nat(0) == 1);
}

/// Computes `b as f64` as an exact integer.
fn nearest_f64_exec(b: u64) -> (f: u128)
    ensures
        f == nearest_f64(b as nat),
        f <= 0x1_0000_0000_0000_1000,
{
    let mut x: u64 = b;
    let mut q: u64 = 1;
    let ghost mut k: nat = 0;
    proof {
        assert(pow2_nat(0) == 1);
    }
    while x >= 0x20_0000_0000_0000
        invariant
            q == pow2_nat(k),
            1 <= q < 4096,
            x == b / q,
            f64_excess_bits(b as nat) == k + f64_excess_bits(x as nat),
            x as int * q as int <= b,
        decreases x,
    {
        proof {
            vstd::arithmetic::div_mod::lemma_div_denominator(b as int, q as int, 2);
            assert(pow2_nat(k + 1) == 2 * pow2_nat(k));
            assert(x as int * q as int >= 0x20_0000_0000_0000 * q as int) by (nonlinear_arith)
                requires
                    x >= 0x20_0000_0000_0000,
                    q > 0,
            ;
            assert(q < 2048) by (nonlinear_arith)
                requires
                    x as int * q as int <= b,
                    x as int * q as int >= 0x20_0000_0000_0000 * q as int,
                    b < 0x1_0000_0000_0000_0000,
                    q >= 1,
            ;
        }
        x = x / 2;
        q = q * 2;
        proof {
            k = k + 1;
            assert(x as int * q as int <= b) by (nonlinear_arith)
                requires
                    x == b / q,
                    q > 0,
            ;
        }
    }
    let quotient: u64 = b / q;
    let rest: u64 = b % q;
    let rounded: u128 = if 2 * (rest as u128) < q as u128 {
        quotient as u128
    } else if 2 * (rest as u128) > q as u128 {
        quotient as u128 + 1
    } else if quotient % 2 == 0 {
        quotient as u128
    } else {
        quotient as u128 + 1
    };
    proof {
        assert(f64_excess_bits(x as nat) == 0);
        assert(quotient as int * q as int <= b) by (nonlinear_arith)
            requires
                quotient == b / q,
                q > 0,
        ;
        assert(rounded as int * q as int <= quotient as int * q as int + q as int) by (nonlinear_arith)
            requires
                rounded <= quotient + 1,
                q > 0,
        ;
    }
    let f: u128 = rounded * q as u128;
    f
}

/// `value / unit` rounded to tenths (ties to even), as a count of tenths.
fn tenths_exec(value: u128, unit: u64) -> (t: u128)
    requires
        value <= 0x1_0000_0000_0000_1000,
        unit >= KIB,
    ensures
        t == tenths(value as nat, unit as nat),
        t < 0x1_0000_0000_0000_0000,
{
    let scaled: u128 = value * 10;
    let quotient: u128 = scaled / (unit as u128);
    let rest: u128 = scaled % (unit as u128);
    proof {
        assert(quotient <= 0x1_0000_0000_0000_1000int / 100) by (nonlinear_arith)
            requires
                quotient == scaled / (unit as u128),
                scaled <= 10 * 0x1_0000_0000_0000_1000,
                unit >= 1024,
        ;
    }
    if 2 * rest < unit as u128 {
        quotient
    } else if 2 * rest > unit as u128 {
        quotient + 1
    } else if quotient % 2 == 0 {
        quotient
    } else {
        quotient + 1
    }
}

/// Appends a count of tenths with one decimal.
fn push_one_decimal(s: &mut String, t: u128)
    requires
        t < 0x1_0000_0000_0000_0000,
    ensures
        final(s)@ == old(s)@ + one_decimal(t as nat),
{
    let whole: u128 = t / 10;
    let frac: u128 = t % 10;
    let ghost start = s@;
    push_decimal(s, whole);
    push_char(s, '.');
    push_char(s, digit(frac));
    assert(s@ =~= start + one_decimal(t as nat));
}

/// Renders a byte count in compact binary units: `B`, `KB`, `MB` or `GB`.
pub fn format_bytes(bytes: u64) -> (out: String)
    ensures
        out@ == spec_format_bytes(bytes as nat),
{
    let mut out = String::new();
    if bytes >= GIB {
        let f = nearest_f64_exec(bytes);
        push_one_decimal(&mut out, tenths_exec(f, GIB));
        out.append(" GB");
    } else if bytes >= MIB {
        proof { lemma_excess_small(bytes as nat); }
        push_one_decimal(&mut out, tenths_exec(bytes as u128, MIB));
        out.append(" MB");
    } else if bytes >= KIB {
        proof { lemma_excess_small(bytes as nat); }
        push_one_decimal(&mut out, tenths_exec(bytes as u128, KIB));
        out.append(" KB");
    } else {
        push_decimal(&mut out, bytes as u128);
        out.append(" B");
    }
    out
}

/// Renders a transfer rate: the byte count followed by `/s`.
pub fn format_rate(bytes_per_second: u64) -> (out: String)
    ensures
        out@ == spec_format_bytes(bytes_per_second as nat) + "/s"@,
{
    let mut out = format_bytes(bytes_per_second);
    out.append("/s");
    out
}

/// Renders an uptime as whole hours, switching to days and hours from a day on.
pub fn format_uptime(seconds: u64) -> (out: String)
    ensures
        out@ == spec_format_uptime(seconds as nat),
{
    let hours = seconds / 3600;
    let mut out = String::new();
    if hours >= 24 {
        push_decimal(&mut out, (hours / 24) as u128);
        out.append("d ");
        push_decimal(&mut out, (hours % 24) as u128);
        out.append("h");
    } else {
        push_decimal(&mut out, hours as u128);
        out.append("h");
    }
    out
}

} // verus!
