//! Human-readable byte counts.
//!
//! A byte count is shown in the largest 1024-based unit that does not exceed
//! it. Plain bytes are shown as an integer; every larger unit is shown with
//! one decimal place. The decimal is the one obtained by taking the count as
//! a double-precision number, dividing by the unit and rounding the exact
//! quotient to the nearest tenth, ties going to the even tenth. Everything
//! here is integer arithmetic: the double-precision step is modelled by
//! [`nearest_double`].

use vstd::prelude::*;
use crate::text::{decimal, push_char, push_decimal};

verus! {

/// Bytes in a kilobyte.
pub const KB: u64 = 1024;

/// Bytes in a megabyte.
pub const MB: u64 = 1_048_576;

/// Bytes in a gigabyte.
pub const GB: u64 = 1_073_741_824;

/// Bytes in a terabyte.
pub const TB: u64 = 1_099_511_627_776;

/// `num / den` rounded to the nearest integer, ties to the even neighbour.
pub open spec fn round_half_even(num: nat, den: nat) -> nat
    recommends
        den > 0,
{
    let q = num / den;
    let r = num % den;
    if 2 * r > den || (2 * r == den && q % 2 == 1) {
        q + 1
    } else {
        q
    }
}

/// Distance between neighbouring double-precision numbers around `b`:
/// doubles carry 53 significant bits, so counts below 2^53 are exact and the
/// spacing doubles with every further bit.
pub open spec fn double_spacing(b: nat) -> nat {
    if b < 0x20_0000_0000_0000 {
        1
    } else if b < 0x40_0000_0000_0000 {
        2
    } else if b < 0x80_0000_0000_0000 {
        4
    } else if b < 0x100_0000_0000_0000 {
        8
    } else if b < 0x200_0000_0000_0000 {
        16
    } else if b < 0x400_0000_0000_0000 {
        32
    } else if b < 0x800_0000_0000_0000 {
        64
    } else if b < 0x1000_0000_0000_0000 {
        128
    } else if b < 0x2000_0000_0000_0000 {
        256
    } else if b < 0x4000_0000_0000_0000 {
        512
    } else if b < 0x8000_0000_0000_0000 {
        1024
    } else {
        2048
    }
}

/// The double-precision number nearest to the 64-bit count `b` (ties to the
/// even significand), as an exact integer.
pub open spec fn nearest_double(b: nat) -> nat
    recommends
        b <= u64::MAX,
{
    round_half_even(b, double_spacing(b)) * double_spacing(b)
}

/// Size in bytes of the unit used for `b`: the largest of 1, KB, MB, GB and
/// TB that does not exceed `b` (1 for an empty count).
pub open spec fn unit_of(b: nat) -> nat {
    if b >= TB {
        TB as nat
    } else if b >= GB {
        GB as nat
    } else if b >= MB {
        MB as nat
    } else if b >= KB {
        KB as nat
    } else {
        1
    }
}

/// True for the five unit sizes.
pub open spec fn is_unit(u: nat) -> bool {
    u == 1 || u == KB || u == MB || u == GB || u == TB
}

/// The label of a unit size.
pub open spec fn unit_label(u: nat) -> Seq<char> {
    if u == TB {
        seq!['T', 'B']
    } else if u == GB {
        seq!['G', 'B']
    } else if u == MB {
        seq!['M', 'B']
    } else if u == KB {
        seq!['K', 'B']
    } else {
        seq!['B']
    }
}

/// The count `b` in tenths of its unit, rounded as the module describes.
pub open spec fn tenths_of(b: nat) -> nat
    recommends
        b <= u64::MAX,
{
    round_half_even(nearest_double(b) * 10, unit_of(b))
}

/// The text shown for `b` bytes.
pub open spec fn size_text(b: nat) -> Seq<char>
    recommends
        b <= u64::MAX,
{
    if b < KB {
        decimal(b) + seq![' '] + unit_label(1)
    } else {
        decimal(tenths_of(b) / 10) + seq!['.'] + decimal(tenths_of(b) % 10) + seq![' ']
            + unit_label(unit_of(b))
    }
}

/// The unit chosen for a count is one of the five units, no unit that fits
/// the count is larger than it, and from one byte on it fits the count
/// itself.
pub proof fn lemma_unit_is_largest_fitting(b: nat, u: nat)
    ensures
        is_unit(unit_of(b)),
        is_unit(u) && u <= b ==> u <= unit_of(b),
        b >= 1 ==> unit_of(b) <= b,
{
}

/// Counts below one kilobyte are shown as a plain integer followed by `B`;
/// all others carry exactly one digit after the decimal point.
pub proof fn lemma_one_decimal_place(b: nat)
    ensures
        b < KB ==> size_text(b) == decimal(b) + seq![' ', 'B'],
        b >= KB ==> decimal(tenths_of(b) % 10).len() == 1,
        b >= KB ==> size_text(b) == decimal(tenths_of(b) / 10) + seq![
            '.',
            crate::text::digit_char(tenths_of(b) % 10),
            ' ',
        ] + unit_label(unit_of(b)),
{
}

/// Rounding to the nearest integer is off by at most half a unit: twice the
/// distance between `num` and the rounded quotient times `den` is at most
/// `den`.
pub proof fn lemma_rounding_is_nearest(num: nat, den: nat)
    requires
        den > 0,
    ensures
        -(den as int) <= 2 * (round_half_even(num, den) * den - num) <= den,
{
    let q = num / den;
    let r = num % den;
    vstd::arithmetic::div_mod::lemma_fundamental_div_mod(num as int, den as int);
    assert((q + 1) * den == q * den + den) by (nonlinear_arith);
    assert(den * q == q * den) by (nonlinear_arith);
}

/// A count of fewer than 54 bits is a double-precision number itself, so
/// its text is the exact quotient rounded to tenths.
pub proof fn lemma_small_counts_are_exact(b: nat)
    requires
        b < 0x20_0000_0000_0000,
    ensures
        nearest_double(b) == b,
        tenths_of(b) == round_half_even(b * 10, unit_of(b)),
{
}

fn spacing_for(b: u64) -> (g: u64)
    ensures
        g == double_spacing(b as nat),
        1 <= g <= 2048,
{
    if b < 0x20_0000_0000_0000 {
        1
    } else if b < 0x40_0000_0000_0000 {
        2
    } else if b < 0x80_0000_0000_0000 {
        4
    } else if b < 0x100_0000_0000_0000 {
        8
    } else if b < 0x200_0000_0000_0000 {
        16
    } else if b < 0x400_0000_0000_0000 {
        32
    } else if b < 0x800_0000_0000_0000 {
        64
    } else if b < 0x1000_0000_0000_0000 {
        128
    } else if b < 0x2000_0000_0000_0000 {
        256
    } else if b < 0x4000_0000_0000_0000 {
        512
    } else if b < 0x8000_0000_0000_0000 {
        1024
    } else {
        2048
    }
}

fn divide_half_even(num: u128, den: u128) -> (q: u128)
    requires
        den > 0,
        num <= 0xffff_ffff_ffff_ffff_ffff_ffff,
        den <= 0xffff_ffff_ffff_ffff,
    ensures
        q == round_half_even(num as nat, den as nat),
        q <= num + 1,
{
    let q: u128 = num / den;
    let r: u128 = num % den;
    if 2 * r > den || (2 * r == den && q % 2 == 1) {
        q + 1
    } else {
        q
    }
}

fn unit_for(bytes: u64) -> (u: u64)
    ensures
        u == unit_of(bytes as nat),
        u > 0,
{
    if bytes >= TB {
        TB
    } else if bytes >= GB {
        GB
    } else if bytes >= MB {
        MB
    } else if bytes >= KB {
        KB
    } else {
        1
    }
}

fn push_unit_label(out: &mut String, unit: u64)
    requires
        is_unit(unit as nat),
    ensures
        final(out)@ == old(out)@ + unit_label(unit as nat),
{
    if unit == TB {
        push_char(out, 'T');
        push_char(out, 'B');
    } else if unit == GB {
        push_char(out, 'G');
        push_char(out, 'B');
    } else if unit == MB {
        push_char(out, 'M');
        push_char(out, 'B');
    } else if unit == KB {
        push_char(out, 'K');
        push_char(out, 'B');
    } else {
        push_char(out, 'B');
    }
}

/// Appends the text for `bytes` to `out`.
pub fn push_size(out: &mut String, bytes: u64)
    ensures
        final(out)@ == old(out)@ + size_text(bytes as nat),
{
    if bytes < KB {
        push_decimal(out, bytes as u128);
        push_char(out, ' ');
        push_unit_label(out, 1);
    } else {
        let g: u64 = spacing_for(bytes);
        let steps: u128 = divide_half_even(bytes as u128, g as u128);
        assert(steps * (g as u128) <= 0xffff_ffff_ffff_ffff_ffff) by (nonlinear_arith)
            requires
                steps <= 0x1_0000_0000_0000_0000,
                g <= 2048,
        ;
        let nearest: u128 = steps * (g as u128);
        let unit: u64 = unit_for(bytes);
        let tenths: u128 = divide_half_even(nearest * 10, unit as u128);
        push_decimal(out, tenths / 10);
        push_char(out, '.');
        push_decimal(out, tenths % 10);
        push_char(out, ' ');
        push_unit_label(out, unit);
    }
}

/// Renders a byte count for people: `0 B`, `1.5 KB`, `1.0 TB`.
pub fn format_size(bytes: u64) -> (s: String)
    ensures
        s@ == size_text(bytes as nat),
{
    let mut s = String::new();
    push_size(&mut s, bytes);
    s
}

} // verus!
