//! Human-readable byte rates.
//!
//! A rate below 1024 bytes per second is written as a whole number of bytes.
//! A larger rate is scaled by the largest power of 1024 that does not exceed
//! it and written with one decimal place, rounded to the nearest tenth (an
//! exact half goes to the even tenth).

use vstd::prelude::*;
use crate::decimal::{decimal, is_digit, lemma_decimal_digits, push_decimal};

verus! {

/// The scaling base: each unit is 1024 times the one before it.
pub const UNIT_BASE: u64 = 1024;

/// The index of the largest unit, `EB/s`; a 64-bit rate never needs a larger one.
pub const LARGEST_UNIT: u64 = 6;

/// The number of bytes in one unit of index `k`: 1024 to the power `k`.
pub open spec fn unit_size(k: nat) -> nat
    decreases k,
{
    if k == 0 {
        1
    } else {
        1024 * unit_size((k - 1) as nat)
    }
}

/// The index of the unit in which a rate of `b` bytes per second is written:
/// the largest `k`, up to [`LARGEST_UNIT`], with `unit_size(k) <= b`, and 0
/// for a rate too small for any scaled unit.
pub open spec fn unit_index(b: nat) -> nat {
    if b < unit_size(1) {
        0
    } else if b < unit_size(2) {
        1
    } else if b < unit_size(3) {
        2
    } else if b < unit_size(4) {
        3
    } else if b < unit_size(5) {
        4
    } else if b < unit_size(6) {
        5
    } else {
        6
    }
}

/// The suffix that names the unit of index `k`.
pub open spec fn unit_suffix(k: nat) -> Seq<char> {
    if k == 0 {
        "B/s"@
    } else if k == 1 {
        "KB/s"@
    } else if k == 2 {
        "MB/s"@
    } else if k == 3 {
        "GB/s"@
    } else if k == 4 {
        "TB/s"@
    } else if k == 5 {
        "PB/s"@
    } else {
        "EB/s"@
    }
}

/// The quotient `num / den` rounded to the nearest whole number, an exact
/// half to the even neighbour.
pub open spec fn round_half_even(num: nat, den: nat) -> nat
    recommends
        den > 0,
{
    let q = num / den;
    let r = num % den;
    if 2 * r > den || (2 * r == den && q % 2 == 1) {
        q + 1
    } else {
        q
    }
}

/// A rate of `b` bytes per second in tenths of its unit.
pub open spec fn rate_tenths(b: nat) -> nat {
    round_half_even(10 * b, unit_size(unit_index(b)))
}

/// The text of a rate of `b` bytes per second.
pub open spec fn rate_text(b: nat) -> Seq<char> {
    let k = unit_index(b);
    if k == 0 {
        decimal(b) + unit_suffix(0)
    } else {
        decimal(rate_tenths(b) / 10) + seq!['.'] + decimal(rate_tenths(b) % 10) + unit_suffix(k)
    }
}

/// The sizes of the seven units.
pub proof fn lemma_unit_sizes()
    ensures
        unit_size(0) == 1,
        unit_size(1) == 0x400,
        unit_size(2) == 0x10_0000,
        unit_size(3) == 0x4000_0000,
        unit_size(4) == 0x100_0000_0000,
        unit_size(5) == 0x4_0000_0000_0000,
        unit_size(6) == 0x1000_0000_0000_0000,
{
    reveal_with_fuel(unit_size, 7);
}

/// A rate below 1024 bytes per second is written as the whole number of bytes
/// followed by `B/s`: the text holds no decimal point, and the character
/// before the suffix is a digit.
pub proof fn lemma_small_rate_is_whole(b: nat)
    requires
        b < 1024,
    ensures
        rate_text(b) == decimal(b) + "B/s"@,
        forall|i: int| 0 <= i < rate_text(b).len() ==> rate_text(b)[i] != '.',
        rate_text(b).len() == decimal(b).len() + 3,
        rate_text(b).subrange(decimal(b).len() as int, rate_text(b).len() as int) == "B/s"@,
        is_digit(rate_text(b)[decimal(b).len() - 1]),
{
    lemma_unit_sizes();
    lemma_decimal_digits(b);
    reveal_strlit("B/s");
    let text = rate_text(b);
    let number = decimal(b);
    assert(text =~= number + "B/s"@);
    assert forall|i: int| 0 <= i < text.len() implies text[i] != '.' by {
        if i < number.len() {
            assert(is_digit(number[i]));
        }
    }
    assert(text.subrange(number.len() as int, text.len() as int) =~= "B/s"@);
}

/// A rate of 1024 bytes per second or more is written as a whole part, a
/// decimal point, exactly one digit and the suffix of its unit.
pub proof fn lemma_scaled_rate_has_one_decimal(b: nat)
    requires
        b >= 1024,
    ensures
        unit_index(b) >= 1,
        rate_text(b) == decimal(rate_tenths(b) / 10) + seq!['.'] + decimal(rate_tenths(b) % 10)
            + unit_suffix(unit_index(b)),
        decimal(rate_tenths(b) % 10).len() == 1,
        rate_text(b)[decimal(rate_tenths(b) / 10).len() as int] == '.',
{
    lemma_unit_sizes();
    lemma_decimal_digits(rate_tenths(b) / 10);
}

/// A scaled rate is never written smaller than `1.0`, and below the largest
/// unit never larger than `1024.0`.
pub proof fn lemma_scaled_rate_range(b: nat)
    requires
        b >= 1024,
    ensures
        rate_tenths(b) >= 10,
        unit_index(b) < 6 ==> rate_tenths(b) <= 10240,
{
    lemma_unit_sizes();
    let unit = unit_size(unit_index(b));
    assert(unit <= b);
    assert(unit_index(b) < 6 ==> b < 1024 * unit);
    let q = (10 * b) / unit;
    assert(q >= 10 && (b < 1024 * unit ==> q < 10240)) by (nonlinear_arith)
        requires
            unit > 0,
            unit <= b,
            q == (10 * b) / unit,
    ;
}

/// A scaled rate is written to the nearest tenth of its unit: what is
/// written differs from the rate by no more than half a tenth.
pub proof fn lemma_scaled_rate_is_nearest_tenth(b: nat)
    requires
        b >= 1024,
    ensures
        ({
            let unit = unit_size(unit_index(b));
            let written = rate_tenths(b) * unit;
            2 * (written - 10 * b) <= unit && 2 * (10 * b - written) <= unit
        }),
{
    lemma_unit_sizes();
    let unit = unit_size(unit_index(b));
    let q = (10 * b) / unit;
    let r = (10 * b) % unit;
    assert(10 * b == q * unit + r && 0 <= r < unit) by (nonlinear_arith)
        requires
            unit > 0,
            q == (10 * b) / unit,
            r == (10 * b) % unit,
    ;
    assert((q + 1) * unit == q * unit + unit) by (nonlinear_arith);
}

/// `num / den` rounded to the nearest whole number, an exact half to even.
fn div_round_half_even(num: u128, den: u128) -> (q: u128)
    requires
        den > 0,
        2 * den <= u128::MAX,
        num < u128::MAX,
    ensures
        q == round_half_even(num as nat, den as nat),
{
    let q = num / den;
    let r = num % den;
    if 2 * r > den || (2 * r == den && q % 2 == 1) {
        q + 1
    } else {
        q
    }
}

/// Formats a rate of `speed` bytes per second for display.
///
/// Below 1024 the text is the number and `B/s`. From 1024 on it is the rate in
/// `KB/s`, `MB/s`, `GB/s`, `TB/s`, `PB/s` or `EB/s`, whichever is the largest
/// unit that the rate reaches, with one decimal place.
pub fn format_bytes_speed(speed: u64) -> (text: String)
    ensures
        text@ == rate_text(speed as nat),
{
    proof {
        lemma_unit_sizes();
    }
    let mut text = String::new();
    if speed < UNIT_BASE {
        push_decimal(&mut text, speed);
        text.append("B/s");
        assert(text@ =~= rate_text(speed as nat));
        return text;
    }
    let mut unit: u64 = UNIT_BASE;
    let mut index: u64 = 1;
    while index < LARGEST_UNIT && speed / UNIT_BASE >= unit
        invariant
            1 <= index <= LARGEST_UNIT,
            unit == unit_size(index as nat),
            unit <= speed,
        decreases LARGEST_UNIT - index,
    {
        proof {
            lemma_unit_sizes();
        }
        unit = unit * UNIT_BASE;
        index = index + 1;
    }
    assert(unit_index(speed as nat) == index) by {
        lemma_unit_sizes();
    }
    let suffix = if index == 1 {
        "KB/s"
    } else if index == 2 {
        "MB/s"
    } else if index == 3 {
        "GB/s"
    } else if index == 4 {
        "TB/s"
    } else if index == 5 {
        "PB/s"
    } else {
        "EB/s"
    };
    let tenths = div_round_half_even(10 * (speed as u128), unit as u128) as u64;
    push_decimal(&mut text, tenths / 10);
    text.append(".");
    push_decimal(&mut text, tenths % 10);
    text.append(suffix);
    proof {
        reveal_strlit(".");
        assert(text@ =~= rate_text(speed as nat));
    }
    text
}

} // verus!
