//! Field formatters for the display cache: decimal digit strings for the
//! integer-coded channels, percent labels for the pedals, one-decimal labels
//! for fuel and brake bias, and the gear / RPM special cases.

use vstd::prelude::*;
use vstd::string::StringExecFns;

verus! {

/// The decimal digit character for `d` in `0 ..= 9`.
pub open spec fn digit_char(d: int) -> char {
    if d == 0 {
        '0'
    } else if d == 1 {
        '1'
    } else if d == 2 {
        '2'
    } else if d == 3 {
        '3'
    } else if d == 4 {
        '4'
    } else if d == 5 {
        '5'
    } else if d == 6 {
        '6'
    } else if d == 7 {
        '7'
    } else if d == 8 {
        '8'
    } else {
        '9'
    }
}

/// The decimal digit string of a non-negative integer, without sign or
/// leading zeros (`0` is `"0"`).
pub open spec fn dec_digits(n: nat) -> Seq<char>
    decreases n,
{
    if n < 10 {
        seq![digit_char(n as int)]
    } else {
        dec_digits(n / 10) + seq![digit_char((n % 10) as int)]
    }
}

/// The decimal string of an integer, with a leading `-` when negative.
pub open spec fn int_text(v: int) -> Seq<char> {
    if v < 0 {
        seq!['-'] + dec_digits((-v) as nat)
    } else {
        dec_digits(v as nat)
    }
}

fn digit_str(d: u64) -> (r: &'static str)
    requires
        d < 10,
    ensures
        r@ == seq![digit_char(d as int)],
{
    proof {
        reveal_strlit("0");
        reveal_strlit("1");
        reveal_strlit("2");
        reveal_strlit("3");
        reveal_strlit("4");
        reveal_strlit("5");
        reveal_strlit("6");
        reveal_strlit("7");
        reveal_strlit("8");
        reveal_strlit("9");
    }
    match d {
        0 => "0",
        1 => "1",
        2 => "2",
        3 => "3",
        4 => "4",
        5 => "5",
        6 => "6",
        7 => "7",
        8 => "8",
        _ => "9",
    }
}

/// The decimal digit string of `n`.
pub fn u64_label(n: u64) -> (r: String)
    ensures
        r@ == dec_digits(n as nat),
    decreases n,
{
    if n < 10 {
        String::from_str(digit_str(n))
    } else {
        let high = u64_label(n / 10);
        high.concat(digit_str(n % 10))
    }
}

/// The gear indicator text: reverse is `"R"`, neutral is `"N"`, and a
/// forward gear coded `g >= 2` displays as gear number `g - 1`.
pub open spec fn gear_text(g: int) -> Seq<char> {
    if g == 0 {
        "R"@
    } else if g == 1 {
        "N"@
    } else {
        int_text(g - 1)
    }
}

/// The pedal percentage text: anything above 99 percent displays as the
/// full-application mark `"F"`, otherwise the integer percent.
pub open spec fn percent_text(p: int) -> Seq<char> {
    if p > 99 {
        "F"@
    } else {
        int_text(p)
    }
}

/// The RPM readout: the ignition flag overrides everything, a non-positive
/// RPM with ignition on reads as a stopped engine, otherwise the number.
pub open spec fn rpm_text(rpm: int, ignition: int) -> Seq<char> {
    if ignition != 1 {
        "IGNITION OFF"@
    } else if rpm <= 0 {
        "ENGINE OFF"@
    } else {
        int_text(rpm)
    }
}

/// Rounding of a non-negative centi-unit count to tenths, half away from
/// zero.
pub open spec fn round_centi_to_deci(centi: nat) -> nat {
    (centi + 5) / 10
}

/// The one-decimal-place text of a quantity in centi-units (hundredths),
/// rounded half away from zero: 1234 centi-units display as `"12.3"`.
pub open spec fn one_decimal_text(centi: int) -> Seq<char> {
    if centi < 0 {
        seq!['-'] + nonneg_deci_text(round_centi_to_deci((-centi) as nat))
    } else {
        nonneg_deci_text(round_centi_to_deci(centi as nat))
    }
}

/// The text of a non-negative count of tenths, with one digit after the
/// decimal point.
pub open spec fn nonneg_deci_text(deci: nat) -> Seq<char> {
    dec_digits(deci / 10) + seq!['.'] + seq![digit_char((deci % 10) as int)]
}

/// The signed decimal string of `v`.
pub fn i64_label(v: i64) -> (r: String)
    requires
        v > i64::MIN,
    ensures
        r@ == int_text(v as int),
{
    proof {
        reveal_strlit("-");
    }
    if v < 0 {
        let magnitude: u64 = (-v) as u64;
        String::from_str("-").concat(u64_label(magnitude).as_str())
    } else {
        u64_label(v as u64)
    }
}

/// The gear indicator label for the raw gear code.
pub fn gear_label(g: i32) -> (r: String)
    ensures
        r@ == gear_text(g as int),
{
    if g == 0 {
        String::from_str("R")
    } else if g == 1 {
        String::from_str("N")
    } else {
        i64_label(g as i64 - 1)
    }
}

/// The pedal percentage label.
pub fn percent_label(p: i32) -> (r: String)
    ensures
        r@ == percent_text(p as int),
{
    if p > 99 {
        String::from_str("F")
    } else {
        i64_label(p as i64)
    }
}

/// The RPM readout label.
pub fn rpm_label(rpm: i32, ignition: i32) -> (r: String)
    ensures
        r@ == rpm_text(rpm as int, ignition as int),
{
    if ignition != 1 {
        String::from_str("IGNITION OFF")
    } else if rpm <= 0 {
        String::from_str("ENGINE OFF")
    } else {
        i64_label(rpm as i64)
    }
}

/// The one-decimal-place label of a quantity in centi-units.
pub fn one_decimal_label(centi: i64) -> (r: String)
    requires
        i64::MIN + 5 < centi < i64::MAX - 5,
    ensures
        r@ == one_decimal_text(centi as int),
{
    proof {
        reveal_strlit("-");
        reveal_strlit(".");
    }
    if centi < 0 {
        let deci: u64 = (((-centi) as u64) + 5) / 10;
        let whole = u64_label(deci / 10);
        String::from_str("-").concat(whole.as_str()).concat(".").concat(digit_str(deci % 10))
    } else {
        let deci: u64 = ((centi as u64) + 5) / 10;
        let whole = u64_label(deci / 10);
        whole.concat(".").concat(digit_str(deci % 10))
    }
}

} // verus!
