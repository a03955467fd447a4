//! Decimal text for the display tasks.
//!
//! The display edge draws byte strings; these helpers build them: the
//! counter as plain decimal digits, the battery status as a voltage with
//! one fractional digit and a charging tag, and the battery charge as a
//! percentage.

use vstd::prelude::*;

verus! {

/// ASCII digits of a non-negative number, most significant first.
pub open spec fn spec_decimal_digits(n: int) -> Seq<u8>
    recommends
        n >= 0,
    decreases n,
{
    if n < 10 {
        seq![(0x30 + n) as u8]
    } else {
        spec_decimal_digits(n / 10).push((0x30 + n % 10) as u8)
    }
}

/// The battery status line: the voltage in volts with one fractional
/// digit, the unit, and whether the battery is charging or discharging.
pub open spec fn spec_battery_line(voltage: u8, charging: bool) -> Seq<u8> {
    spec_decimal_digits(voltage as int / 10) + seq![
        0x2e_u8,
        (0x30 + voltage as int % 10) as u8,
        0x56_u8,
        0x2f_u8,
        if charging {
            0x43_u8
        } else {
            0x44_u8
        },
    ]
}

/// The battery charge line: the percentage and a percent sign.
pub open spec fn spec_percent_line(percent: u8) -> Seq<u8> {
    spec_decimal_digits(percent as int).push(0x25_u8)
}

/// ASCII decimal digits of `n`, most significant first.
pub fn decimal_digits(n: u64) -> (s: Vec<u8>)
    ensures
        s@ == spec_decimal_digits(n as int),
    decreases n,
{
    if n < 10 {
        let mut s: Vec<u8> = Vec::new();
        s.push(0x30 + n as u8);
        proof {
            assert(s@ =~= spec_decimal_digits(n as int));
        }
        s
    } else {
        let mut s = decimal_digits(n / 10);
        s.push(0x30 + (n % 10) as u8);
        s
    }
}

/// The battery status text, for example `3.9V/C` at 3.9 volts while
/// charging.
pub fn format_battery_line(voltage: u8, charging: bool) -> (s: Vec<u8>)
    ensures
        s@ == spec_battery_line(voltage, charging),
{
    let mut s = decimal_digits((voltage / 10) as u64);
    s.push(0x2e);
    s.push(0x30 + voltage % 10);
    s.push(0x56);
    s.push(0x2f);
    s.push(if charging {
        0x43
    } else {
        0x44
    });
    proof {
        assert(s@ =~= spec_battery_line(voltage, charging));
    }
    s
}

/// The battery charge text, for example `37%`.
pub fn format_percent_line(percent: u8) -> (s: Vec<u8>)
    ensures
        s@ == spec_percent_line(percent),
{
    let mut s = decimal_digits(percent as u64);
    s.push(0x25);
    s
}

} // verus!
