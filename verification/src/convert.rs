//! Translation between a backlight's raw units and percentages.
//!
//! A device reports brightness on its own scale, `0 ..= max`. Users think in
//! percentages of `max`. Both directions round to the nearest integer, halves
//! rounding up, which `rounded_div` captures over mathematical integers.

use vstd::prelude::*;

verus! {

/// `a / b` rounded to the nearest integer, halves rounded up (`b > 0`).
pub open spec fn rounded_div(a: int, b: int) -> int
    recommends
        b > 0,
{
    (2 * a + b) / (2 * b)
}

/// The percentage that `raw` is of `max`, rounded to nearest.
pub open spec fn to_percent_spec(raw: int, max: int) -> int
    recommends
        max > 0,
{
    rounded_div(100 * raw, max)
}

/// The raw value standing at `pct` percent of `max`, rounded to nearest.
pub open spec fn from_percent_spec(pct: int, max: int) -> int {
    rounded_div(pct * max, 100)
}

/// Converts a raw brightness reading into a percentage of `max`.
///
/// Readings above `max` are tolerated (a driver may report them) and simply
/// give a result above 100.
pub fn to_percent(raw: u32, max: u32) -> (pct: u64)
    requires
        max > 0,
    ensures
        pct == to_percent_spec(raw as int, max as int),
{
    let num: u64 = 200 * (raw as u64) + (max as u64);
    let den: u64 = 2 * (max as u64);
    num / den
}

/// Converts a percentage into this device's raw units.
///
/// Percentages above 100 are tolerated; the result then exceeds `max` and is
/// left for the caller's final clamp.
pub fn from_percent(pct: u32, max: u32) -> (raw: u64)
    ensures
        raw == from_percent_spec(pct as int, max as int),
{
    proof {
        assert((pct as int) * (max as int) <= 0xFFFF_FFFF * 0xFFFF_FFFF) by (nonlinear_arith)
            requires
                pct as int <= 0xFFFF_FFFF,
                max as int <= 0xFFFF_FFFF,
                0 <= pct as int,
                0 <= max as int,
        ;
    }
    let pm: u128 = (pct as u128) * (max as u128);
    let num: u128 = 2 * pm + 100;
    let r: u128 = num / 200;
    r as u64
}

/// Law: for a fixed `max`, converting to a percentage never decreases as the
/// raw input grows.
pub proof fn lemma_to_percent_monotone(r1: int, r2: int, max: int)
    requires
        max > 0,
        0 <= r1 <= r2,
    ensures
        to_percent_spec(r1, max) <= to_percent_spec(r2, max),
{
    vstd::arithmetic::div_mod::lemma_div_is_ordered(2 * (100 * r1) + max, 2 * (100 * r2) + max, 2 * max);
}

/// Law: for a fixed `max`, converting from a percentage never decreases as
/// the percentage grows.
pub proof fn lemma_from_percent_monotone(p1: int, p2: int, max: int)
    requires
        max >= 0,
        0 <= p1 <= p2,
    ensures
        from_percent_spec(p1, max) <= from_percent_spec(p2, max),
{
    vstd::arithmetic::mul::lemma_mul_inequality(p1, p2, max);
    vstd::arithmetic::div_mod::lemma_div_is_ordered(2 * (p1 * max) + 100, 2 * (p2 * max) + 100, 200);
}

/// Law: when `max` divides `100 * raw` evenly, converting a raw value to a
/// percentage and back returns it exactly.
pub proof fn lemma_round_trip_exact(raw: int, max: int)
    requires
        max > 0,
        0 <= raw,
        (100 * raw) % max == 0,
    ensures
        from_percent_spec(to_percent_spec(raw, max), max) == raw,
{
    let q = (100 * raw) / max;
    vstd::arithmetic::div_mod::lemma_fundamental_div_mod(100 * raw, max);
    assert(100 * raw == q * max);
    assert(2 * (100 * raw) + max == q * (2 * max) + max) by (nonlinear_arith)
        requires
            100 * raw == q * max,
    ;
    vstd::arithmetic::div_mod::lemma_fundamental_div_mod_converse(
        2 * (100 * raw) + max,
        2 * max,
        q,
        max,
    );
    assert(to_percent_spec(raw, max) == q);
    assert(2 * (q * max) + 100 == raw * 200 + 100) by (nonlinear_arith)
        requires
            100 * raw == q * max,
    ;
    vstd::arithmetic::div_mod::lemma_fundamental_div_mod_converse(
        2 * (q * max) + 100,
        200,
        raw,
        100,
    );
}

/// Law: for devices whose scale is no finer than whole percents
/// (`max <= 100`), a raw-to-percent-to-raw round trip lands within one raw
/// unit of where it started; it can land one unit above, never below.
pub proof fn lemma_round_trip_close(raw: int, max: int)
    requires
        0 < max <= 100,
        0 <= raw,
    ensures
        raw <= from_percent_spec(to_percent_spec(raw, max), max) <= raw + 1,
{
    let p = to_percent_spec(raw, max);
    let b = from_percent_spec(p, max);
    vstd::arithmetic::div_mod::lemma_fundamental_div_mod(2 * (100 * raw) + max, 2 * max);
    let rem1 = (2 * (100 * raw) + max) % (2 * max);
    vstd::arithmetic::div_mod::lemma_mod_bound(2 * (100 * raw) + max, 2 * max);
    assert(2 * (100 * raw) + max == (2 * max) * p + rem1);
    assert(0 <= rem1 < 2 * max);
    vstd::arithmetic::div_mod::lemma_fundamental_div_mod(2 * (p * max) + 100, 200);
    let rem2 = (2 * (p * max) + 100) % 200;
    vstd::arithmetic::div_mod::lemma_mod_bound(2 * (p * max) + 100, 200);
    assert(2 * (p * max) + 100 == 200 * b + rem2);
    assert(0 <= rem2 < 200);
    assert((2 * max) * p == 2 * (p * max)) by (nonlinear_arith);
    // From the first division: 2*(p*max) lies in (200*raw - max, 200*raw + max].
    assert(200 * raw - max < 2 * (p * max) <= 200 * raw + max);
    // Hence 200*b lies within 100 of 2*(p*max), and max <= 100 pins b down.
    assert(200 * b <= 200 * raw + 200);
    assert(200 * b > 200 * raw - 200);
}

} // verus!
