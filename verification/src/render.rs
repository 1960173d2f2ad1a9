//! Rendering a readout as text.
//!
//! The get operation emits the current setting and its ceiling as
//! `"current/max"`. `digits_of` says, digit by digit, what the decimal
//! rendering of a number is — most significant first, no leading zeros —
//! and the functions here produce exactly those bytes.

use vstd::prelude::*;
use crate::parse::{all_digits, digits_value};

verus! {

/// The decimal digits of `v`, most significant first, no leading zeros.
pub open spec fn digits_of(v: int) -> Seq<u8>
    recommends
        v >= 0,
    decreases v,
{
    if v < 10 {
        seq![(48 + v) as u8]
    } else {
        digits_of(v / 10) + seq![(48 + v % 10) as u8]
    }
}

/// Law: a rendering is a nonempty run of digits that parses back to the
/// number it came from.
pub proof fn lemma_digits_of_value(v: int)
    requires
        v >= 0,
    ensures
        digits_of(v).len() > 0,
        all_digits(digits_of(v)),
        digits_value(digits_of(v)) == v,
    decreases v,
{
    if v < 10 {
        assert(digits_value(digits_of(v).subrange(0, 0)) == 0);
    } else {
        lemma_digits_of_value(v / 10);
        vstd::arithmetic::div_mod::lemma_fundamental_div_mod(v, 10);
        let s = digits_of(v);
        assert(s.subrange(0, s.len() - 1) =~= digits_of(v / 10));
        assert(s[s.len() - 1] == (48 + v % 10) as u8);
    }
}

fn render_into(v: u64, out: &mut Vec<u8>)
    ensures
        final(out)@ == old(out)@ + digits_of(v as int),
    decreases v,
{
    if v >= 10 {
        render_into(v / 10, out);
    }
    out.push((v % 10) as u8 + 48);
    proof {
        if v < 10 {
            assert(out@ =~= old(out)@ + digits_of(v as int));
        } else {
            assert(out@ =~= old(out)@ + (digits_of(v as int / 10) + seq![
                (48 + v as int % 10) as u8,
            ]));
        }
    }
}

/// Renders the readout the get operation emits: `current`, a slash, `max`,
/// each in decimal with no leading zeros.
pub fn format_readout(current: u64, max: u64) -> (r: Vec<u8>)
    ensures
        r@ == digits_of(current as int) + seq![47u8] + digits_of(max as int),
{
    let mut out: Vec<u8> = Vec::new();
    render_into(current, &mut out);
    out.push(47);
    render_into(max, &mut out);
    proof {
        assert(out@ =~= (digits_of(current as int) + seq![47u8]) + digits_of(max as int));
        assert((digits_of(current as int) + seq![47u8]) + digits_of(max as int)
            =~= digits_of(current as int) + seq![47u8] + digits_of(max as int));
    }
    out
}

} // verus!
