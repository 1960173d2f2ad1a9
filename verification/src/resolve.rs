//! Resolving a requested operation into a final raw brightness target.
//!
//! The resolver takes the device's current raw reading, the requested
//! operation, and the invocation's policy, and computes either a readout to
//! print or the raw value to hand to the brightness-apply collaborator. Two
//! separate safety layers are kept apart on purpose: in strict mode an
//! increase or decrease that starts already at a boundary is rejected
//! outright before anything is computed, while every computed target —
//! however far it overshot — passes through one unconditional final clamp
//! into `[floor, max]`.

use vstd::prelude::*;
use crate::convert::{to_percent, from_percent, to_percent_spec, from_percent_spec};
use crate::error::Error;

verus! {

/// Per-invocation policy, read-only once supplied.
pub struct Policy {
    /// Take values and amounts in raw device units instead of percentages.
    pub raw_mode: bool,
    /// Raw lower bound targets are clamped up to, to keep a device away
    /// from its "off" state.
    pub floor: u32,
    /// Reject an increase or decrease whose starting point is already at
    /// the boundary, instead of silently clamping.
    pub strict: bool,
}

/// A requested operation. Values and amounts are in raw device units when
/// the policy says so, else in percent.
pub enum Operation {
    /// Report the current setting; changes nothing.
    Get,
    /// Go to this value.
    SetTo(u32),
    /// Raise the current value by this amount.
    IncreaseBy(u32),
    /// Lower the current value by this amount.
    DecreaseBy(u32),
}

/// What an operation resolved to.
#[derive(Debug, PartialEq, Eq)]
pub enum Resolution {
    /// The current setting and its ceiling, in the active unit, for the
    /// caller to print.
    Readout { current: u64, max: u64 },
    /// The raw value to hand to the brightness-apply collaborator.
    Apply { target: u32 },
}

/// `x` forced into `[lo, hi]`.
pub open spec fn clamp_spec(x: int, lo: int, hi: int) -> int
    recommends
        lo <= hi,
{
    if x < lo {
        lo
    } else if x > hi {
        hi
    } else {
        x
    }
}

/// The raw-unit meaning of a requested value or amount under policy `p`.
pub open spec fn convert_amount_spec(p: Policy, amount: int, max: int) -> int {
    if p.raw_mode {
        amount
    } else {
        from_percent_spec(amount, max)
    }
}

fn clamp_to_range(x: u128, lo: u32, hi: u32) -> (r: u32)
    requires
        lo <= hi,
    ensures
        r as int == clamp_spec(x as int, lo as int, hi as int),
{
    if x < lo as u128 {
        lo
    } else if x > hi as u128 {
        hi
    } else {
        x as u32
    }
}

fn convert_amount(policy: &Policy, amount: u32, max: u32) -> (r: u64)
    requires
        !policy.raw_mode ==> max > 0,
    ensures
        r as int == convert_amount_spec(*policy, amount as int, max as int),
{
    if policy.raw_mode {
        amount as u64
    } else {
        from_percent(amount, max)
    }
}

/// Computes what a requested operation comes to, without touching anything.
///
/// `Get` resolves to a readout in the active unit and can never fail here.
/// The other operations resolve to a raw target: the requested value or the
/// current reading plus or minus the converted amount, clamped into
/// `[floor, max]`. In strict mode an increase starting exactly at `max`, or
/// a decrease starting at or below `floor`, is rejected before anything is
/// computed; out-of-range results of the computation itself are never
/// rejected, only clamped.
pub fn resolve(current: u32, max: u32, policy: &Policy, op: &Operation) -> (r: Result<
    Resolution,
    Error,
>)
    requires
        policy.floor <= max,
        !policy.raw_mode ==> max > 0,
    ensures
        op is Get ==> (r matches Ok(Resolution::Readout { current: c, max: m })
            && (policy.raw_mode ==> c == current && m == max)
            && (!policy.raw_mode ==> c == to_percent_spec(current as int, max as int) && m == 100)),
        (op matches Operation::SetTo(v) ==> r matches Ok(Resolution::Apply { target })
            && target as int == clamp_spec(
            convert_amount_spec(*policy, v as int, max as int),
            policy.floor as int,
            max as int,
        )),
        (op matches Operation::IncreaseBy(a) ==> (if policy.strict && current == max {
            r == Err::<Resolution, Error>(Error::AtUpperBound)
        } else {
            r matches Ok(Resolution::Apply { target }) && target as int == clamp_spec(
                current as int + convert_amount_spec(*policy, a as int, max as int),
                policy.floor as int,
                max as int,
            )
        })),
        (op matches Operation::DecreaseBy(a) ==> (if policy.strict && current <= policy.floor {
            r == Err::<Resolution, Error>(Error::AtLowerBound)
        } else {
            r matches Ok(Resolution::Apply { target }) && target as int == clamp_spec(
                current as int - convert_amount_spec(*policy, a as int, max as int),
                policy.floor as int,
                max as int,
            )
        })),
        (r matches Ok(Resolution::Apply { target }) ==> policy.floor <= target <= max),
{
    match op {
        Operation::Get => {
            if policy.raw_mode {
                Ok(Resolution::Readout { current: current as u64, max: max as u64 })
            } else {
                Ok(Resolution::Readout { current: to_percent(current, max), max: 100 })
            }
        },
        Operation::SetTo(v) => {
            let conv: u64 = convert_amount(policy, *v, max);
            let target = clamp_to_range(conv as u128, policy.floor, max);
            Ok(Resolution::Apply { target })
        },
        Operation::IncreaseBy(a) => {
            if policy.strict && current == max {
                Err(Error::AtUpperBound)
            } else {
                let conv: u64 = convert_amount(policy, *a, max);
                let sum: u128 = current as u128 + conv as u128;
                let target = clamp_to_range(sum, policy.floor, max);
                Ok(Resolution::Apply { target })
            }
        },
        Operation::DecreaseBy(a) => {
            if policy.strict && current <= policy.floor {
                Err(Error::AtLowerBound)
            } else {
                let conv: u64 = convert_amount(policy, *a, max);
                let diff: u128 = if current as u128 >= conv as u128 {
                    current as u128 - conv as u128
                } else {
                    0
                };
                let target = clamp_to_range(diff, policy.floor, max);
                Ok(Resolution::Apply { target })
            }
        },
    }
}

} // verus!
