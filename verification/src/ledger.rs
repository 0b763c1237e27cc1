//! Amounts and timestamps.
//!
//! An amount is a number of yoctoNEAR held in a `u128`; a timestamp is a
//! number of nanoseconds held in a `u64`. Amounts never wrap: a sum stops
//! at `u128::MAX` and a difference stops at zero. The arithmetic itself is
//! `near_sdk::NearToken`'s.

use near_sdk::NearToken;
use vstd::prelude::*;

verus! {

/// Nanoseconds in one second: campaign durations are given in seconds,
/// timestamps in nanoseconds.
pub const NANOS_PER_SECOND: u64 = 1_000_000_000;

/// `a + b`, stopping at the largest amount a `u128` can hold.
pub open spec fn add_capped(a: nat, b: nat) -> nat {
    if a + b > u128::MAX {
        u128::MAX as nat
    } else {
        a + b
    }
}

/// `a - b`, stopping at zero.
pub open spec fn sub_floored(a: nat, b: nat) -> nat {
    if a > b {
        (a - b) as nat
    } else {
        0
    }
}

/// The instant `seconds` seconds after `now`, in nanoseconds.
pub open spec fn deadline_after(now: nat, seconds: nat) -> nat {
    now + seconds * (NANOS_PER_SECOND as nat)
}

/// Whether the instant `seconds` seconds after `now` fits a `u64` of
/// nanoseconds, as a campaign's deadline has to.
pub fn deadline_fits(now: u64, seconds: u64) -> (fits: bool)
    ensures
        fits == (deadline_after(now as nat, seconds as nat) <= u64::MAX),
{
    match seconds.checked_mul(NANOS_PER_SECOND) {
        None => false,
        Some(span) => now.checked_add(span).is_some(),
    }
}

/// An optional amount as an optional natural number.
pub open spec fn amount_of(amount: Option<u128>) -> Option<nat> {
    match amount {
        Some(a) => Some(a as nat),
        None => None,
    }
}

/// Calls `near_sdk::NearToken::saturating_add` on the tokens of `a` and `b`
/// yoctoNEAR and hands back the yoctoNEAR of the result. Trusted: the sum of
/// the two, or `u128::MAX` where the sum does not fit.
#[verifier::external_body]
pub(crate) fn token_saturating_add(a: u128, b: u128) -> (sum: u128)
    ensures
        sum == add_capped(a as nat, b as nat),
{
    NearToken::from_yoctonear(a).saturating_add(NearToken::from_yoctonear(b)).as_yoctonear()
}

/// Calls `near_sdk::NearToken::saturating_sub` on the tokens of `a` and `b`
/// yoctoNEAR and hands back the yoctoNEAR of the result. Trusted: `a - b`, or
/// zero where `b` exceeds `a`.
#[verifier::external_body]
pub(crate) fn token_saturating_sub(a: u128, b: u128) -> (difference: u128)
    ensures
        difference == sub_floored(a as nat, b as nat),
{
    NearToken::from_yoctonear(a).saturating_sub(NearToken::from_yoctonear(b)).as_yoctonear()
}

/// Calls `near_sdk::NearToken::is_zero` on the token of `a` yoctoNEAR.
/// Trusted: whether the amount is zero.
#[verifier::external_body]
pub(crate) fn token_is_zero(a: u128) -> (zero: bool)
    ensures
        zero == (a == 0),
{
    NearToken::from_yoctonear(a).is_zero()
}

} // verus!
