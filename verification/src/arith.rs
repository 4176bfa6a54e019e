//! Saturating and bounded integer helpers shared by the circuits.
use vstd::prelude::*;

verus! {

/// One hundred percent, in basis points.
pub const BPS_DENOMINATOR: u64 = 10_000;

/// `a * b`, clamped to `u64::MAX`.
pub open spec fn sat_mul_spec(a: u64, b: u64) -> u64 {
    if a * b > u64::MAX {
        u64::MAX
    } else {
        (a * b) as u64
    }
}

/// `a + b`, clamped to `u64::MAX`.
pub open spec fn sat_add_spec(a: u64, b: u64) -> u64 {
    if a + b > u64::MAX {
        u64::MAX
    } else {
        (a + b) as u64
    }
}

/// `a - b`, clamped to zero.
pub open spec fn sat_sub_spec(a: u64, b: u64) -> u64 {
    if a < b {
        0
    } else {
        (a - b) as u64
    }
}

/// The smaller of two amounts.
pub open spec fn min_spec(a: u64, b: u64) -> u64 {
    if a <= b {
        a
    } else {
        b
    }
}

/// The part of `amount` that a fee of `fee_bps` basis points takes, where the
/// product saturates before the division.
pub open spec fn fee_spec(amount: u64, fee_bps: u64) -> u64 {
    (sat_mul_spec(amount, fee_bps) / 10_000) as u64
}

/// Saturating multiplication.
pub fn sat_mul(a: u64, b: u64) -> (r: u64)
    ensures
        r == sat_mul_spec(a, b),
{
    a.checked_mul(b).unwrap_or(u64::MAX)
}

/// Saturating addition.
pub fn sat_add(a: u64, b: u64) -> (r: u64)
    ensures
        r == sat_add_spec(a, b),
{
    a.saturating_add(b)
}

/// Saturating subtraction.
pub fn sat_sub(a: u64, b: u64) -> (r: u64)
    ensures
        r == sat_sub_spec(a, b),
{
    a.saturating_sub(b)
}

/// The smaller of two amounts.
pub fn min_u64(a: u64, b: u64) -> (r: u64)
    ensures
        r == min_spec(a, b),
{
    if a <= b {
        a
    } else {
        b
    }
}

/// The fee that `fee_bps` basis points take from `amount`.
pub fn fee_of(amount: u64, fee_bps: u64) -> (r: u64)
    ensures
        r == fee_spec(amount, fee_bps),
{
    sat_mul(amount, fee_bps) / 10_000
}

/// A fee of at most one hundred percent never exceeds the amount it is taken
/// from.
pub proof fn lemma_fee_le_amount(amount: u64, fee_bps: u64)
    requires
        fee_bps <= 10_000,
    ensures
        fee_spec(amount, fee_bps) <= amount,
{
    assert(amount * fee_bps <= amount * 10_000) by (nonlinear_arith)
        requires
            fee_bps <= 10_000,
    ;
    assert((amount * 10_000) / 10_000 == amount) by (nonlinear_arith);
    assert(sat_mul_spec(amount, fee_bps) <= amount * 10_000);
    assert(sat_mul_spec(amount, fee_bps) / 10_000 <= (amount * 10_000) / 10_000) by (nonlinear_arith)
        requires
            sat_mul_spec(amount, fee_bps) <= amount * 10_000,
    ;
}

} // verus!
