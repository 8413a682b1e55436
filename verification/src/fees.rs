//! The fee policy: a proportional platform fee of 10 basis points (0.1%) of
//! the contract value, clamped between a fixed minimum and maximum, computed
//! once at creation and reused unchanged for the secondary charge.

use vstd::arithmetic::div_mod::{lemma_div_denominator, lemma_div_multiples_vanish};
use vstd::prelude::*;

verus! {

/// 10 basis points = 0.1% (1 basis point = 0.01%).
pub const PLATFORM_FEE_BASIS_POINTS: u64 = 10;

/// Floor of the platform fee, in the host's native currency unit.
pub const MIN_PLATFORM_FEE_LAMPORTS: u64 = 1_000_000;

/// Ceiling of the platform fee, in the host's native currency unit.
pub const MAX_PLATFORM_FEE_LAMPORTS: u64 = 100_000_000;

/// The fee owed for a contract of nominal value `value`:
/// `clamp(value * 10 / 10_000, MIN, MAX)`.
pub open spec fn spec_platform_fee(value: u64) -> u64 {
    let raw = (value * PLATFORM_FEE_BASIS_POINTS) / 10_000;
    if raw < MIN_PLATFORM_FEE_LAMPORTS {
        MIN_PLATFORM_FEE_LAMPORTS
    } else if raw > MAX_PLATFORM_FEE_LAMPORTS {
        MAX_PLATFORM_FEE_LAMPORTS
    } else {
        raw as u64
    }
}

/// `value * 10 / 10_000` is `value / 1_000`, which lets the fee be computed
/// without widening the multiplication.
proof fn lemma_fee_quotient(value: u64)
    ensures
        (value * PLATFORM_FEE_BASIS_POINTS) / 10_000 == value / 1_000,
{
    lemma_div_denominator(value * 10, 10, 1_000);
    lemma_div_multiples_vanish(value as int, 10);
    assert(value * 10 == 10 * value);
}

/// Computes the platform fee for a contract of the given nominal value.
pub fn platform_fee(contract_value_lamports: u64) -> (fee: u64)
    ensures
        fee == spec_platform_fee(contract_value_lamports),
        MIN_PLATFORM_FEE_LAMPORTS <= fee <= MAX_PLATFORM_FEE_LAMPORTS,
{
    proof {
        lemma_fee_quotient(contract_value_lamports);
    }
    let raw = contract_value_lamports / 1_000;
    if raw < MIN_PLATFORM_FEE_LAMPORTS {
        MIN_PLATFORM_FEE_LAMPORTS
    } else if raw > MAX_PLATFORM_FEE_LAMPORTS {
        MAX_PLATFORM_FEE_LAMPORTS
    } else {
        raw
    }
}

} // verus!
