//! Amounts of value (in the smallest indivisible unit) and the cost of
//! persisted bytes.
use vstd::prelude::*;

verus! {

/// The smallest indivisible unit of value, attached to a call as proof that
/// the caller meant it.
pub const ONE_UNIT: u128 = 1;

/// `a * b`, capped at the largest representable amount.
pub open spec fn saturating_product(a: int, b: int) -> int {
    if a * b > u128::MAX {
        u128::MAX as int
    } else {
        a * b
    }
}

/// The price of `bytes` bytes at `price_per_byte`, capped at the largest
/// representable amount.
pub open spec fn cost_of(price_per_byte: u128, bytes: u64) -> int {
    saturating_product(price_per_byte as int, bytes as int)
}

/// Multiplies a price per byte by a byte count, saturating at `u128::MAX`.
pub fn storage_cost(price_per_byte: u128, bytes: u64) -> (r: u128)
    ensures
        r == cost_of(price_per_byte, bytes),
{
    match price_per_byte.checked_mul(bytes as u128) {
        Some(c) => c,
        None => u128::MAX,
    }
}

} // verus!
