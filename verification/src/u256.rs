//! Arithmetic on 256-bit integers.

use alloy_primitives::U256 as Integer;
use vstd::prelude::*;

use crate::onchain_config::abi;
use crate::primitives;
use crate::primitives::{B256, U256};

verus! {

/// How many values a 256-bit integer takes.
pub open spec fn u256_count() -> nat {
    0x1_0000_0000_0000_0000_0000_0000_0000_0000_0000_0000_0000_0000_0000_0000_0000_0000nat
}

/// `alloy_primitives::U256::pow`: raises `base` to the power of `exponent`, wrapping around.
#[verifier::external_body]
pub(crate) fn u256_pow(base: &U256, exponent: &U256) -> (r: U256)
    ensures
        primitives::u256_value(r) == vstd::arithmetic::power::pow(
            primitives::u256_value(*base) as int,
            primitives::u256_value(*exponent),
        ) % (u256_count() as int),
{
    Integer::from_limbs(*base).pow(Integer::from_limbs(*exponent)).into_limbs()
}

/// Division of `alloy_primitives::U256`: the quotient, rounded down.
#[verifier::external_body]
pub(crate) fn u256_div(dividend: &U256, divisor: &U256) -> (r: U256)
    requires
        primitives::u256_value(*divisor) != 0,
    ensures
        primitives::u256_value(r) == primitives::u256_value(*dividend) / primitives::u256_value(
            *divisor,
        ),
{
    (Integer::from_limbs(*dividend) / Integer::from_limbs(*divisor)).into_limbs()
}

/// `alloy_primitives::U256::to_be_bytes`: the 32 bytes of `x`, the most significant first.
#[verifier::external_body]
pub(crate) fn u256_to_be_bytes(x: &U256) -> (r: B256)
    ensures
        r@ == abi::word(primitives::u256_value(*x)),
{
    Integer::from_limbs(*x).to_be_bytes()
}

/// `x` as a 64-bit integer, if it fits into one.
pub fn u256_to_u64(x: &U256) -> (r: Option<u64>)
    ensures
        match r {
            Some(v) => v == primitives::u256_value(*x),
            None => primitives::u256_value(*x) > u64::MAX,
        },
{
    if x[1] == 0 && x[2] == 0 && x[3] == 0 {
        Some(x[0])
    } else {
        None
    }
}

} // verus!
