//! Wei amounts as 256-bit integers, and the conversions from gwei figures.

use ethers_core::types::U256;
use vstd::prelude::*;

verus! {

/// `ethers_core::types::U256`, an unsigned 256-bit integer, carried as an
/// opaque value.
#[verifier::external_type_specification]
#[verifier::external_body]
pub struct ExU256(U256);

/// The number that a `U256` holds. Nothing inside a `U256` is visible here:
/// what is known of this number is what the three calls below say of their
/// results.
pub uninterp spec fn u256_value(x: U256) -> nat;

/// Wei in one gwei.
pub const GWEI_TO_WEI: u64 = 1_000_000_000;

/// The first number that a `U256` cannot hold, two to the power 256.
pub open spec fn u256_limit() -> nat {
    0x1_0000_0000_0000_0000_0000_0000_0000_0000nat * 0x1_0000_0000_0000_0000_0000_0000_0000_0000nat
}

/// `<U256 as From<u64>>::from`: the result holds the same number as the
/// argument.
#[verifier::external_body]
fn u256_from_u64(x: u64) -> (r: U256)
    ensures
        u256_value(r) == x as nat,
{
    U256::from(x)
}

/// `<U256 as Mul<U256>>::mul`: the result holds the product of the two
/// numbers. The outside crate panics where the product does not fit in 256
/// bits, which the precondition leaves out.
#[verifier::external_body]
fn u256_mul(a: U256, b: U256) -> (r: U256)
    requires
        u256_value(a) * u256_value(b) < u256_limit(),
    ensures
        u256_value(r) == u256_value(a) * u256_value(b),
{
    a * b
}

/// `<U256 as Div<U256>>::div`: the result holds the quotient of the two
/// numbers, rounded down. The outside crate panics on a zero divisor, which
/// the precondition leaves out.
#[verifier::external_body]
fn u256_div(a: U256, b: U256) -> (r: U256)
    requires
        u256_value(b) > 0,
    ensures
        u256_value(r) == u256_value(a) / u256_value(b),
{
    a / b
}

/// Wei for a tier's composite price: the figure times one gwei, divided by
/// ten.
pub open spec fn legacy_price_wei(price: u64) -> nat {
    (price as nat * GWEI_TO_WEI as nat) / 10
}

/// Wei for an amount given in hundredths of a gwei: the amount times one
/// gwei, divided by a hundred.
pub open spec fn centigwei_wei(amount: u64) -> nat {
    (amount as nat * GWEI_TO_WEI as nat) / 100
}

/// `numerator * GWEI_TO_WEI / divisor` in 256-bit arithmetic.
fn scale_gwei(numerator: u64, divisor: u64) -> (wei: U256)
    requires
        divisor > 0,
    ensures
        u256_value(wei) == (numerator as nat * GWEI_TO_WEI as nat) / (divisor as nat),
{
    let n = u256_from_u64(numerator);
    let unit = u256_from_u64(GWEI_TO_WEI);
    assert(u256_value(n) * u256_value(unit) < u256_limit()) by {
        assert(u256_value(n) * u256_value(unit) == numerator as nat * 1_000_000_000);
        assert(numerator as nat * 1_000_000_000 < 0x1_0000_0000_0000_0000_0000_0000_0000_0000nat);
        assert(0x1_0000_0000_0000_0000_0000_0000_0000_0000nat <= u256_limit()) by (nonlinear_arith);
    }
    let product = u256_mul(n, unit);
    let d = u256_from_u64(divisor);
    u256_div(product, d)
}

/// Converts a tier's composite price to wei.
pub fn gwei_price_to_wei(price: u64) -> (wei: U256)
    ensures
        u256_value(wei) == legacy_price_wei(price),
{
    scale_gwei(price, 10)
}

/// Converts an amount in hundredths of a gwei to wei.
pub fn centigwei_to_wei(amount: u64) -> (wei: U256)
    ensures
        u256_value(wei) == centigwei_wei(amount),
{
    scale_gwei(amount, 100)
}

/// A hundredth of a gwei is ten million wei: the conversion loses nothing.
pub proof fn lemma_centigwei_exact(amount: u64)
    ensures
        centigwei_wei(amount) == amount as nat * 10_000_000,
        centigwei_wei(amount) * 100 == amount as nat * GWEI_TO_WEI as nat,
{
}

/// One unit of a composite price is a hundred million wei.
pub proof fn lemma_legacy_price_exact(price: u64)
    ensures
        legacy_price_wei(price) == price as nat * 100_000_000,
{
}

} // verus!
