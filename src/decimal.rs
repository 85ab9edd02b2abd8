//! Fixed-point arithmetic through `cosmwasm_std::Decimal`, whose values are
//! held here as their atomics: an integer count of 10^-18 units.
use vstd::prelude::*;

use cosmwasm_std::{Decimal, Uint128};

verus! {

/// Number of atomics in one whole unit of a decimal.
pub const DECIMAL_FRACTIONAL: u128 = 1_000_000_000_000_000_000u128;

/// Atomics in one permille.
pub const PERMILLE_ATOMICS: u128 = 1_000_000_000_000_000u128;

/// `floor(numerator / denominator)` as a decimal, in atomics.
pub open spec fn ratio_atomics(numerator: int, denominator: int) -> int {
    numerator * DECIMAL_FRACTIONAL as int / denominator
}

/// `floor(amount * d)` for a decimal `d` given in atomics.
pub open spec fn mul_floor_spec(amount: int, atomics: int) -> int {
    amount * atomics / DECIMAL_FRACTIONAL as int
}

/// Relies on `Decimal::permille`: the decimal `x / 1000`, whose atomics are
/// `x * 10^15`.
#[verifier::external_body]
pub(crate) fn permille_atomics(x: u64) -> (r: u128)
    ensures
        r == x as int * PERMILLE_ATOMICS as int,
{
    Decimal::permille(x).atomics().u128()
}

/// Relies on `Decimal::from_ratio`: the quotient, floored to 18 decimals. It
/// panics on a zero denominator or when the quotient leaves the range, which
/// `requires` rules out.
#[verifier::external_body]
pub(crate) fn from_ratio_atomics(numerator: u128, denominator: u128) -> (r: u128)
    requires
        denominator > 0,
        ratio_atomics(numerator as int, denominator as int) <= u128::MAX,
    ensures
        r == ratio_atomics(numerator as int, denominator as int),
{
    Decimal::from_ratio(Uint128::new(numerator), Uint128::new(denominator)).atomics().u128()
}

/// Relies on `Uint128 * Decimal` (`Uint128::multiply_ratio` by the atomics
/// over 10^18): the product, floored. It panics when the product leaves the
/// range, which `requires` rules out.
#[verifier::external_body]
pub(crate) fn mul_floor(amount: u128, atomics: u128) -> (r: u128)
    requires
        mul_floor_spec(amount as int, atomics as int) <= u128::MAX,
    ensures
        r == mul_floor_spec(amount as int, atomics as int),
{
    (Uint128::new(amount) * Decimal::new(Uint128::new(atomics))).u128()
}

} // verus!
