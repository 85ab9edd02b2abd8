use vstd::prelude::*;

verus! {

/// Ceiling on the factory token ever minted (6 decimals).
pub const BALANCE_MAX_SUPPLY: u128 = 21_000_000_000_000u128;

/// Ceiling on the accepted coin ever received (6 decimals).
pub const JUNO_MAX_SUPPLY: u128 = 185_562_268_000_000u128;

} // verus!
