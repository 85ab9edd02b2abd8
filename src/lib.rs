//! Fixed-ratio swap accounting: a deposit of the accepted coin is split by
//! permille weights into a burn share and three beneficiary shares, and the
//! depositor is minted the factory token at the ratio of the two supply
//! ceilings. Lifetime statistics and the pending burn are kept in an explicit
//! state value that the host persists.
pub mod constants;
pub mod contract;
pub mod decimal;
pub mod error;
pub mod executes;
pub mod helpers;
pub mod laws;
pub mod msg;
pub mod state;
