//! The messages the host hands in and the effects handed back to it.
use vstd::prelude::*;

use crate::state::{BurnedSnapshot, Config, Statistics};

verus! {

/// The parameters of a new contract.
#[derive(Debug, Clone, PartialEq, Eq)]
pub struct InstantiateMsg {
    pub accepted_denom: String,
    pub balance_development_fund_addr: String,
    pub juno_development_fund_addr: String,
    pub dev_addr: String,
    pub burn_permille_u64: u64,
    pub dev_fees_permille_u64: u64,
    pub balance_development_fund_permille_u64: u64,
    pub juno_development_fund_permille_u64: u64,
}

#[derive(Debug, Clone, Copy, PartialEq, Eq, Structural)]
pub enum ExecuteMsg {
    Swap {},
    EnableDisable {},
    Burn {},
}

#[derive(Debug, Clone, Copy, PartialEq, Eq, Structural)]
pub enum QueryMsg {
    GetConfig {},
    GetStats {},
    GetBurnedSnapshot {},
    GetToBurn {},
}

#[derive(Debug, Clone, Copy, PartialEq, Eq, Structural)]
pub struct MigrateMsg {}

/// An amount of one denomination.
#[derive(Debug, Clone, PartialEq, Eq)]
pub struct Coin {
    pub denom: String,
    pub amount: u128,
}

/// A command for the host ledger, executed after the operation commits.
#[derive(Debug, Clone, PartialEq, Eq)]
pub enum Effect {
    /// Create the factory denomination `factory/<contract>/<subdenom>`.
    CreateDenom { subdenom: String },
    /// Send `amount` of `denom` from the contract to `to_address`.
    Send { to_address: String, denom: String, amount: u128 },
    /// Mint `amount` of the factory denomination `denom` to `mint_to_address`.
    Mint { denom: String, amount: u128, mint_to_address: String },
}

/// The record a query reads.
#[derive(Debug, Clone, PartialEq, Eq)]
pub enum QueryAnswer {
    Config(Config),
    Stats(Statistics),
    BurnedSnapshot(BurnedSnapshot),
    ToBurn(Coin),
}

} // verus!
