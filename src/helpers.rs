//! The permille split of a deposit and the check of the coins received.
use vstd::prelude::*;

use crate::decimal::{mul_floor, mul_floor_spec, permille_atomics, PERMILLE_ATOMICS};
use crate::error::ContractError;
use crate::msg::Coin;
use crate::state::Config;

verus! {

/// `floor(amount * permille / 1000)`: the share of `amount` at a weight.
pub open spec fn permille_of(amount: int, permille: int) -> int {
    amount * permille / 1000
}

impl Config {
    /// Every share of `amount` fits a `u128`.
    pub open spec fn shares_fit(self, amount: int) -> bool {
        &&& permille_of(amount, self.burn_permille_u64 as int) <= u128::MAX
        &&& permille_of(amount, self.dev_fees_permille_u64 as int) <= u128::MAX
        &&& permille_of(amount, self.balance_development_fund_permille_u64 as int) <= u128::MAX
        &&& permille_of(amount, self.juno_development_fund_permille_u64 as int) <= u128::MAX
    }

    /// Sum of the four shares of `amount`.
    pub open spec fn split_total(self, amount: int) -> int {
        permille_of(amount, self.burn_permille_u64 as int) + permille_of(
            amount,
            self.dev_fees_permille_u64 as int,
        ) + permille_of(amount, self.balance_development_fund_permille_u64 as int)
            + permille_of(amount, self.juno_development_fund_permille_u64 as int)
    }

    /// The four shares of `amount`, each floored.
    pub open spec fn split(self, amount: int) -> AmountsToDistribute {
        AmountsToDistribute {
            burned: permille_of(amount, self.burn_permille_u64 as int) as u128,
            balance_dev_fund: permille_of(
                amount,
                self.balance_development_fund_permille_u64 as int,
            ) as u128,
            juno_dev_fund: permille_of(amount, self.juno_development_fund_permille_u64 as int) as u128,
            dev: permille_of(amount, self.dev_fees_permille_u64 as int) as u128,
        }
    }

    /// The shares of `amount` add up to `amount` itself.
    pub open spec fn splits_exactly(self, amount: int) -> bool {
        self.split_total(amount) == amount
    }
}

/// The four shares of one deposit.
#[derive(Debug, Clone, Copy, PartialEq, Eq, Structural)]
pub struct AmountsToDistribute {
    pub burned: u128,
    pub balance_dev_fund: u128,
    pub juno_dev_fund: u128,
    pub dev: u128,
}

impl AmountsToDistribute {
    pub open spec fn total(self) -> int {
        self.dev as int + self.balance_dev_fund as int + self.juno_dev_fund as int
            + self.burned as int
    }

    /// Each share is the weight of `config` applied to `amount`.
    pub open spec fn is_split_of(self, config: Config, amount: int) -> bool {
        &&& self.burned == permille_of(amount, config.burn_permille_u64 as int)
        &&& self.dev == permille_of(amount, config.dev_fees_permille_u64 as int)
        &&& self.balance_dev_fund == permille_of(
            amount,
            config.balance_development_fund_permille_u64 as int,
        )
        &&& self.juno_dev_fund == permille_of(
            amount,
            config.juno_development_fund_permille_u64 as int,
        )
    }

    pub fn init() -> (r: AmountsToDistribute)
        ensures
            r.burned == 0,
            r.balance_dev_fund == 0,
            r.juno_dev_fund == 0,
            r.dev == 0,
    {
        AmountsToDistribute { burned: 0, balance_dev_fund: 0, juno_dev_fund: 0, dev: 0 }
    }

    pub fn total_value(&self) -> (r: u128)
        requires
            self.total() <= u128::MAX,
        ensures
            r == self.total(),
    {
        self.dev + self.balance_dev_fund + self.juno_dev_fund + self.burned
    }
}

/// The funds are exactly one coin, of `accepted_denom`, with a positive amount.
pub open spec fn funds_valid(accepted_denom: Seq<char>, funds: Seq<Coin>) -> bool {
    &&& funds.len() == 1
    &&& funds[0].denom@ == accepted_denom
    &&& funds[0].amount > 0
}

pub fn validate_coin_received(accepted_denom: &String, funds: &Vec<Coin>) -> (r: Result<(), ContractError>)
    ensures
        r is Ok <==> funds_valid(accepted_denom@, funds@),
        r is Err ==> r->Err_0 == (ContractError::InvalidFundsReceived {}),
{
    if funds.len() != 1 {
        return Err(ContractError::InvalidFundsReceived {});
    }
    if funds[0].denom != *accepted_denom {
        return Err(ContractError::InvalidFundsReceived {});
    }
    if funds[0].amount == 0 {
        return Err(ContractError::InvalidFundsReceived {});
    }
    Ok(())
}

proof fn lemma_permille_product(amount: int, permille: int)
    requires
        amount >= 0,
        permille >= 0,
    ensures
        mul_floor_spec(amount, permille * PERMILLE_ATOMICS as int) == permille_of(amount, permille),
{
    let k = PERMILLE_ATOMICS as int;
    vstd::arithmetic::mul::lemma_mul_is_associative(amount, permille, k);
    vstd::arithmetic::mul::lemma_mul_nonnegative(amount, permille);
    vstd::arithmetic::div_mod::lemma_div_multiples_vanish_quotient(k, amount * permille, 1000);
    vstd::arithmetic::mul::lemma_mul_is_commutative(k, amount * permille);
}

/// The share of `amount` at `permille`, through the decimal `permille / 1000`.
fn share(amount: u128, permille: u64) -> (r: u128)
    requires
        permille_of(amount as int, permille as int) <= u128::MAX,
    ensures
        r == permille_of(amount as int, permille as int),
{
    let atomics = permille_atomics(permille);
    proof {
        lemma_permille_product(amount as int, permille as int);
    }
    mul_floor(amount, atomics)
}

/// Splits `amount_received` by the weights of `config`; refused when the
/// floored shares do not add back up to the amount.
pub fn compute_amounts_to_distribute(config: &Config, amount_received: u128) -> (r: Result<AmountsToDistribute, ContractError>)
    requires
        config.shares_fit(amount_received as int),
    ensures
        r is Ok <==> config.splits_exactly(amount_received as int),
        r is Ok ==> r->Ok_0.is_split_of(*config, amount_received as int),
        r is Ok ==> r->Ok_0 == config.split(amount_received as int),
        r is Err ==> r->Err_0 == (ContractError::InvalidAmountsDistribution {}),
{
    let mut amounts_to_send = AmountsToDistribute::init();
    amounts_to_send.burned = share(amount_received, config.burn_permille_u64);
    amounts_to_send.dev = share(amount_received, config.dev_fees_permille_u64);
    amounts_to_send.balance_dev_fund = share(
        amount_received,
        config.balance_development_fund_permille_u64,
    );
    amounts_to_send.juno_dev_fund = share(
        amount_received,
        config.juno_development_fund_permille_u64,
    );
    // Shares cannot come back down, so a running total past the amount means
    // the split is off; checking it keeps every sum in range.
    let a = amounts_to_send;
    if a.dev > amount_received || a.balance_dev_fund > amount_received - a.dev {
        return Err(ContractError::InvalidAmountsDistribution {});
    }
    if a.juno_dev_fund > amount_received - a.dev - a.balance_dev_fund {
        return Err(ContractError::InvalidAmountsDistribution {});
    }
    if a.burned > amount_received - a.dev - a.balance_dev_fund - a.juno_dev_fund {
        return Err(ContractError::InvalidAmountsDistribution {});
    }
    if amounts_to_send.total_value() != amount_received {
        return Err(ContractError::InvalidAmountsDistribution {});
    }
    Ok(amounts_to_send)
}

} // verus!
