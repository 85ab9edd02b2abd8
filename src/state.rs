//! The records the contract keeps: its configuration, its lifetime
//! statistics, the pending burn and the snapshot written by migration.
use vstd::prelude::*;

use crate::constants::{BALANCE_MAX_SUPPLY, JUNO_MAX_SUPPLY};
use crate::error::ContractError;
use crate::helpers::{compute_amounts_to_distribute, AmountsToDistribute};
use crate::msg::{Coin, InstantiateMsg};

verus! {

/// Sum of four permille weights.
pub open spec fn weights_total(burn: u64, dev: u64, balance_fund: u64, juno_fund: u64) -> int {
    burn as int + dev as int + balance_fund as int + juno_fund as int
}

/// The configuration fixed at creation; only `enabled` changes later.
#[derive(Debug, Clone, PartialEq, Eq)]
pub struct Config {
    pub contract_owner: String,
    pub enabled: bool,
    pub accepted_denom: String,
    pub factory_denom: String,
    pub balance_development_fund_addr: String,
    pub juno_development_fund_addr: String,
    pub dev_addr: String,
    pub burn_permille_u64: u64,
    pub dev_fees_permille_u64: u64,
    pub balance_development_fund_permille_u64: u64,
    pub juno_development_fund_permille_u64: u64,
}

impl InstantiateMsg {
    /// The four weights add up to exactly one thousand permille.
    pub open spec fn weights_valid(self) -> bool {
        weights_total(
            self.burn_permille_u64,
            self.dev_fees_permille_u64,
            self.balance_development_fund_permille_u64,
            self.juno_development_fund_permille_u64,
        ) == 1000
    }
}

impl Config {
    /// The four weights add up to exactly one thousand permille, so that each
    /// lies in `[0, 1000]`.
    pub open spec fn weights_valid(self) -> bool {
        weights_total(
            self.burn_permille_u64,
            self.dev_fees_permille_u64,
            self.balance_development_fund_permille_u64,
            self.juno_development_fund_permille_u64,
        ) == 1000
    }

    /// The configuration that a valid `init_msg` from `sender` yields.
    pub open spec fn built_from(
        self,
        sender: Seq<char>,
        init_msg: InstantiateMsg,
        factory_denom: Seq<char>,
    ) -> bool {
        &&& self.contract_owner@ == sender
        &&& self.enabled
        &&& self.accepted_denom == init_msg.accepted_denom
        &&& self.factory_denom@ == factory_denom
        &&& self.balance_development_fund_addr == init_msg.balance_development_fund_addr
        &&& self.juno_development_fund_addr == init_msg.juno_development_fund_addr
        &&& self.dev_addr == init_msg.dev_addr
        &&& self.burn_permille_u64 == init_msg.burn_permille_u64
        &&& self.dev_fees_permille_u64 == init_msg.dev_fees_permille_u64
        &&& self.balance_development_fund_permille_u64
            == init_msg.balance_development_fund_permille_u64
        &&& self.juno_development_fund_permille_u64 == init_msg.juno_development_fund_permille_u64
    }

    /// Checks the weights of `init_msg` and builds the configuration, owned by
    /// `sender` and enabled. The addresses are taken as given: checking their
    /// format is the host's part.
    pub fn validate(sender: &str, init_msg: InstantiateMsg, factory_denom: String) -> (r: Result<Self, ContractError>)
        ensures
            r is Ok <==> init_msg.weights_valid(),
            r is Err ==> r->Err_0 == (ContractError::InvalidInitMsg {}),
            r is Ok ==> r->Ok_0.built_from(sender@, init_msg, factory_denom@),
            r is Ok ==> r->Ok_0.weights_valid(),
    {
        let total_dist: u128 = init_msg.burn_permille_u64 as u128
            + init_msg.dev_fees_permille_u64 as u128
            + init_msg.balance_development_fund_permille_u64 as u128
            + init_msg.juno_development_fund_permille_u64 as u128;
        if total_dist != 1_000u128 {
            return Err(ContractError::InvalidInitMsg {});
        }
        if init_msg.burn_permille_u64 > 1_000 || init_msg.dev_fees_permille_u64 > 1_000
            || init_msg.juno_development_fund_permille_u64 > 1_000
            || init_msg.balance_development_fund_permille_u64 > 1_000 {
            return Err(ContractError::InvalidInitMsg {});
        }
        let config = Config {
            contract_owner: sender.to_owned(),
            enabled: true,
            accepted_denom: init_msg.accepted_denom,
            factory_denom,
            balance_development_fund_addr: init_msg.balance_development_fund_addr,
            juno_development_fund_addr: init_msg.juno_development_fund_addr,
            dev_addr: init_msg.dev_addr,
            burn_permille_u64: init_msg.burn_permille_u64,
            dev_fees_permille_u64: init_msg.dev_fees_permille_u64,
            balance_development_fund_permille_u64: init_msg.balance_development_fund_permille_u64,
            juno_development_fund_permille_u64: init_msg.juno_development_fund_permille_u64,
        };
        // A trial split of a round amount. Weights that sum to one thousand
        // always pass it, as the lemmas below show.
        proof {
            crate::laws::lemma_split_fits(config, 1_000_000);
            crate::laws::lemma_round_amount_splits_exactly(config, 1_000_000);
        }
        match compute_amounts_to_distribute(&config, 1_000_000u128) {
            Ok(_) => Ok(config),
            Err(e) => Err(e),
        }
    }
}

/// Lifetime totals, in the smallest units of each coin.
#[derive(Debug, Clone, Copy, PartialEq, Eq, Structural)]
pub struct Statistics {
    pub received: u128,
    pub burned: u128,
    pub distributed: u128,
    pub dev_fees: u128,
    pub balance_dev_fund: u128,
    pub juno_dev_fund: u128,
}

impl Statistics {
    /// What every reachable ledger satisfies: both ceilings hold, and the
    /// burned and sent shares account for every unit received.
    pub open spec fn wf(self) -> bool {
        &&& self.received <= JUNO_MAX_SUPPLY
        &&& self.distributed <= BALANCE_MAX_SUPPLY
        &&& self.burned + self.dev_fees + self.balance_dev_fund + self.juno_dev_fund
            == self.received
    }

    /// `self` is `prev` with one swap of `swap_amount_in`, split as
    /// `amounts`, and `swap_amount_out` minted, added on.
    pub open spec fn accumulates(
        self,
        prev: Statistics,
        amounts: AmountsToDistribute,
        swap_amount_out: int,
        swap_amount_in: int,
    ) -> bool {
        &&& self.received == prev.received + swap_amount_in
        &&& self.burned == prev.burned + amounts.burned
        &&& self.distributed == prev.distributed + swap_amount_out
        &&& self.dev_fees == prev.dev_fees + amounts.dev
        &&& self.balance_dev_fund == prev.balance_dev_fund + amounts.balance_dev_fund
        &&& self.juno_dev_fund == prev.juno_dev_fund + amounts.juno_dev_fund
    }

    pub open spec fn is_zero(self) -> bool {
        &&& self.received == 0
        &&& self.burned == 0
        &&& self.distributed == 0
        &&& self.dev_fees == 0
        &&& self.balance_dev_fund == 0
        &&& self.juno_dev_fund == 0
    }

    pub fn zero() -> (r: Self)
        ensures
            r.is_zero(),
            r.wf(),
    {
        Statistics {
            received: 0,
            burned: 0,
            distributed: 0,
            dev_fees: 0,
            balance_dev_fund: 0,
            juno_dev_fund: 0,
        }
    }

    /// Adds one swap to the totals; the sums must fit.
    pub fn add(
        &mut self,
        amount_to_distribute: &AmountsToDistribute,
        swap_amount_out: u128,
        swap_amount_in: u128,
    ) -> (r: &mut Statistics)
        requires
            old(self).received + swap_amount_in <= u128::MAX,
            old(self).burned + amount_to_distribute.burned <= u128::MAX,
            old(self).distributed + swap_amount_out <= u128::MAX,
            old(self).dev_fees + amount_to_distribute.dev <= u128::MAX,
            old(self).balance_dev_fund + amount_to_distribute.balance_dev_fund <= u128::MAX,
            old(self).juno_dev_fund + amount_to_distribute.juno_dev_fund <= u128::MAX,
        ensures
            (*r).accumulates(
                *old(self),
                *amount_to_distribute,
                swap_amount_out as int,
                swap_amount_in as int,
            ),
            *final(self) == *final(r),
    {
        self.burned = self.burned + amount_to_distribute.burned;
        self.received = self.received + swap_amount_in;
        self.distributed = self.distributed + swap_amount_out;
        self.dev_fees = self.dev_fees + amount_to_distribute.dev;
        self.balance_dev_fund = self.balance_dev_fund + amount_to_distribute.balance_dev_fund;
        self.juno_dev_fund = self.juno_dev_fund + amount_to_distribute.juno_dev_fund;
        self
    }
}

/// The pending burn as it stood when migration restated it.
#[derive(Debug, Clone, PartialEq, Eq)]
pub struct BurnedSnapshot {
    pub denom: String,
    pub amount: u128,
    /// Block time of the migration, in nanoseconds since the epoch.
    pub snapshot_time: u64,
}

/// Everything the contract keeps between calls.
#[derive(Debug, Clone, PartialEq, Eq)]
pub struct ContractState {
    pub config: Config,
    pub stats: Statistics,
    /// Accepted coin held by the contract until an outside burn.
    pub to_burn: Coin,
    /// Absent until the first migration.
    pub burned_snapshot: Option<BurnedSnapshot>,
}

impl ContractState {
    /// What every state that the operations reach satisfies.
    pub open spec fn wf(self) -> bool {
        &&& self.config.weights_valid()
        &&& self.stats.wf()
        &&& self.to_burn.amount <= self.stats.burned
    }

    /// Checks `wf` on a state read back from storage.
    pub fn is_well_formed(&self) -> (r: bool)
        ensures
            r == self.wf(),
    {
        let c = &self.config;
        let s = &self.stats;
        let weights: u128 = c.burn_permille_u64 as u128 + c.dev_fees_permille_u64 as u128
            + c.balance_development_fund_permille_u64 as u128
            + c.juno_development_fund_permille_u64 as u128;
        if weights != 1_000 || s.received > JUNO_MAX_SUPPLY || s.distributed > BALANCE_MAX_SUPPLY {
            return false;
        }
        // Each part is checked against what is left of `received`, so that no
        // sum leaves the range.
        if s.burned > s.received || s.dev_fees > s.received - s.burned {
            return false;
        }
        let rest = s.received - s.burned - s.dev_fees;
        if s.balance_dev_fund > rest || s.juno_dev_fund != rest - s.balance_dev_fund {
            return false;
        }
        self.to_burn.amount <= s.burned
    }
}

} // verus!
