//! The contract's operations on an explicit state: creation, the executed
//! messages, the queries and migration.
use vstd::prelude::*;
use vstd::string::StringExecFns;

use crate::error::ContractError;
use crate::executes::{swap, swap_effects, swap_refusal, swapped};
use crate::msg::{Coin, Effect, ExecuteMsg, InstantiateMsg, MigrateMsg, QueryAnswer, QueryMsg};
use crate::state::{BurnedSnapshot, Config, ContractState, Statistics};

verus! {

/// Name of the factory token, under the contract's address.
pub open spec fn factory_denom_of(contract_address: Seq<char>) -> Seq<char> {
    "factory/"@ + contract_address + "/balance"@
}

/// `new` is `prev` with the swap switch flipped.
pub open spec fn toggled(prev: ContractState, new: ContractState) -> bool {
    &&& new.config == (Config { enabled: !prev.config.enabled, ..prev.config })
    &&& new.stats == prev.stats
    &&& new.to_burn == prev.to_burn
    &&& new.burned_snapshot == prev.burned_snapshot
}

/// `new` is `prev` after migration at `now`: the pending burn is restated in
/// a snapshot and starts again from zero.
pub open spec fn migrated(prev: ContractState, new: ContractState, now: u64) -> bool {
    &&& new.config == prev.config
    &&& new.stats == prev.stats
    &&& new.to_burn.denom == prev.config.accepted_denom
    &&& new.to_burn.amount == 0
    &&& new.burned_snapshot == Some(
        BurnedSnapshot {
            denom: prev.config.accepted_denom,
            amount: prev.to_burn.amount,
            snapshot_time: now,
        },
    )
}

/// Creates the contract at `contract_address` for `sender`: the
/// configuration from `init_msg`, empty statistics, nothing to burn and no
/// snapshot, and the command that creates the factory token.
pub fn instantiate(sender: &str, contract_address: &str, init_msg: InstantiateMsg) -> (r: Result<(ContractState, Vec<Effect>), ContractError>)
    ensures
        r is Ok <==> init_msg.weights_valid(),
        r is Err ==> r->Err_0 == (ContractError::InvalidInitMsg {}),
        r is Ok ==> r->Ok_0.0.wf(),
        r is Ok ==> r->Ok_0.0.config.built_from(
            sender@,
            init_msg,
            factory_denom_of(contract_address@),
        ),
        r is Ok ==> r->Ok_0.0.stats.is_zero(),
        r is Ok ==> r->Ok_0.0.to_burn.denom == init_msg.accepted_denom,
        r is Ok ==> r->Ok_0.0.to_burn.amount == 0,
        r is Ok ==> r->Ok_0.0.burned_snapshot is None,
        r is Ok ==> r->Ok_0.1@.len() == 1,
        r is Ok ==> r->Ok_0.1@[0] is CreateDenom,
        r is Ok ==> r->Ok_0.1@[0]->subdenom@ == "balance"@,
{
    let mut factory_denom = String::from_str("factory/");
    factory_denom.append(contract_address);
    factory_denom.append("/balance");
    let config = match Config::validate(sender, init_msg, factory_denom) {
        Ok(c) => c,
        Err(e) => return Err(e),
    };
    let to_burn = Coin { denom: config.accepted_denom.clone(), amount: 0 };
    let state = ContractState {
        config,
        stats: Statistics::zero(),
        to_burn,
        burned_snapshot: None,
    };
    let mut effects: Vec<Effect> = Vec::new();
    effects.push(Effect::CreateDenom { subdenom: String::from_str("balance") });
    Ok((state, effects))
}

/// Runs `msg` from `sender`, who attached `funds`. A refused message leaves
/// the state as it was.
pub fn execute(state: &mut ContractState, sender: &str, funds: &Vec<Coin>, msg: ExecuteMsg) -> (r: Result<Vec<Effect>, ContractError>)
    requires
        old(state).wf(),
    ensures
        final(state).wf(),
        r is Err ==> *final(state) == *old(state),
        msg is Swap && !old(state).config.enabled ==> r == Err::<Vec<Effect>, ContractError>(
            ContractError::SwapDisabled {},
        ),
        msg is Swap && old(state).config.enabled && swap_refusal(*old(state), funds@) is Some
            ==> r == Err::<Vec<Effect>, ContractError>(swap_refusal(*old(state), funds@)->0),
        msg is Swap && old(state).config.enabled && swap_refusal(*old(state), funds@) is None
            ==> r is Ok,
        msg is Swap && r is Ok ==> swapped(*old(state), *final(state), funds@[0].amount as int),
        msg is Swap && r is Ok ==> swap_effects(
            r->Ok_0@,
            old(state).config,
            sender@,
            funds@[0].amount as int,
        ),
        msg is EnableDisable && sender@ != old(state).config.contract_owner@ ==> r == Err::<
            Vec<Effect>,
            ContractError,
        >(ContractError::Unauthorized {}),
        msg is EnableDisable && sender@ == old(state).config.contract_owner@ ==> r is Ok,
        msg is EnableDisable && r is Ok ==> toggled(*old(state), *final(state)),
        msg is EnableDisable && r is Ok ==> r->Ok_0@.len() == 0,
        msg is Burn ==> r == Err::<Vec<Effect>, ContractError>(ContractError::NotImplementedYet {}),
{
    match msg {
        ExecuteMsg::Swap {} => {
            if !state.config.enabled {
                return Err(ContractError::SwapDisabled {});
            }
            swap(state, sender, funds)
        },
        ExecuteMsg::EnableDisable {} => {
            let owner: &str = state.config.contract_owner.as_str();
            if !str_eq(sender, owner) {
                return Err(ContractError::Unauthorized {});
            }
            state.config.enabled = !state.config.enabled;
            Ok(Vec::new())
        },
        ExecuteMsg::Burn {} => Err(ContractError::NotImplementedYet {}),
    }
}

fn str_eq(a: &str, b: &str) -> (r: bool)
    ensures
        r == (a@ == b@),
{
    let x = String::from_str(a);
    let y = String::from_str(b);
    x == y
}

fn copy_config(c: &Config) -> (r: Config)
    ensures
        r == *c,
{
    Config {
        contract_owner: c.contract_owner.clone(),
        enabled: c.enabled,
        accepted_denom: c.accepted_denom.clone(),
        factory_denom: c.factory_denom.clone(),
        balance_development_fund_addr: c.balance_development_fund_addr.clone(),
        juno_development_fund_addr: c.juno_development_fund_addr.clone(),
        dev_addr: c.dev_addr.clone(),
        burn_permille_u64: c.burn_permille_u64,
        dev_fees_permille_u64: c.dev_fees_permille_u64,
        balance_development_fund_permille_u64: c.balance_development_fund_permille_u64,
        juno_development_fund_permille_u64: c.juno_development_fund_permille_u64,
    }
}

/// Reads the record that `msg` names; `None` for the snapshot before any
/// migration.
pub fn query(state: &ContractState, msg: QueryMsg) -> (r: Option<QueryAnswer>)
    ensures
        msg is GetConfig ==> r == Some(QueryAnswer::Config(state.config)),
        msg is GetStats ==> r == Some(QueryAnswer::Stats(state.stats)),
        msg is GetToBurn ==> r == Some(QueryAnswer::ToBurn(state.to_burn)),
        msg is GetBurnedSnapshot && state.burned_snapshot is None ==> r is None,
        msg is GetBurnedSnapshot && state.burned_snapshot is Some ==> r == Some(
            QueryAnswer::BurnedSnapshot(state.burned_snapshot->0),
        ),
{
    match msg {
        QueryMsg::GetConfig {} => Some(QueryAnswer::Config(copy_config(&state.config))),
        QueryMsg::GetStats {} => Some(QueryAnswer::Stats(state.stats)),
        QueryMsg::GetBurnedSnapshot {} => match &state.burned_snapshot {
            Some(s) => Some(
                QueryAnswer::BurnedSnapshot(
                    BurnedSnapshot {
                        denom: s.denom.clone(),
                        amount: s.amount,
                        snapshot_time: s.snapshot_time,
                    },
                ),
            ),
            None => None,
        },
        QueryMsg::GetToBurn {} => Some(
            QueryAnswer::ToBurn(
                Coin { denom: state.to_burn.denom.clone(), amount: state.to_burn.amount },
            ),
        ),
    }
}

/// Restates the pending burn as a snapshot taken at `now` (block time in
/// nanoseconds) and resets it to zero. Running it again replaces the
/// snapshot.
pub fn migrate(state: &mut ContractState, now: u64, _msg: MigrateMsg) -> (r: Vec<Effect>)
    requires
        old(state).wf(),
    ensures
        final(state).wf(),
        migrated(*old(state), *final(state), now),
        r@.len() == 0,
{
    let snapshot = BurnedSnapshot {
        denom: state.config.accepted_denom.clone(),
        amount: state.to_burn.amount,
        snapshot_time: now,
    };
    state.to_burn = Coin { denom: state.config.accepted_denom.clone(), amount: 0 };
    state.burned_snapshot = Some(snapshot);
    Vec::new()
}

} // verus!
