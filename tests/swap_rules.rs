use balance_token_swap::constants::{BALANCE_MAX_SUPPLY, JUNO_MAX_SUPPLY};
use balance_token_swap::contract::{execute, instantiate, migrate, query};
use balance_token_swap::error::ContractError;
use balance_token_swap::executes::swap;
use balance_token_swap::helpers::{
    compute_amounts_to_distribute, validate_coin_received, AmountsToDistribute,
};
use balance_token_swap::msg::{Coin, Effect, ExecuteMsg, InstantiateMsg, MigrateMsg, QueryMsg};
use balance_token_swap::state::{Config, ContractState, Statistics};

fn msg_with(burn: u64, dev: u64, fund_a: u64, fund_b: u64) -> InstantiateMsg {
    InstantiateMsg {
        accepted_denom: "ujuno".to_string(),
        balance_development_fund_addr: "fund_a".to_string(),
        juno_development_fund_addr: "fund_b".to_string(),
        dev_addr: "dev".to_string(),
        burn_permille_u64: burn,
        dev_fees_permille_u64: dev,
        balance_development_fund_permille_u64: fund_a,
        juno_development_fund_permille_u64: fund_b,
    }
}

fn state_with(burn: u64, dev: u64, fund_a: u64, fund_b: u64) -> ContractState {
    instantiate("owner", "contract0", msg_with(burn, dev, fund_a, fund_b)).unwrap().0
}

fn juno(amount: u128) -> Vec<Coin> {
    vec![Coin { denom: "ujuno".to_string(), amount }]
}

#[test]
fn literal_split_and_mint() {
    let mut state = state_with(780, 20, 100, 100);
    let effects = swap(&mut state, "buyer", &juno(100_000_000)).unwrap();
    assert_eq!(state.stats.burned, 78_000_000);
    assert_eq!(state.stats.dev_fees, 2_000_000);
    assert_eq!(state.stats.balance_dev_fund, 10_000_000);
    assert_eq!(state.stats.juno_dev_fund, 10_000_000);
    assert_eq!(state.stats.distributed, 11_316_955);
    assert_eq!(
        effects[3],
        Effect::Mint {
            denom: "factory/contract0/balance".to_string(),
            amount: 11_316_955,
            mint_to_address: "buyer".to_string(),
        }
    );
}

#[test]
fn compute_split_of_literal_amount() {
    let state = state_with(780, 20, 100, 100);
    let a = compute_amounts_to_distribute(&state.config, 100_000_000).unwrap();
    assert_eq!(
        a,
        AmountsToDistribute {
            burned: 78_000_000,
            balance_dev_fund: 10_000_000,
            juno_dev_fund: 10_000_000,
            dev: 2_000_000,
        }
    );
    assert_eq!(a.total_value(), 100_000_000);
}

#[test]
fn round_amounts_split_exactly() {
    let state = state_with(333, 333, 333, 1);
    for amount in [1_000u128, 7_000, 1_000_000, 185_562_268_000_000] {
        let a = compute_amounts_to_distribute(&state.config, amount).unwrap();
        assert_eq!(a.total_value(), amount);
    }
    let a = compute_amounts_to_distribute(&state.config, 3_000).unwrap();
    assert_eq!(a.burned, 999);
    assert_eq!(a.dev, 999);
    assert_eq!(a.balance_dev_fund, 999);
    assert_eq!(a.juno_dev_fund, 3);
}

#[test]
fn uneven_amount_is_refused() {
    let mut state = state_with(780, 20, 100, 100);
    let before = state.clone();
    assert_eq!(
        compute_amounts_to_distribute(&state.config, 1_001),
        Err(ContractError::InvalidAmountsDistribution {})
    );
    assert_eq!(
        swap(&mut state, "buyer", &juno(1_001)),
        Err(ContractError::InvalidAmountsDistribution {})
    );
    assert_eq!(state, before);
}

#[test]
fn split_is_additive_within_rounding() {
    let state = state_with(780, 20, 100, 100);
    let whole = |x: u128| compute_amounts_to_distribute(&state.config, x).unwrap();
    let a = whole(3_000);
    let b = whole(5_000);
    let ab = whole(8_000);
    assert_eq!(a.burned + b.burned, ab.burned);
    assert_eq!(a.dev + b.dev, ab.dev);
    assert_eq!(a.balance_dev_fund + b.balance_dev_fund, ab.balance_dev_fund);
    assert_eq!(a.juno_dev_fund + b.juno_dev_fund, ab.juno_dev_fund);

    // Minting floors each deposit: two small swaps fall one unit short of
    // the single swap of their sum.
    let mut two = state_with(1000, 0, 0, 0);
    let mut one = state_with(1000, 0, 0, 0);
    swap(&mut two, "x", &juno(5)).unwrap();
    swap(&mut two, "x", &juno(4)).unwrap();
    swap(&mut one, "x", &juno(9)).unwrap();
    assert_eq!(two.stats.received, one.stats.received);
    assert_eq!(two.stats.burned, one.stats.burned);
    assert_eq!(two.stats.distributed, 0);
    assert_eq!(one.stats.distributed, 1);
}

#[test]
fn swaps_grow_received_and_distributed() {
    let mut state = state_with(780, 20, 100, 100);
    let config_before = state.config.clone();
    swap(&mut state, "buyer", &juno(2_000_000)).unwrap();
    assert_eq!(state.stats.received, 2_000_000);
    assert_eq!(state.stats.distributed, 226_339);
    swap(&mut state, "buyer", &juno(1_000_000)).unwrap();
    assert_eq!(state.stats.received, 3_000_000);
    assert_eq!(state.stats.distributed, 226_339 + 113_169);
    assert_eq!(state.config, config_before);
}

#[test]
fn received_ceiling_is_enforced() {
    let mut state = state_with(780, 20, 100, 100);
    swap(&mut state, "buyer", &juno(JUNO_MAX_SUPPLY - 1_000)).unwrap();
    let before = state.clone();
    assert_eq!(
        swap(&mut state, "buyer", &juno(2_000)),
        Err(ContractError::MaxSupplyReceivedReached {})
    );
    assert_eq!(state, before);
    swap(&mut state, "buyer", &juno(1_000)).unwrap();
    assert_eq!(state.stats.received, JUNO_MAX_SUPPLY);
    assert_eq!(
        swap(&mut state, "buyer", &juno(u128::MAX)),
        Err(ContractError::MaxSupplyReceivedReached {})
    );
}

#[test]
fn distributed_ceiling_is_enforced() {
    let mut state = state_with(1000, 0, 0, 0);
    state.stats = Statistics {
        received: 1_000,
        burned: 1_000,
        distributed: BALANCE_MAX_SUPPLY - 10,
        dev_fees: 0,
        balance_dev_fund: 0,
        juno_dev_fund: 0,
    };
    let before = state.clone();
    assert_eq!(
        swap(&mut state, "buyer", &juno(1_000_000)),
        Err(ContractError::MaxSupplyReached {})
    );
    assert_eq!(state, before);
    let effects = swap(&mut state, "buyer", &juno(89)).unwrap();
    assert_eq!(state.stats.distributed, BALANCE_MAX_SUPPLY);
    assert_eq!(effects.len(), 4);
}

#[test]
fn migration_restates_pending_burn() {
    let mut state = state_with(780, 20, 100, 100);
    assert_eq!(query(&state, QueryMsg::GetBurnedSnapshot {}), None);
    swap(&mut state, "buyer", &juno(10_000)).unwrap();
    assert_eq!(state.to_burn.amount, 7_800);
    migrate(&mut state, 42, MigrateMsg {});
    let snap = state.burned_snapshot.clone().unwrap();
    assert_eq!(snap.amount, 7_800);
    assert_eq!(snap.snapshot_time, 42);
    assert_eq!(snap.denom, "ujuno");
    assert_eq!(state.to_burn.amount, 0);
    swap(&mut state, "buyer", &juno(1_000)).unwrap();
    assert_eq!(state.to_burn.amount, 780);
    assert_eq!(state.stats.burned, 8_580);
    assert_eq!(state.burned_snapshot.unwrap().amount, 7_800);
}

#[test]
fn toggle_is_owner_only() {
    let mut state = state_with(780, 20, 100, 100);
    assert_eq!(
        execute(&mut state, "stranger", &vec![], ExecuteMsg::EnableDisable {}),
        Err(ContractError::Unauthorized {})
    );
    assert!(state.config.enabled);
    assert_eq!(execute(&mut state, "owner", &vec![], ExecuteMsg::EnableDisable {}), Ok(vec![]));
    assert!(!state.config.enabled);
    let before = state.clone();
    assert_eq!(
        execute(&mut state, "owner", &juno(1_000), ExecuteMsg::Swap {}),
        Err(ContractError::SwapDisabled {})
    );
    assert_eq!(state, before);
    assert!(execute(&mut state, "owner", &vec![], ExecuteMsg::EnableDisable {}).is_ok());
    assert!(execute(&mut state, "owner", &juno(1_000), ExecuteMsg::Swap {}).is_ok());
}

#[test]
fn bad_deposits_are_refused() {
    let mut state = state_with(780, 20, 100, 100);
    let before = state.clone();
    let wrong = vec![Coin { denom: "uother".to_string(), amount: 1_000 }];
    let two = vec![
        Coin { denom: "ujuno".to_string(), amount: 1_000 },
        Coin { denom: "uother".to_string(), amount: 1_000 },
    ];
    for funds in [wrong, two, juno(0), vec![]] {
        assert_eq!(
            execute(&mut state, "buyer", &funds, ExecuteMsg::Swap {}),
            Err(ContractError::InvalidFundsReceived {})
        );
        assert_eq!(state, before);
    }
    assert_eq!(validate_coin_received(&"ujuno".to_string(), &juno(1)), Ok(()));
    assert_eq!(
        validate_coin_received(&"ujuno".to_string(), &juno(0)),
        Err(ContractError::InvalidFundsReceived {})
    );
}

#[test]
fn burn_is_not_implemented() {
    let mut state = state_with(780, 20, 100, 100);
    assert_eq!(
        execute(&mut state, "owner", &vec![], ExecuteMsg::Burn {}),
        Err(ContractError::NotImplementedYet {})
    );
    assert_eq!(ContractError::NotImplementedYet {}.message(), "NotImplementedYet");
}

#[test]
fn invalid_weights_are_refused() {
    let cases = [(780, 20, 100, 99), (780, 20, 100, 101), (1001, 0, 0, 0), (u64::MAX, 1001, 0, 0), (0, 0, 0, 0)];
    for (a, b, c, d) in cases {
        assert_eq!(
            instantiate("owner", "contract0", msg_with(a, b, c, d)),
            Err(ContractError::InvalidInitMsg {})
        );
        assert_eq!(
            Config::validate("owner", msg_with(a, b, c, d), "f".to_string()),
            Err(ContractError::InvalidInitMsg {})
        );
    }
    let c = Config::validate("owner", msg_with(1000, 0, 0, 0), "f".to_string()).unwrap();
    assert_eq!(c.contract_owner, "owner");
    assert!(c.enabled);
    assert_eq!(c.factory_denom, "f");
}

#[test]
fn fresh_state_is_empty() {
    let (state, effects) = instantiate("owner", "addr1", msg_with(500, 100, 200, 200)).unwrap();
    assert_eq!(state.stats, Statistics::zero());
    assert_eq!(state.to_burn, Coin { denom: "ujuno".to_string(), amount: 0 });
    assert_eq!(state.burned_snapshot, None);
    assert_eq!(state.config.factory_denom, "factory/addr1/balance");
    assert_eq!(effects, vec![Effect::CreateDenom { subdenom: "balance".to_string() }]);
}

#[test]
fn statistics_add_accumulates() {
    let mut s = Statistics::zero();
    let a = AmountsToDistribute { burned: 5, balance_dev_fund: 1, juno_dev_fund: 2, dev: 3 };
    s.add(&a, 7, 11).add(&a, 7, 11);
    assert_eq!(
        s,
        Statistics {
            received: 22,
            burned: 10,
            distributed: 14,
            dev_fees: 6,
            balance_dev_fund: 2,
            juno_dev_fund: 4,
        }
    );
    assert_eq!(AmountsToDistribute::init().total_value(), 0);
}

#[test]
fn stored_state_check() {
    let mut state = state_with(780, 20, 100, 100);
    assert!(state.is_well_formed());
    swap(&mut state, "buyer", &juno(5_000)).unwrap();
    assert!(state.is_well_formed());
    let mut broken = state.clone();
    broken.stats.burned += 1;
    assert!(!broken.is_well_formed());
    let mut broken = state.clone();
    broken.config.dev_fees_permille_u64 = 21;
    assert!(!broken.is_well_formed());
    let mut broken = state.clone();
    broken.to_burn.amount = broken.stats.burned + 1;
    assert!(!broken.is_well_formed());
    let mut broken = state;
    broken.stats.received = JUNO_MAX_SUPPLY + 1;
    assert!(!broken.is_well_formed());
}

#[test]
fn error_messages() {
    assert_eq!(ContractError::MaxSupplyReceivedReached {}.message(), "MaxSupplyReached");
    assert_eq!(ContractError::MaxSupplyReached {}.message(), "MaxSupplyReached");
    assert_eq!(ContractError::InvalidInitMsg {}.message(), "InvalidInitMsg");
    assert_eq!(
        ContractError::InvalidAmountsDistribution {}.message(),
        "InvalidAmountsDistribution"
    );
}
