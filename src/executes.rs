//! One swap: the deposit is checked, split and booked, and the transfers
//! and the mint are handed back to the host.
use vstd::prelude::*;

use crate::constants::{BALANCE_MAX_SUPPLY, JUNO_MAX_SUPPLY};
use crate::decimal::{from_ratio_atomics, mul_floor, mul_floor_spec, ratio_atomics, DECIMAL_FRACTIONAL};
use crate::error::ContractError;
use crate::helpers::{compute_amounts_to_distribute, funds_valid, permille_of, validate_coin_received};
use crate::msg::{Coin, Effect};
use crate::state::{Config, ContractState};

verus! {

/// Factory tokens per unit of the accepted coin, as decimal atomics: the
/// ratio of the two ceilings, floored to 18 decimals.
pub open spec fn exchange_rate() -> int {
    ratio_atomics(BALANCE_MAX_SUPPLY as int, JUNO_MAX_SUPPLY as int)
}

/// Factory tokens minted for a deposit of `amount`.
pub open spec fn minted_for(amount: int) -> int {
    mul_floor_spec(amount, exchange_rate())
}

/// Why a deposit of `funds` is refused in `state`, checked in this order;
/// `None` when it is accepted.
pub open spec fn swap_refusal(state: ContractState, funds: Seq<Coin>) -> Option<ContractError> {
    if !funds_valid(state.config.accepted_denom@, funds) {
        Some(ContractError::InvalidFundsReceived {})
    } else if state.stats.received + funds[0].amount > JUNO_MAX_SUPPLY {
        Some(ContractError::MaxSupplyReceivedReached {})
    } else if !state.config.splits_exactly(funds[0].amount as int) {
        Some(ContractError::InvalidAmountsDistribution {})
    } else if state.stats.distributed + minted_for(funds[0].amount as int) > BALANCE_MAX_SUPPLY {
        Some(ContractError::MaxSupplyReached {})
    } else {
        None
    }
}

/// `new` is `prev` after an accepted swap of `amount`: the statistics and
/// the pending burn grow by the split, nothing else changes.
pub open spec fn swapped(prev: ContractState, new: ContractState, amount: int) -> bool {
    &&& new.config == prev.config
    &&& new.burned_snapshot == prev.burned_snapshot
    &&& new.stats.accumulates(prev.stats, prev.config.split(amount), minted_for(amount), amount)
    &&& new.to_burn.denom == prev.to_burn.denom
    &&& new.to_burn.amount == prev.to_burn.amount + permille_of(
        amount,
        prev.config.burn_permille_u64 as int,
    )
}

/// The commands of an accepted swap of `amount` by `sender`: the three
/// beneficiary shares are sent, then the factory token is minted.
pub open spec fn swap_effects(
    effects: Seq<Effect>,
    config: Config,
    sender: Seq<char>,
    amount: int,
) -> bool {
    let split = config.split(amount);
    &&& effects.len() == 4
    &&& effects[0] == (Effect::Send {
        to_address: config.balance_development_fund_addr,
        denom: config.accepted_denom,
        amount: split.balance_dev_fund,
    })
    &&& effects[1] == (Effect::Send {
        to_address: config.juno_development_fund_addr,
        denom: config.accepted_denom,
        amount: split.juno_dev_fund,
    })
    &&& effects[2] == (Effect::Send {
        to_address: config.dev_addr,
        denom: config.accepted_denom,
        amount: split.dev,
    })
    &&& effects[3] is Mint
    &&& effects[3]->Mint_denom == config.factory_denom
    &&& effects[3]->Mint_amount == minted_for(amount)
    &&& effects[3]->mint_to_address@ == sender
}

proof fn lemma_minted_at_most_amount(amount: int)
    requires
        amount >= 0,
    ensures
        0 <= exchange_rate() <= DECIMAL_FRACTIONAL,
        0 <= minted_for(amount) <= amount,
{
    let f = DECIMAL_FRACTIONAL as int;
    let n = BALANCE_MAX_SUPPLY as int;
    let d = JUNO_MAX_SUPPLY as int;
    assert(n * f <= d * f) by (nonlinear_arith)
        requires
            0 <= n <= d,
            f >= 0,
    ;
    vstd::arithmetic::div_mod::lemma_div_is_ordered(n * f, d * f, d);
    vstd::arithmetic::mul::lemma_mul_is_commutative(d, f);
    vstd::arithmetic::div_mod::lemma_div_multiples_vanish(f, d);
    let rate = exchange_rate();
    assert(0 <= rate) by (nonlinear_arith)
        requires
            rate == n * f / d,
            n >= 0,
            f >= 0,
            d > 0,
    ;
    assert(0 <= amount * rate <= amount * f) by (nonlinear_arith)
        requires
            0 <= rate <= f,
            amount >= 0,
    ;
    vstd::arithmetic::div_mod::lemma_div_is_ordered(amount * rate, amount * f, f);
    vstd::arithmetic::div_mod::lemma_div_by_multiple(amount, f);
    vstd::arithmetic::div_mod::lemma_div_pos_is_pos(amount * rate, f);
}

/// Books a deposit of `funds` by `sender`. On refusal the state is left as
/// it was.
pub fn swap(state: &mut ContractState, sender: &str, funds: &Vec<Coin>) -> (r: Result<Vec<Effect>, ContractError>)
    requires
        old(state).wf(),
    ensures
        final(state).wf(),
        r is Err ==> *final(state) == *old(state),
        swap_refusal(*old(state), funds@) is Some ==> r == Err::<Vec<Effect>, ContractError>(
            swap_refusal(*old(state), funds@)->0,
        ),
        swap_refusal(*old(state), funds@) is Some ==> *final(state) == *old(state),
        swap_refusal(*old(state), funds@) is None ==> r is Ok,
        r is Ok ==> swapped(*old(state), *final(state), funds@[0].amount as int),
        r is Ok ==> final(state).stats.received > old(state).stats.received,
        r is Ok ==> swap_effects(r->Ok_0@, old(state).config, sender@, funds@[0].amount as int),
{
    match validate_coin_received(&state.config.accepted_denom, funds) {
        Ok(()) => {},
        Err(e) => return Err(e),
    }
    let amount = funds[0].amount;
    if amount > JUNO_MAX_SUPPLY - state.stats.received {
        return Err(ContractError::MaxSupplyReceivedReached {});
    }
    proof {
        crate::laws::lemma_split_fits(state.config, amount);
    }
    let amounts_to_distribute = match compute_amounts_to_distribute(&state.config, amount) {
        Ok(a) => a,
        Err(e) => return Err(e),
    };
    proof {
        lemma_minted_at_most_amount(amount as int);
    }
    let rate = from_ratio_atomics(BALANCE_MAX_SUPPLY, JUNO_MAX_SUPPLY);
    let token_amount_to_send = mul_floor(amount, rate);
    if token_amount_to_send > BALANCE_MAX_SUPPLY - state.stats.distributed {
        return Err(ContractError::MaxSupplyReached {});
    }
    let mut stats = state.stats;
    stats.add(&amounts_to_distribute, token_amount_to_send, amount);
    // The ceiling is checked once more on the booked totals.
    if stats.distributed > BALANCE_MAX_SUPPLY {
        return Err(ContractError::MaxSupplyReached {});
    }
    let to_burn_amount = state.to_burn.amount + amounts_to_distribute.burned;

    let mut effects: Vec<Effect> = Vec::new();
    effects.push(
        Effect::Send {
            to_address: state.config.balance_development_fund_addr.clone(),
            denom: state.config.accepted_denom.clone(),
            amount: amounts_to_distribute.balance_dev_fund,
        },
    );
    effects.push(
        Effect::Send {
            to_address: state.config.juno_development_fund_addr.clone(),
            denom: state.config.accepted_denom.clone(),
            amount: amounts_to_distribute.juno_dev_fund,
        },
    );
    effects.push(
        Effect::Send {
            to_address: state.config.dev_addr.clone(),
            denom: state.config.accepted_denom.clone(),
            amount: amounts_to_distribute.dev,
        },
    );
    effects.push(
        Effect::Mint {
            denom: state.config.factory_denom.clone(),
            amount: token_amount_to_send,
            mint_to_address: sender.to_owned(),
        },
    );
    state.stats = stats;
    state.to_burn.amount = to_burn_amount;
    Ok(effects)
}

} // verus!
