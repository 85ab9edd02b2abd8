//! Facts about the split, the ledger and migration, proved once for every
//! input.
use vstd::prelude::*;

use crate::contract::migrated;
use crate::decimal::DECIMAL_FRACTIONAL;
use crate::executes::{exchange_rate, minted_for, swapped};
use crate::helpers::permille_of;
use crate::state::{Config, ContractState};

verus! {

/// Under valid weights no share exceeds the amount it is taken from.
pub proof fn lemma_split_fits(config: Config, amount: u128)
    requires
        config.weights_valid(),
    ensures
        config.shares_fit(amount as int),
        permille_of(amount as int, config.burn_permille_u64 as int) <= amount,
        permille_of(amount as int, config.dev_fees_permille_u64 as int) <= amount,
        permille_of(amount as int, config.balance_development_fund_permille_u64 as int) <= amount,
        permille_of(amount as int, config.juno_development_fund_permille_u64 as int) <= amount,
{
    lemma_share_at_most_amount(amount as int, config.burn_permille_u64 as int);
    lemma_share_at_most_amount(amount as int, config.dev_fees_permille_u64 as int);
    lemma_share_at_most_amount(amount as int, config.balance_development_fund_permille_u64 as int);
    lemma_share_at_most_amount(amount as int, config.juno_development_fund_permille_u64 as int);
}

proof fn lemma_share_at_most_amount(amount: int, permille: int)
    requires
        amount >= 0,
        0 <= permille <= 1000,
    ensures
        0 <= permille_of(amount, permille) <= amount,
{
    assert(0 <= amount * permille <= amount * 1000) by (nonlinear_arith)
        requires
            amount >= 0,
            0 <= permille <= 1000,
    ;
    assert(amount * permille / 1000 <= amount * 1000 / 1000) by (nonlinear_arith)
        requires
            0 <= amount * permille <= amount * 1000,
    ;
    assert(amount * 1000 / 1000 == amount) by (nonlinear_arith);
    assert(0 <= amount * permille / 1000) by (nonlinear_arith)
        requires
            0 <= amount * permille,
    ;
}

proof fn lemma_share_of_round_amount(k: int, permille: int)
    requires
        k >= 0,
        permille >= 0,
    ensures
        permille_of(1000 * k, permille) == k * permille,
{
    assert((1000 * k) * permille == 1000 * (k * permille)) by (nonlinear_arith);
    assert(1000 * (k * permille) / 1000 == k * permille) by (nonlinear_arith);
}

/// Under valid weights, an amount that is a whole multiple of one thousand
/// splits into four shares that add up to exactly that amount.
pub proof fn lemma_round_amount_splits_exactly(config: Config, amount: u128)
    requires
        config.weights_valid(),
        amount % 1000 == 0,
    ensures
        config.splits_exactly(amount as int),
{
    let k = amount as int / 1000;
    assert(amount as int == 1000 * k);
    lemma_share_of_round_amount(k, config.burn_permille_u64 as int);
    lemma_share_of_round_amount(k, config.dev_fees_permille_u64 as int);
    lemma_share_of_round_amount(k, config.balance_development_fund_permille_u64 as int);
    lemma_share_of_round_amount(k, config.juno_development_fund_permille_u64 as int);
    assert(k * config.burn_permille_u64 + k * config.dev_fees_permille_u64 + k
        * config.balance_development_fund_permille_u64 + k
        * config.juno_development_fund_permille_u64 == k * 1000) by (nonlinear_arith)
        requires
            config.burn_permille_u64 + config.dev_fees_permille_u64
                + config.balance_development_fund_permille_u64
                + config.juno_development_fund_permille_u64 == 1000,
    ;
}

proof fn lemma_floor_of_sum(x: int, y: int, d: int)
    requires
        x >= 0,
        y >= 0,
        d > 0,
    ensures
        x / d + y / d <= (x + y) / d <= x / d + y / d + 1,
{
    vstd::arithmetic::div_mod::lemma_fundamental_div_mod(x, d);
    vstd::arithmetic::div_mod::lemma_fundamental_div_mod(y, d);
    vstd::arithmetic::div_mod::lemma_mod_bound(x, d);
    vstd::arithmetic::div_mod::lemma_mod_bound(y, d);
    let qx = x / d;
    let qy = y / d;
    let rx = x % d;
    let ry = y % d;
    vstd::arithmetic::mul::lemma_mul_is_distributive_add(d, qx, qy);
    vstd::arithmetic::mul::lemma_mul_is_commutative(d, qx + qy);
    vstd::arithmetic::mul::lemma_mul_is_distributive_add(d, qx + qy, 1);
    vstd::arithmetic::mul::lemma_mul_is_commutative(d, qx + qy + 1);
    if rx + ry < d {
        vstd::arithmetic::div_mod::lemma_fundamental_div_mod_converse_div(
            x + y,
            d,
            qx + qy,
            rx + ry,
        );
    } else {
        vstd::arithmetic::div_mod::lemma_fundamental_div_mod_converse_div(
            x + y,
            d,
            qx + qy + 1,
            rx + ry - d,
        );
    }
}

/// The share of the sum of two amounts is the sum of their shares, or one
/// unit more: flooring loses less than a unit on each.
pub proof fn lemma_share_nearly_additive(a: nat, b: nat, permille: nat)
    ensures
        permille_of(a as int, permille as int) + permille_of(b as int, permille as int)
            <= permille_of(a + b as int, permille as int),
        permille_of(a + b as int, permille as int) <= permille_of(a as int, permille as int)
            + permille_of(b as int, permille as int) + 1,
{
    vstd::arithmetic::mul::lemma_mul_is_distributive_add_other_way(permille as int, a as int, b as int);
    vstd::arithmetic::mul::lemma_mul_nonnegative(a as int, permille as int);
    vstd::arithmetic::mul::lemma_mul_nonnegative(b as int, permille as int);
    lemma_floor_of_sum((a * permille) as int, (b * permille) as int, 1000);
}

/// The tokens minted for the sum of two deposits are the sum of those
/// minted for each, or one unit more.
pub proof fn lemma_minted_nearly_additive(a: nat, b: nat)
    ensures
        minted_for(a as int) + minted_for(b as int) <= minted_for(a + b as int),
        minted_for(a + b as int) <= minted_for(a as int) + minted_for(b as int) + 1,
{
    let rate = exchange_rate();
    assert(0 <= rate) by (nonlinear_arith)
        requires
            rate == crate::constants::BALANCE_MAX_SUPPLY as int * DECIMAL_FRACTIONAL as int
                / crate::constants::JUNO_MAX_SUPPLY as int,
    ;
    vstd::arithmetic::mul::lemma_mul_is_distributive_add_other_way(rate, a as int, b as int);
    vstd::arithmetic::mul::lemma_mul_nonnegative(a as int, rate);
    vstd::arithmetic::mul::lemma_mul_nonnegative(b as int, rate);
    lemma_floor_of_sum(a * rate, b * rate, DECIMAL_FRACTIONAL as int);
}

/// Two swaps of `a` and then `b` book the same amount received as one swap
/// of `a + b`; every other total of the two swaps falls short of the single
/// swap's by at most one unit per share, and the four split totals together
/// by at most four.
pub proof fn lemma_two_swaps_against_one(
    s0: ContractState,
    s1: ContractState,
    s2: ContractState,
    joined: ContractState,
    a: nat,
    b: nat,
)
    requires
        s0.config.weights_valid(),
        swapped(s0, s1, a as int),
        swapped(s1, s2, b as int),
        swapped(s0, joined, a + b as int),
    ensures
        s2.config == joined.config,
        s2.stats.received == joined.stats.received,
        s2.stats.burned <= joined.stats.burned <= s2.stats.burned + 1,
        s2.stats.dev_fees <= joined.stats.dev_fees <= s2.stats.dev_fees + 1,
        s2.stats.balance_dev_fund <= joined.stats.balance_dev_fund
            <= s2.stats.balance_dev_fund + 1,
        s2.stats.juno_dev_fund <= joined.stats.juno_dev_fund <= s2.stats.juno_dev_fund + 1,
        s2.stats.distributed <= joined.stats.distributed <= s2.stats.distributed + 1,
        s2.to_burn.amount <= joined.to_burn.amount <= s2.to_burn.amount + 1,
        s0.config.split_total(a as int) + s0.config.split_total(b as int) <= s0.config.split_total(a + b as int),
        s0.config.split_total(a + b as int) <= s0.config.split_total(a as int) + s0.config.split_total(
            b as int,
        ) + 4,
{
    let c = s0.config;
    lemma_split_fits(c, a as u128);
    lemma_split_fits(c, b as u128);
    lemma_split_fits(c, (a + b) as u128);
    lemma_share_nearly_additive(a, b, c.burn_permille_u64 as nat);
    lemma_share_nearly_additive(a, b, c.dev_fees_permille_u64 as nat);
    lemma_share_nearly_additive(a, b, c.balance_development_fund_permille_u64 as nat);
    lemma_share_nearly_additive(a, b, c.juno_development_fund_permille_u64 as nat);
    lemma_minted_nearly_additive(a, b);
}

/// Migration records the pending burn exactly and resets it; a swap after
/// it accumulates its burn share from zero and leaves the snapshot alone.
pub proof fn lemma_migration_then_swap(
    s0: ContractState,
    s1: ContractState,
    s2: ContractState,
    now: u64,
    amount: nat,
)
    requires
        migrated(s0, s1, now),
        swapped(s1, s2, amount as int),
    ensures
        s1.burned_snapshot is Some,
        s1.burned_snapshot->0.amount == s0.to_burn.amount,
        s1.to_burn.amount == 0,
        s2.to_burn.amount == permille_of(amount as int, s0.config.burn_permille_u64 as int),
        s2.burned_snapshot == s1.burned_snapshot,
        s2.stats.burned == s0.stats.burned + permille_of(
            amount as int,
            s0.config.burn_permille_u64 as int,
        ),
{
}

} // verus!
