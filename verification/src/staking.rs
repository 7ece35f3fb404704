use vstd::prelude::*;

use crate::error::ContractError;
use crate::state::State;
use crate::types::{clone_string, Action, Coin, Response};

verus! {

/// Sum of the coin amounts whose denomination matches.
pub open spec fn spec_matching_total(coins_list: Seq<Coin>, denom: Seq<char>) -> int
    decreases coins_list.len(),
{
    if coins_list.len() == 0 {
        0
    } else {
        spec_matching_total(coins_list.drop_last(), denom) + if coins_list.last().denom@ == denom {
            coins_list.last().amount as int
        } else {
            0
        }
    }
}

proof fn lemma_matching_take_succ(coins_list: Seq<Coin>, denom: Seq<char>, i: int)
    requires
        0 <= i < coins_list.len(),
    ensures
        spec_matching_total(coins_list.take(i + 1), denom) == spec_matching_total(
            coins_list.take(i),
            denom,
        ) + if coins_list[i].denom@ == denom {
            coins_list[i].amount as int
        } else {
            0
        },
{
    assert(coins_list.take(i + 1).drop_last() =~= coins_list.take(i));
}

/// Adds the total of the matching coins, e.g. one validator's accumulated
/// rewards in the vault's denomination, or the amount staked with a validator.
pub fn sum_matching_coins(coins_list: &Vec<Coin>, denom: &String) -> (r: u128)
    requires
        spec_matching_total(coins_list@, denom@) <= u128::MAX,
    ensures
        r == spec_matching_total(coins_list@, denom@),
{
    let n = coins_list.len();
    let mut acc: u128 = 0;
    let mut i: usize = 0;
    while i < n
        invariant
            0 <= i <= n,
            acc == spec_matching_total(coins_list@.take(i as int), denom@),
            spec_matching_total(coins_list@.take(i as int), denom@) >= 0,
        decreases n - i,
    {
        proof {
            lemma_matching_take_succ(coins_list@, denom@, i as int);
            lemma_matching_take_le(coins_list@, denom@, i as int + 1);
        }
        if coins_list[i].denom == *denom {
            acc = acc + coins_list[i].amount;
        }
        i = i + 1;
    }
    proof {
        assert(coins_list@.take(n as int) =~= coins_list@);
    }
    acc
}

proof fn lemma_matching_take_le(coins_list: Seq<Coin>, denom: Seq<char>, i: int)
    requires
        0 <= i <= coins_list.len(),
    ensures
        spec_matching_total(coins_list.take(i), denom) <= spec_matching_total(coins_list, denom),
        spec_matching_total(coins_list.take(i), denom) >= 0,
    decreases coins_list.len() - i,
{
    lemma_matching_nonneg(coins_list.take(i), denom);
    if i == coins_list.len() {
        assert(coins_list.take(i) =~= coins_list);
    } else {
        lemma_matching_take_succ(coins_list, denom, i);
        lemma_matching_take_le(coins_list, denom, i + 1);
    }
}

proof fn lemma_matching_nonneg(coins_list: Seq<Coin>, denom: Seq<char>)
    ensures
        spec_matching_total(coins_list, denom) >= 0,
    decreases coins_list.len(),
{
    if coins_list.len() > 0 {
        lemma_matching_nonneg(coins_list.drop_last(), denom);
    }
}

/// Sum of plain balances, e.g. the in-flight unbonding entries reported by the
/// host's extended staking query.
pub fn sum_balances(balances: &Vec<u128>) -> (r: u128)
    requires
        crate::vesting::sum_amounts(balances@) <= u128::MAX,
    ensures
        r == crate::vesting::sum_amounts(balances@),
{
    let n = balances.len();
    let mut acc: u128 = 0;
    let mut i: usize = 0;
    proof {
        crate::vesting::lemma_sum_nonneg(balances@.take(0));
    }
    while i < n
        invariant
            0 <= i <= n,
            acc == crate::vesting::sum_amounts(balances@.take(i as int)),
        decreases n - i,
    {
        proof {
            crate::vesting::lemma_sum_take_succ(balances@, i as int);
            crate::vesting::lemma_sum_take_le(balances@, i as int + 1);
            crate::vesting::lemma_sum_nonneg(balances@.take(i as int));
        }
        acc = acc + balances[i];
        i = i + 1;
    }
    proof {
        assert(balances@.take(n as int) =~= balances@);
    }
    acc
}

/// Emits the staking instruction that delegates `amount` of `denom` to the
/// validator.
pub fn delegate(response: Response, validator: String, amount: u128, denom: String) -> (r: Response)
    ensures
        r.messages@ == response.messages@.push(Action::Delegate { validator, amount, denom }),
        r.attributes@ == response.attributes@,
{
    response.add_message(Action::Delegate { validator, amount, denom })
}

/// Emits the staking instruction that moves `amount` of `denom` from one
/// validator to another.
pub fn redelegate(
    response: Response,
    src_validator: String,
    dst_validator: String,
    amount: u128,
    denom: String,
) -> (r: Response)
    ensures
        r.messages@ == response.messages@.push(
            Action::Redelegate { src_validator, dst_validator, amount, denom },
        ),
        r.attributes@ == response.attributes@,
{
    response.add_message(Action::Redelegate { src_validator, dst_validator, amount, denom })
}

/// Emits the staking instruction that undelegates `amount` of `denom` from the
/// validator.
pub fn undelegate(response: Response, validator: String, amount: u128, denom: String) -> (r:
    Response)
    ensures
        r.messages@ == response.messages@.push(Action::Undelegate { validator, amount, denom }),
        r.attributes@ == response.attributes@,
{
    response.add_message(Action::Undelegate { validator, amount, denom })
}

/// Emits the pair of instructions that pulls one validator's rewards into the
/// vault and forwards `amount` of them to the staking-reward distribution
/// address.
pub fn withdraw_delegation_rewards(
    state: &State,
    response: Response,
    validator: String,
    amount: u128,
) -> (r: Result<Response, ContractError>)
    ensures
        r is Ok,
        r matches Ok(resp) ==> {
            &&& resp.messages@ == response.messages@.push(
                Action::WithdrawDelegatorReward { validator },
            ).push(
                Action::Send {
                    to_address: state.staking_reward_address,
                    amount,
                    denom: state.denom,
                },
            )
            &&& resp.attributes@ == response.attributes@
        },
{
    let denom = clone_string(&state.denom);
    let to_address = clone_string(&state.staking_reward_address);
    let mut new_response = response.add_message(Action::WithdrawDelegatorReward { validator });
    new_response = new_response.add_message(Action::Send { to_address, amount, denom });
    Ok(new_response)
}

} // verus!
