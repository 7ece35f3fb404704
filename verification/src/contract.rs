use vstd::prelude::*;
use vstd::string::StringExecFns;

use crate::data_structure::spec_tranche_err;
use crate::error::ContractError;
use crate::msg::InstantiateMsg;
use crate::permission::{authorize_admin, authorize_op, authorize_self_call};
use crate::proposal::{
    has_ballot, lemma_executed_is_terminal, spec_current_status, spec_has_ballot,
    spec_status_name, spec_tally, status_name, Ballot, Proposal, Status, Vote, Votes,
};
use crate::state::{add_principal, contains_principal, next_proposal_id, State};
use crate::types::{
    clone_actions, clone_string, spec_after, spec_is_expired, spec_period_fits, spec_u64_digits,
    u64_to_string, Action, Attribute, BlockInfo, Env, MessageInfo, Response, StakingSnapshot,
    ValidatorReward,
};
use crate::vesting::{
    collect_vested, distribute_vested, lemma_sum_nonneg, lemma_vested_le_sum, spec_collect,
    spec_total_vested, sum_amounts,
};

verus! {

/// A role list built up by de-duplicating another from the front: each
/// principal keeps its first occurrence only.
pub open spec fn spec_dedup(ps: Seq<String>) -> Seq<String>
    decreases ps.len(),
{
    if ps.len() == 0 {
        Seq::empty()
    } else if contains_principal(ps.drop_last(), ps.last()@) {
        spec_dedup(ps.drop_last())
    } else {
        spec_dedup(ps.drop_last()).push(ps.last())
    }
}

/// De-duplication keeps exactly the principals of the original list.
pub proof fn lemma_dedup_contains(ps: Seq<String>, w: Seq<char>)
    ensures
        contains_principal(spec_dedup(ps), w) == contains_principal(ps, w),
    decreases ps.len(),
{
    if ps.len() > 0 {
        lemma_dedup_contains(ps.drop_last(), w);
        if ps.last()@ == w {
            assert(ps[ps.len() - 1]@ == w);
            if contains_principal(ps.drop_last(), ps.last()@) {
            } else {
                let d = spec_dedup(ps.drop_last()).push(ps.last());
                assert(d[d.len() - 1]@ == w);
            }
        } else {
            if contains_principal(ps, w) {
                let i = choose|i: int| 0 <= i < ps.len() && ps[i]@ == w;
                assert(ps.drop_last()[i]@ == w);
            }
            if contains_principal(ps.drop_last(), w) {
                let i = choose|i: int| 0 <= i < ps.drop_last().len() && ps.drop_last()[i]@ == w;
                assert(ps[i]@ == w);
            }
            if !contains_principal(ps.drop_last(), ps.last()@) {
                let d0 = spec_dedup(ps.drop_last());
                let d = d0.push(ps.last());
                if contains_principal(d, w) {
                    let i = choose|i: int| 0 <= i < d.len() && d[i]@ == w;
                    assert(d0[i]@ == w);
                }
                if contains_principal(d0, w) {
                    let i = choose|i: int| 0 <= i < d0.len() && d0[i]@ == w;
                    assert(d[i]@ == w);
                }
            }
        }
    }
}

/// Builds a duplicate-free role table from the listed principals, keeping
/// first occurrences in order.
fn dedup_principals(ps: &Vec<String>) -> (r: Vec<String>)
    ensures
        r@ == spec_dedup(ps@),
        crate::state::principals_unique(r@),
{
    let n = ps.len();
    let mut out: Vec<String> = Vec::new();
    let mut i: usize = 0;
    proof {
        assert(ps@.take(0) =~= Seq::<String>::empty());
    }
    while i < n
        invariant
            0 <= i <= n,
            out@ == spec_dedup(ps@.take(i as int)),
            crate::state::principals_unique(out@),
        decreases n - i,
    {
        let who = clone_string(&ps[i]);
        proof {
            lemma_dedup_contains(ps@.take(i as int), who@);
            assert(ps@.take(i + 1 as int).drop_last() =~= ps@.take(i as int));
            assert(ps@.take(i + 1 as int).last() == ps@[i as int]);
        }
        add_principal(&mut out, who);
        i = i + 1;
    }
    proof {
        assert(ps@.take(n as int) =~= ps@);
    }
    out
}

/// Rewards that were auto-withdrawn into the vault's bank balance by earlier
/// staking operations: whatever the balance holds beyond the principal still
/// accounted to the vault. Unbonding tokens are counted as principal outside
/// the bank, so the result can only undershoot, never overshoot.
pub open spec fn spec_withdrawn_rewards(
    bank_balance: u128,
    total_locked: u128,
    withdrawn_principal: u128,
    staked: u128,
    unbonding: u128,
) -> int {
    let principal_in_bank: int = if withdrawn_principal + staked + unbonding < total_locked {
        total_locked - withdrawn_principal - staked - unbonding
    } else {
        0
    };
    if principal_in_bank < bank_balance {
        bank_balance - principal_in_bank
    } else {
        0
    }
}

/// Computes the auto-withdrawn reward amount from the host's observations.
pub fn calculate_withdrawn_rewards(
    bank_balance: u128,
    total_locked: u128,
    withdrawn_principal: u128,
    staked: u128,
    unbonding: u128,
) -> (r: u128)
    requires
        withdrawn_principal + staked + unbonding <= u128::MAX,
    ensures
        r == spec_withdrawn_rewards(bank_balance, total_locked, withdrawn_principal, staked, unbonding),
{
    let mut principal_in_bank: u128 = 0;
    if withdrawn_principal + staked + unbonding < total_locked {
        principal_in_bank = total_locked - withdrawn_principal - staked - unbonding;
    }
    if principal_in_bank < bank_balance {
        return bank_balance - principal_in_bank;
    }
    0
}

/// Total of the per-validator rewards the host observed.
pub open spec fn spec_rewards_total(rs: Seq<ValidatorReward>) -> int
    decreases rs.len(),
{
    if rs.len() == 0 {
        0
    } else {
        spec_rewards_total(rs.drop_last()) + rs.last().amount
    }
}

proof fn lemma_rewards_total_take_succ(rs: Seq<ValidatorReward>, i: int)
    requires
        0 <= i < rs.len(),
    ensures
        spec_rewards_total(rs.take(i + 1)) == spec_rewards_total(rs.take(i)) + rs[i].amount,
{
    assert(rs.take(i + 1).drop_last() =~= rs.take(i));
}

proof fn lemma_rewards_total_take_le(rs: Seq<ValidatorReward>, i: int)
    requires
        0 <= i <= rs.len(),
    ensures
        spec_rewards_total(rs.take(i)) <= spec_rewards_total(rs),
        spec_rewards_total(rs.take(i)) >= 0,
    decreases rs.len() - i,
{
    lemma_rewards_total_nonneg(rs.take(i));
    if i == rs.len() {
        assert(rs.take(i) =~= rs);
    } else {
        lemma_rewards_total_take_succ(rs, i);
        lemma_rewards_total_take_le(rs, i + 1);
    }
}

proof fn lemma_rewards_total_nonneg(rs: Seq<ValidatorReward>)
    ensures
        spec_rewards_total(rs) >= 0,
    decreases rs.len(),
{
    if rs.len() > 0 {
        lemma_rewards_total_nonneg(rs.drop_last());
    }
}

/// The instruction batch that pulls and forwards each validator's rewards, in
/// the order observed: for each validator a withdrawal followed by the bank
/// transfer of its reward amount.
pub open spec fn spec_reward_msgs(rs: Seq<ValidatorReward>, reward_addr: String, denom: String) -> Seq<Action>
    decreases rs.len(),
{
    if rs.len() == 0 {
        Seq::empty()
    } else {
        spec_reward_msgs(rs.drop_last(), reward_addr, denom).push(
            Action::WithdrawDelegatorReward { validator: rs.last().validator },
        ).push(
            Action::Send { to_address: reward_addr, amount: rs.last().amount, denom },
        )
    }
}

/// Sets up the vault: checks the committee, the threshold and the vesting
/// plan, and returns the initial state with zeroed counters, de-duplicated
/// role tables and no proposals. Rejections are exact: no administrators, no
/// operators, an out-of-range percentage, then the plan's own first failure.
pub fn instantiate(env: Env, info: MessageInfo, msg: InstantiateMsg) -> (r: Result<
    State,
    ContractError,
>)
    requires
        sum_amounts(msg.tranche.vesting_amounts@) <= u128::MAX,
        crate::data_structure::spec_deposited(info.funds@, msg.tranche.denom@) <= u128::MAX,
    ensures
        r is Ok <==> {
            &&& msg.admins@.len() > 0
            &&& msg.ops@.len() > 0
            &&& msg.admin_voting_threshold_percentage <= 100
            &&& msg.tranche.spec_valid(env.block, info.funds@)
        },
        msg.admins@.len() == 0 ==> r == Err::<State, ContractError>(ContractError::NoAdmins {}),
        msg.admins@.len() > 0 && msg.ops@.len() == 0 ==> r == Err::<State, ContractError>(
            ContractError::NoOps {},
        ),
        msg.admins@.len() > 0 && msg.ops@.len() > 0 && msg.admin_voting_threshold_percentage > 100
            ==> r == Err::<State, ContractError>(ContractError::InvalidThreshold {}),
        msg.admins@.len() > 0 && msg.ops@.len() > 0 && msg.admin_voting_threshold_percentage <= 100
            ==> (r matches Err(e) ==> spec_tranche_err(msg.tranche, env.block, info.funds@, e)),
        r matches Ok(state) ==> {
            &&& state.wf()
            &&& state.balanced()
            &&& state.denom == msg.tranche.denom
            &&& state.vesting_timestamps == msg.tranche.vesting_timestamps
            &&& state.vesting_amounts == msg.tranche.vesting_amounts
            &&& state.unlock_distribution_address == msg.tranche.unlocked_token_distribution_address
            &&& state.staking_reward_address == msg.tranche.staking_reward_distribution_address
            &&& state.total_amount == sum_amounts(msg.tranche.vesting_amounts@)
            &&& state.withdrawn_staking_rewards == 0
            &&& state.withdrawn_unlocked == 0
            &&& state.withdrawn_locked == 0
            &&& state.admins@ == spec_dedup(msg.admins@)
            &&& state.ops@ == spec_dedup(msg.ops@)
            &&& state.max_voting_period == msg.max_voting_period
            &&& state.admin_voting_threshold_percentage == msg.admin_voting_threshold_percentage as u64
            &&& state.proposal_count == 0
            &&& state.proposals@.len() == 0
        },
{
    if msg.admins.len() == 0 {
        return Err(ContractError::NoAdmins {});
    }
    if msg.ops.len() == 0 {
        return Err(ContractError::NoOps {});
    }
    if msg.admin_voting_threshold_percentage > 100 {
        return Err(ContractError::InvalidThreshold {});
    }
    let ghost block = env.block;
    msg.tranche.validate(env, info.funds)?;
    let admins = dedup_principals(&msg.admins);
    let ops = dedup_principals(&msg.ops);
    let total = crate::staking::sum_balances(&msg.tranche.vesting_amounts);
    let state = State {
        denom: msg.tranche.denom,
        vesting_timestamps: msg.tranche.vesting_timestamps,
        vesting_amounts: msg.tranche.vesting_amounts,
        unlock_distribution_address: msg.tranche.unlocked_token_distribution_address,
        staking_reward_address: msg.tranche.staking_reward_distribution_address,
        total_amount: total,
        withdrawn_staking_rewards: 0,
        withdrawn_unlocked: 0,
        withdrawn_locked: 0,
        admins,
        ops,
        max_voting_period: msg.max_voting_period,
        admin_voting_threshold_percentage: msg.admin_voting_threshold_percentage as u64,
        proposal_count: 0,
        proposals: Vec::new(),
    };
    proof {
        lemma_sum_nonneg(state.vesting_amounts@);
        assert forall|i: int| 0 < i < state.vesting_timestamps@.len() implies state
            .vesting_timestamps@[i - 1] < #[trigger] state.vesting_timestamps@[i] by {
            assert(crate::data_structure::spec_ts_ok_at(state.vesting_timestamps@, i, block));
        }
    }
    Ok(state)
}

/// The outcome of an operator-gated staking command: no state change, and on
/// success exactly the one staking instruction.
pub open spec fn spec_staking_outcome(
    s: State,
    info: MessageInfo,
    action: Action,
    r: Result<Response, ContractError>,
) -> bool {
    if contains_principal(s.ops@, info.sender@) {
        &&& r matches Ok(resp)
        &&& (r matches Ok(resp) ==> resp.messages@ == seq![action] && resp.attributes@.len() == 0)
    } else {
        r == Err::<Response, ContractError>(ContractError::Unauthorized {})
    }
}

/// Operator command: stake `amount` with a validator.
pub fn execute_delegate(state: &State, info: MessageInfo, validator: String, amount: u128) -> (r:
    Result<Response, ContractError>)
    ensures
        spec_staking_outcome(
            *state,
            info,
            Action::Delegate { validator, amount, denom: state.denom },
            r,
        ),
{
    authorize_op(state, &info.sender)?;
    let denom = clone_string(&state.denom);
    let response = crate::staking::delegate(Response::new(), validator, amount, denom);
    proof {
        assert(response.messages@ =~= seq![
            Action::Delegate { validator, amount, denom: state.denom },
        ]);
    }
    Ok(response)
}

/// Operator command: move `amount` of stake from one validator to another.
pub fn execute_redelegate(
    state: &State,
    info: MessageInfo,
    src_validator: String,
    dst_validator: String,
    amount: u128,
) -> (r: Result<Response, ContractError>)
    ensures
        spec_staking_outcome(
            *state,
            info,
            Action::Redelegate { src_validator, dst_validator, amount, denom: state.denom },
            r,
        ),
{
    authorize_op(state, &info.sender)?;
    let denom = clone_string(&state.denom);
    let response = crate::staking::redelegate(
        Response::new(),
        src_validator,
        dst_validator,
        amount,
        denom,
    );
    proof {
        assert(response.messages@ =~= seq![
            Action::Redelegate { src_validator, dst_validator, amount, denom: state.denom },
        ]);
    }
    Ok(response)
}

/// Operator command: unstake `amount` from a validator.
pub fn execute_undelegate(state: &State, info: MessageInfo, validator: String, amount: u128) -> (r:
    Result<Response, ContractError>)
    ensures
        spec_staking_outcome(
            *state,
            info,
            Action::Undelegate { validator, amount, denom: state.denom },
            r,
        ),
{
    authorize_op(state, &info.sender)?;
    let denom = clone_string(&state.denom);
    let response = crate::staking::undelegate(Response::new(), validator, amount, denom);
    proof {
        assert(response.messages@ =~= seq![
            Action::Undelegate { validator, amount, denom: state.denom },
        ]);
    }
    Ok(response)
}

/// The outcome of the operator command that withdraws matured principal:
/// the ledger spends the request oldest-first, the unlocked counter grows by
/// it, and the proceeds are sent to the unlock distribution address.
pub open spec fn spec_withdraw_unlocked_outcome(
    pre: State,
    now: u64,
    info: MessageInfo,
    amount: u128,
    post: State,
    r: Result<Response, ContractError>,
) -> bool {
    let ts0 = pre.vesting_timestamps@;
    let as0 = pre.vesting_amounts@;
    if !contains_principal(pre.ops@, info.sender@) {
        &&& r == Err::<Response, ContractError>(ContractError::Unauthorized {})
        &&& post == pre
    } else if amount > spec_total_vested(ts0, as0, now) {
        &&& r == Err::<Response, ContractError>(ContractError::NoSufficientUnlockedTokens {})
        &&& post == pre
    } else {
        &&& post.vesting_timestamps@ == spec_collect(ts0, as0, now, amount as int).0
        &&& post.vesting_amounts@ == spec_collect(ts0, as0, now, amount as int).1
        &&& post.withdrawn_unlocked == pre.withdrawn_unlocked + amount
        &&& post == (State {
            vesting_timestamps: post.vesting_timestamps,
            vesting_amounts: post.vesting_amounts,
            withdrawn_unlocked: post.withdrawn_unlocked,
            ..pre
        })
        &&& r matches Ok(resp)
        &&& (r matches Ok(resp) ==> {
            &&& resp.messages@ == if amount == 0 {
                Seq::<Action>::empty()
            } else {
                seq![
                    Action::Send {
                        to_address: pre.unlock_distribution_address,
                        amount,
                        denom: pre.denom,
                    },
                ]
            }
            &&& resp.attributes@.len() == 0
        })
    }
}

/// Operator command: withdraw `amount` of matured, not yet withdrawn
/// principal and send it to the unlock distribution address.
pub fn execute_initiate_withdraw_unlocked(
    state: &mut State,
    env: &Env,
    info: MessageInfo,
    amount: u128,
) -> (r: Result<Response, ContractError>)
    requires
        old(state).wf(),
        old(state).balanced(),
    ensures
        final(state).wf(),
        final(state).balanced(),
        spec_withdraw_unlocked_outcome(*old(state), env.block.time, info, amount, *final(state), r),
{
    authorize_op(state, &info.sender)?;
    proof {
        lemma_vested_le_sum(state.vesting_timestamps@, state.vesting_amounts@, env.block.time);
        lemma_sum_nonneg(state.vesting_amounts@);
    }
    let vested_amount = collect_vested(state, env.block.time, amount)?;
    state.withdrawn_unlocked = state.withdrawn_unlocked + vested_amount;
    let r = distribute_vested(state, vested_amount, Response::new());
    proof {
        if amount != 0 && r is Ok {
            let resp = r->Ok_0;
            assert(resp.messages@ =~= seq![
                Action::Send {
                    to_address: old(state).unlock_distribution_address,
                    amount,
                    denom: old(state).denom,
                },
            ]);
        }
    }
    r
}

/// The outcome of the operator command that forwards staking rewards: the
/// reward counter grows by everything forwarded, and the batch sends the
/// auto-withdrawn amount (if any) followed by each validator's withdrawal and
/// transfer.
pub open spec fn spec_withdraw_reward_outcome(
    pre: State,
    info: MessageInfo,
    snap: StakingSnapshot,
    post: State,
    r: Result<Response, ContractError>,
) -> bool {
    let auto_amount = spec_withdrawn_rewards(
        snap.bank_balance,
        pre.total_amount,
        (pre.withdrawn_locked + pre.withdrawn_unlocked) as u128,
        snap.staked,
        snap.unbonding,
    );
    if !contains_principal(pre.ops@, info.sender@) {
        &&& r == Err::<Response, ContractError>(ContractError::Unauthorized {})
        &&& post == pre
    } else {
        &&& post.withdrawn_staking_rewards == pre.withdrawn_staking_rewards + auto_amount
            + spec_rewards_total(snap.validator_rewards@)
        &&& post == (State { withdrawn_staking_rewards: post.withdrawn_staking_rewards, ..pre })
        &&& r matches Ok(resp)
        &&& (r matches Ok(resp) ==> {
            &&& resp.messages@ == (if auto_amount > 0 {
                seq![
                    Action::Send {
                        to_address: pre.staking_reward_address,
                        amount: auto_amount as u128,
                        denom: pre.denom,
                    },
                ]
            } else {
                Seq::<Action>::empty()
            }) + spec_reward_msgs(snap.validator_rewards@, pre.staking_reward_address, pre.denom)
            &&& resp.attributes@.len() == 0
        })
    }
}

/// Operator command: forward all withdrawable staking rewards to the staking
/// reward distribution address, counting both what earlier staking operations
/// already pulled into the bank balance and each validator's pending rewards.
pub fn execute_initiate_withdraw_reward(
    state: &mut State,
    info: MessageInfo,
    staking: &StakingSnapshot,
) -> (r: Result<Response, ContractError>)
    requires
        old(state).wf(),
        old(state).balanced(),
        old(state).withdrawn_locked + old(state).withdrawn_unlocked + staking.staked
            + staking.unbonding <= u128::MAX,
        old(state).withdrawn_staking_rewards + spec_withdrawn_rewards(
            staking.bank_balance,
            old(state).total_amount,
            (old(state).withdrawn_locked + old(state).withdrawn_unlocked) as u128,
            staking.staked,
            staking.unbonding,
        ) + spec_rewards_total(staking.validator_rewards@) <= u128::MAX,
    ensures
        final(state).wf(),
        final(state).balanced(),
        spec_withdraw_reward_outcome(*old(state), info, *staking, *final(state), r),
{
    authorize_op(state, &info.sender)?;
    proof {
        lemma_sum_nonneg(state.vesting_amounts@);
    }
    let withdrawn_principal = state.withdrawn_locked + state.withdrawn_unlocked;
    let total0 = calculate_withdrawn_rewards(
        staking.bank_balance,
        state.total_amount,
        withdrawn_principal,
        staking.staked,
        staking.unbonding,
    );
    let mut response = Response::new();
    if total0 > 0 {
        let to_address = clone_string(&state.staking_reward_address);
        let denom = clone_string(&state.denom);
        response = response.add_message(Action::Send { to_address, amount: total0, denom });
    }
    let ghost base = response.messages@;
    let mut total = total0;
    let n = staking.validator_rewards.len();
    let mut i: usize = 0;
    proof {
        assert(staking.validator_rewards@.take(0) =~= Seq::<ValidatorReward>::empty());
        lemma_rewards_total_take_le(staking.validator_rewards@, 0);
    }
    while i < n
        invariant
            0 <= i <= n,
            n == staking.validator_rewards@.len(),
            total == total0 + spec_rewards_total(staking.validator_rewards@.take(i as int)),
            response.messages@ == base + spec_reward_msgs(
                staking.validator_rewards@.take(i as int),
                old(state).staking_reward_address,
                old(state).denom,
            ),
            response.attributes@.len() == 0,
            *state == *old(state),
        decreases n - i,
    {
        proof {
            lemma_rewards_total_take_succ(staking.validator_rewards@, i as int);
            lemma_rewards_total_take_le(staking.validator_rewards@, i as int + 1);
            lemma_rewards_total_take_le(staking.validator_rewards@, i as int);
        }
        let vr_validator = clone_string(&staking.validator_rewards[i].validator);
        let withdrawable = staking.validator_rewards[i].amount;
        response = crate::staking::withdraw_delegation_rewards(
            state,
            response,
            vr_validator,
            withdrawable,
        )?;
        total = total + withdrawable;
        proof {
            assert(staking.validator_rewards@.take(i + 1 as int).drop_last() =~= staking
                .validator_rewards@
                .take(i as int));
            assert(response.messages@ =~= base + spec_reward_msgs(
                staking.validator_rewards@.take(i + 1 as int),
                old(state).staking_reward_address,
                old(state).denom,
            ));
        }
        i = i + 1;
    }
    proof {
        assert(staking.validator_rewards@.take(n as int) =~= staking.validator_rewards@);
    }
    state.withdrawn_staking_rewards = state.withdrawn_staking_rewards + total;
    Ok(response)
}

/// How one role table looks after an authorized add or remove: still
/// duplicate-free; an add puts the principal in (a present member stays as
/// is), a remove takes it out (an absent one changes nothing).
pub open spec fn spec_role_update(
    pre_roles: Seq<String>,
    who: Seq<char>,
    remove: bool,
    post_roles: Seq<String>,
) -> bool {
    &&& crate::state::principals_unique(post_roles)
    &&& if remove {
        &&& !contains_principal(post_roles, who)
        &&& (contains_principal(pre_roles, who) ==> exists|i: int|
            0 <= i < pre_roles.len() && pre_roles[i]@ == who && post_roles == pre_roles.remove(i))
        &&& (!contains_principal(pre_roles, who) ==> post_roles == pre_roles)
    } else {
        &&& contains_principal(post_roles, who)
        &&& (contains_principal(pre_roles, who) ==> post_roles == pre_roles)
        &&& (!contains_principal(pre_roles, who) ==> post_roles == pre_roles.push(
            post_roles.last(),
        ) && post_roles.last()@ == who)
    }
}

/// The outcome of the administrator command that edits the operator table.
pub open spec fn spec_update_op_outcome(
    pre: State,
    sender: Seq<char>,
    op: Seq<char>,
    remove: bool,
    post: State,
    r: Result<Response, ContractError>,
) -> bool {
    if !contains_principal(pre.admins@, sender) {
        &&& r == Err::<Response, ContractError>(ContractError::Unauthorized {})
        &&& post == pre
    } else {
        &&& spec_role_update(pre.ops@, op, remove, post.ops@)
        &&& post == (State { ops: post.ops, ..pre })
        &&& r matches Ok(resp)
        &&& (r matches Ok(resp) ==> resp.messages@.len() == 0 && resp.attributes@.len() == 0)
    }
}

/// Administrator command: add or remove an operator.
pub fn execute_update_op(state: &mut State, info: MessageInfo, op: String, remove: bool) -> (r:
    Result<Response, ContractError>)
    requires
        old(state).wf(),
        old(state).balanced(),
    ensures
        final(state).wf(),
        final(state).balanced(),
        spec_update_op_outcome(*old(state), info.sender@, op@, remove, *final(state), r),
{
    authorize_admin(state, &info.sender)?;
    if remove {
        crate::state::remove_principal(&mut state.ops, &op);
    } else {
        add_principal(&mut state.ops, op);
    }
    Ok(Response::new())
}

/// The outcome of a self-call command that edits the administrator table.
pub open spec fn spec_internal_update_admin_outcome(
    pre: State,
    env: Env,
    sender: Seq<char>,
    admin: Seq<char>,
    remove: bool,
    post: State,
    r: Result<Response, ContractError>,
) -> bool {
    if env.contract_address@ != sender {
        &&& r == Err::<Response, ContractError>(ContractError::Unauthorized {})
        &&& post == pre
    } else {
        &&& spec_role_update(pre.admins@, admin, remove, post.admins@)
        &&& post == (State { admins: post.admins, ..pre })
        &&& r matches Ok(resp)
        &&& (r matches Ok(resp) ==> resp.messages@.len() == 0 && resp.attributes@.len() == 0)
    }
}

/// Self-call command (reachable only through a passed proposal): add or
/// remove an administrator.
pub fn execute_internal_update_admin(
    state: &mut State,
    env: &Env,
    info: MessageInfo,
    admin: String,
    remove: bool,
) -> (r: Result<Response, ContractError>)
    requires
        old(state).wf(),
        old(state).balanced(),
    ensures
        final(state).wf(),
        final(state).balanced(),
        spec_internal_update_admin_outcome(
            *old(state),
            *env,
            info.sender@,
            admin@,
            remove,
            *final(state),
            r,
        ),
{
    authorize_self_call(env, &info)?;
    if remove {
        crate::state::remove_principal(&mut state.admins, &admin);
    } else {
        add_principal(&mut state.admins, admin);
    }
    Ok(Response::new())
}

/// The outcome of a self-call command that replaces one stored address.
pub open spec fn spec_internal_set_address_outcome(
    pre: State,
    env: Env,
    sender: Seq<char>,
    post_value_is_new: bool,
    post: State,
    r: Result<Response, ContractError>,
) -> bool {
    if env.contract_address@ != sender {
        &&& r == Err::<Response, ContractError>(ContractError::Unauthorized {})
        &&& post == pre
    } else {
        &&& post_value_is_new
        &&& r matches Ok(resp)
        &&& (r matches Ok(resp) ==> resp.messages@.len() == 0 && resp.attributes@.len() == 0)
    }
}

/// Self-call command: point future unlock payouts at a new address.
pub fn execute_internal_update_unlocked_distribution_address(
    state: &mut State,
    env: &Env,
    info: MessageInfo,
    unlocked_distribution_address: String,
) -> (r: Result<Response, ContractError>)
    requires
        old(state).wf(),
        old(state).balanced(),
    ensures
        final(state).wf(),
        final(state).balanced(),
        spec_internal_set_address_outcome(
            *old(state),
            *env,
            info.sender@,
            *final(state) == (State {
                unlock_distribution_address: unlocked_distribution_address,
                ..*old(state)
            }),
            *final(state),
            r,
        ),
{
    authorize_self_call(env, &info)?;
    state.unlock_distribution_address = unlocked_distribution_address;
    Ok(Response::new())
}

/// Self-call command: point future staking-reward payouts at a new address.
pub fn execute_internal_update_staking_reward_distribution_address(
    state: &mut State,
    env: &Env,
    info: MessageInfo,
    staking_reward_distribution_address: String,
) -> (r: Result<Response, ContractError>)
    requires
        old(state).wf(),
        old(state).balanced(),
    ensures
        final(state).wf(),
        final(state).balanced(),
        spec_internal_set_address_outcome(
            *old(state),
            *env,
            info.sender@,
            *final(state) == (State {
                staking_reward_address: staking_reward_distribution_address,
                ..*old(state)
            }),
            *final(state),
            r,
        ),
{
    authorize_self_call(env, &info)?;
    state.staking_reward_address = staking_reward_distribution_address;
    Ok(Response::new())
}

/// The outcome of the emergency drain: the whole remaining schedule — matured
/// or not — leaves in one step, is credited to the locked-withdrawal counter,
/// and is sent to the approved destination.
pub open spec fn spec_withdraw_locked_outcome(
    pre: State,
    env: Env,
    sender: Seq<char>,
    dst: String,
    post: State,
    r: Result<Response, ContractError>,
) -> bool {
    if env.contract_address@ != sender {
        &&& r == Err::<Response, ContractError>(ContractError::Unauthorized {})
        &&& post == pre
    } else {
        &&& post.vesting_timestamps@.len() == 0
        &&& post.vesting_amounts@.len() == 0
        &&& post.withdrawn_locked == pre.withdrawn_locked + sum_amounts(pre.vesting_amounts@)
        &&& post == (State {
            vesting_timestamps: post.vesting_timestamps,
            vesting_amounts: post.vesting_amounts,
            withdrawn_locked: post.withdrawn_locked,
            ..pre
        })
        &&& r matches Ok(resp)
        &&& (r matches Ok(resp) ==> {
            &&& resp.messages@ == seq![
                Action::Send {
                    to_address: dst,
                    amount: sum_amounts(pre.vesting_amounts@) as u128,
                    denom: pre.denom,
                },
            ]
            &&& resp.attributes@.len() == 0
        })
    }
}

/// Self-call command (reachable only through a passed emergency-withdrawal
/// proposal): drain the entire remaining schedule to `dst`.
pub fn execute_internal_withdraw_locked(
    state: &mut State,
    env: &Env,
    info: MessageInfo,
    dst: String,
) -> (r: Result<Response, ContractError>)
    requires
        old(state).wf(),
        old(state).balanced(),
    ensures
        final(state).wf(),
        final(state).balanced(),
        spec_withdraw_locked_outcome(*old(state), *env, info.sender@, dst, *final(state), r),
{
    authorize_self_call(env, &info)?;
    proof {
        lemma_sum_nonneg(state.vesting_amounts@);
    }
    let amount = crate::staking::sum_balances(&state.vesting_amounts);
    state.vesting_amounts.clear();
    state.vesting_timestamps.clear();
    state.withdrawn_locked = state.withdrawn_locked + amount;
    let denom = clone_string(&state.denom);
    let response = Response::new().add_message(Action::Send { to_address: dst, amount, denom });
    proof {
        assert(response.messages@ =~= seq![
            Action::Send {
                to_address: dst,
                amount,
                denom: old(state).denom,
            },
        ]);
    }
    Ok(response)
}

/// The attribute set logged by `propose` and `vote`: the action, the sender,
/// the proposal id in decimal, and the freshly derived status by name.
pub open spec fn spec_attrs4(
    attrs: Seq<Attribute>,
    action: Seq<char>,
    sender: Seq<char>,
    id: int,
    status: Status,
) -> bool {
    &&& attrs.len() == 4
    &&& attrs[0].key@ == "action"@ && attrs[0].value@ == action
    &&& attrs[1].key@ == "sender"@ && attrs[1].value@ == sender
    &&& attrs[2].key@ == "proposal_id"@ && attrs[2].value@ == spec_u64_digits(id)
    &&& attrs[3].key@ == "status"@ && attrs[3].value@ == spec_status_name(status)
}

/// The attribute set logged by `process`: the action, the sender and the
/// proposal id in decimal.
pub open spec fn spec_attrs3(attrs: Seq<Attribute>, action: Seq<char>, sender: Seq<char>, id: int) -> bool {
    &&& attrs.len() == 3
    &&& attrs[0].key@ == "action"@ && attrs[0].value@ == action
    &&& attrs[1].key@ == "sender"@ && attrs[1].value@ == sender
    &&& attrs[2].key@ == "proposal_id"@ && attrs[2].value@ == spec_u64_digits(id)
}

/// Attaches the action / sender / proposal id attributes to a response.
fn add_id_attrs(response: Response, action: &str, sender: String, id: u64) -> (r: Response)
    requires
        response.attributes@.len() == 0,
    ensures
        r.messages@ == response.messages@,
        spec_attrs3(r.attributes@, action@, sender@, id as int),
{
    let r1 = response.add_attribute("action", action.to_owned());
    let r2 = r1.add_attribute("sender", sender);
    let r3 = r2.add_attribute("proposal_id", u64_to_string(id));
    proof {
        assert(r3.attributes@[0] == r2.attributes@[0]);
        assert(r2.attributes@[0] == r1.attributes@[0]);
        assert(r3.attributes@[1] == r2.attributes@[1]);
    }
    r3
}

/// Attaches the full four-attribute set including the derived status.
fn add_status_attrs(response: Response, action: &str, sender: String, id: u64, status: Status) -> (r:
    Response)
    requires
        response.attributes@.len() == 0,
    ensures
        r.messages@ == response.messages@,
        spec_attrs4(r.attributes@, action@, sender@, id as int, status),
{
    let r3 = add_id_attrs(response, action, sender, id);
    let r4 = r3.add_attribute("status", status_name(status).to_owned());
    proof {
        assert(r4.attributes@[0] == r3.attributes@[0]);
        assert(r4.attributes@[1] == r3.attributes@[1]);
        assert(r4.attributes@[2] == r3.attributes@[2]);
    }
    r4
}

/// The outcome of `propose`: only an administrator may open a proposal; the
/// new proposal snapshots the threshold and the administrator count, casts the
/// proposer's affirmative ballot, derives its status at once (a small enough
/// committee can pass immediately), and gets the next id, starting at 1.
pub open spec fn spec_propose_outcome(
    pre: State,
    block: BlockInfo,
    sender: Seq<char>,
    title: Seq<char>,
    msgs: Seq<Action>,
    post: State,
    r: Result<Response, ContractError>,
) -> bool {
    if !contains_principal(pre.admins@, sender) {
        &&& r == Err::<Response, ContractError>(ContractError::Unauthorized {})
        &&& post == pre
    } else {
        let p = post.proposals@.last();
        &&& post.proposal_count == pre.proposal_count + 1
        &&& post.proposals@ == pre.proposals@.push(p)
        &&& p.title@ == title
        &&& p.description@ == Seq::<char>::empty()
        &&& p.start_height == block.height
        &&& p.expires == spec_after(pre.max_voting_period, block)
        &&& p.msgs@ == msgs
        &&& p.status == spec_current_status(Proposal { status: Status::Open, ..p }, block)
        &&& p.threshold_percentage == pre.admin_voting_threshold_percentage
        &&& p.total_weight == pre.admins@.len()
        &&& p.votes == (Votes { yes: 1u64, no: 0u64 })
        &&& p.ballots@.len() == 1
        &&& p.ballots@[0].voter@ == sender
        &&& p.ballots@[0].weight == 1
        &&& p.ballots@[0].vote == Vote::Yes
        &&& p.proposer@ == sender
        &&& post == (State {
            proposal_count: post.proposal_count,
            proposals: post.proposals,
            ..pre
        })
        &&& r matches Ok(resp)
        &&& (r matches Ok(resp) ==> resp.messages@.len() == 0 && spec_attrs4(
            resp.attributes@,
            "propose"@,
            sender,
            pre.proposal_count + 1,
            p.status,
        ))
    }
}

/// Administrator command: open a proposal carrying the given follow-up action
/// batch, with the proposer's own affirmative ballot already cast.
pub fn execute_propose(
    state: &mut State,
    env: &Env,
    info: MessageInfo,
    title: String,
    msgs: Vec<Action>,
) -> (r: Result<Response, ContractError>)
    requires
        old(state).wf(),
        old(state).balanced(),
        old(state).proposal_count < u64::MAX,
        spec_period_fits(old(state).max_voting_period, env.block),
    ensures
        final(state).wf(),
        final(state).balanced(),
        spec_propose_outcome(
            *old(state),
            env.block,
            info.sender@,
            title@,
            msgs@,
            *final(state),
            r,
        ),
{
    authorize_admin(state, &info.sender)?;
    let expires = state.max_voting_period.after(&env.block);
    let total_weight = crate::state::get_number_of_admins(state) as u64;
    let mut ballots: Vec<Ballot> = Vec::new();
    ballots.push(Ballot { voter: clone_string(&info.sender), weight: 1, vote: Vote::Yes });
    let mut prop = Proposal {
        title,
        description: String::new(),
        start_height: env.block.height,
        expires,
        msgs,
        status: Status::Open,
        threshold_percentage: state.admin_voting_threshold_percentage,
        total_weight,
        votes: Votes::yes(1),
        proposer: clone_string(&info.sender),
        ballots,
    };
    proof {
        assert(prop.ballots@.drop_last() =~= Seq::<Ballot>::empty());
        assert(spec_tally(prop.ballots@.drop_last(), Vote::Yes) == 0);
        assert(spec_tally(prop.ballots@.drop_last(), Vote::No) == 0);
        assert(spec_tally(prop.ballots@, Vote::Yes) == 1);
        assert(spec_tally(prop.ballots@, Vote::No) == 0);
    }
    prop.update_status(&env.block);
    let status = prop.status;
    let id = next_proposal_id(state);
    state.proposals.push(prop);
    let response = add_status_attrs(Response::new(), "propose", info.sender, id, status);
    Ok(response)
}

/// Administrator command: propose adding or removing an administrator. The
/// action batch is one self-call carrying the internal update command, so the
/// edit happens only if the proposal passes and is processed.
pub fn execute_propose_update_admin(
    state: &mut State,
    env: &Env,
    info: MessageInfo,
    admin: String,
    remove: bool,
) -> (r: Result<Response, ContractError>)
    requires
        old(state).wf(),
        old(state).balanced(),
        old(state).proposal_count < u64::MAX,
        spec_period_fits(old(state).max_voting_period, env.block),
    ensures
        final(state).wf(),
        final(state).balanced(),
        spec_propose_outcome(
            *old(state),
            env.block,
            info.sender@,
            (if remove {
                "remove "@
            } else {
                "add "@
            }) + admin@,
            seq![
                Action::Execute {
                    contract_addr: env.contract_address,
                    msg: (crate::msg::ExecuteMsg::InternalUpdateAdmin { admin, remove }),
                },
            ],
            *final(state),
            r,
        ),
{
    let msg_admin = clone_string(&admin);
    let mut title = if remove {
        "remove ".to_owned()
    } else {
        "add ".to_owned()
    };
    title.append(admin.as_str());
    let action = Action::Execute {
        contract_addr: clone_string(&env.contract_address),
        msg: crate::msg::ExecuteMsg::InternalUpdateAdmin { admin: msg_admin, remove },
    };
    let mut msgs: Vec<Action> = Vec::new();
    msgs.push(action);
    proof {
        assert(msgs@ =~= seq![
            Action::Execute {
                contract_addr: env.contract_address,
                msg: (crate::msg::ExecuteMsg::InternalUpdateAdmin { admin, remove }),
            },
        ]);
    }
    execute_propose(state, env, info, title, msgs)
}

/// Administrator command: propose pointing unlock payouts at a new address,
/// as a self-call gated by the vote.
pub fn execute_propose_update_unlocked_distribution_address(
    state: &mut State,
    env: &Env,
    info: MessageInfo,
    unlocked_distribution_address: String,
) -> (r: Result<Response, ContractError>)
    requires
        old(state).wf(),
        old(state).balanced(),
        old(state).proposal_count < u64::MAX,
        spec_period_fits(old(state).max_voting_period, env.block),
    ensures
        final(state).wf(),
        final(state).balanced(),
        spec_propose_outcome(
            *old(state),
            env.block,
            info.sender@,
            "updating unlocked distribution address "@ + unlocked_distribution_address@,
            seq![
                Action::Execute {
                    contract_addr: env.contract_address,
                    msg: (crate::msg::ExecuteMsg::InternalUpdateUnlockedDistributionAddress {
                        unlocked_distribution_address,
                    }),
                },
            ],
            *final(state),
            r,
        ),
{
    let msg_addr = clone_string(&unlocked_distribution_address);
    let mut title = "updating unlocked distribution address ".to_owned();
    title.append(unlocked_distribution_address.as_str());
    let action = Action::Execute {
        contract_addr: clone_string(&env.contract_address),
        msg: crate::msg::ExecuteMsg::InternalUpdateUnlockedDistributionAddress {
            unlocked_distribution_address: msg_addr,
        },
    };
    let mut msgs: Vec<Action> = Vec::new();
    msgs.push(action);
    proof {
        assert(msgs@ =~= seq![
            Action::Execute {
                contract_addr: env.contract_address,
                msg: (crate::msg::ExecuteMsg::InternalUpdateUnlockedDistributionAddress {
                    unlocked_distribution_address,
                }),
            },
        ]);
    }
    execute_propose(state, env, info, title, msgs)
}

/// Administrator command: propose pointing staking-reward payouts at a new
/// address, as a self-call gated by the vote.
pub fn execute_propose_update_staking_reward_distribution_address(
    state: &mut State,
    env: &Env,
    info: MessageInfo,
    staking_reward_distribution_address: String,
) -> (r: Result<Response, ContractError>)
    requires
        old(state).wf(),
        old(state).balanced(),
        old(state).proposal_count < u64::MAX,
        spec_period_fits(old(state).max_voting_period, env.block),
    ensures
        final(state).wf(),
        final(state).balanced(),
        spec_propose_outcome(
            *old(state),
            env.block,
            info.sender@,
            "updating staking reward distribution address "@
                + staking_reward_distribution_address@,
            seq![
                Action::Execute {
                    contract_addr: env.contract_address,
                    msg: (crate::msg::ExecuteMsg::InternalUpdateStakingRewardDistributionAddress {
                        staking_reward_distribution_address,
                    }),
                },
            ],
            *final(state),
            r,
        ),
{
    let msg_addr = clone_string(&staking_reward_distribution_address);
    let mut title = "updating staking reward distribution address ".to_owned();
    title.append(staking_reward_distribution_address.as_str());
    let action = Action::Execute {
        contract_addr: clone_string(&env.contract_address),
        msg: crate::msg::ExecuteMsg::InternalUpdateStakingRewardDistributionAddress {
            staking_reward_distribution_address: msg_addr,
        },
    };
    let mut msgs: Vec<Action> = Vec::new();
    msgs.push(action);
    proof {
        assert(msgs@ =~= seq![
            Action::Execute {
                contract_addr: env.contract_address,
                msg: (crate::msg::ExecuteMsg::InternalUpdateStakingRewardDistributionAddress {
                    staking_reward_distribution_address,
                }),
            },
        ]);
    }
    execute_propose(state, env, info, title, msgs)
}

/// Administrator command: propose draining the whole remaining schedule to
/// `dst`, as a self-call gated by the vote.
pub fn execute_propose_emergency_withdraw(
    state: &mut State,
    env: &Env,
    info: MessageInfo,
    dst: String,
) -> (r: Result<Response, ContractError>)
    requires
        old(state).wf(),
        old(state).balanced(),
        old(state).proposal_count < u64::MAX,
        spec_period_fits(old(state).max_voting_period, env.block),
    ensures
        final(state).wf(),
        final(state).balanced(),
        spec_propose_outcome(
            *old(state),
            env.block,
            info.sender@,
            "emergecy withdraw to "@ + dst@,
            seq![
                Action::Execute {
                    contract_addr: env.contract_address,
                    msg: (crate::msg::ExecuteMsg::InternalWithdrawLocked { dst }),
                },
            ],
            *final(state),
            r,
        ),
{
    let mut title = "emergecy withdraw to ".to_owned();
    title.append(dst.as_str());
    let action = Action::Execute {
        contract_addr: clone_string(&env.contract_address),
        msg: crate::msg::ExecuteMsg::InternalWithdrawLocked { dst },
    };
    let mut msgs: Vec<Action> = Vec::new();
    msgs.push(action);
    proof {
        assert(msgs@ =~= seq![
            Action::Execute {
                contract_addr: env.contract_address,
                msg: (crate::msg::ExecuteMsg::InternalWithdrawLocked { dst }),
            },
        ]);
    }
    execute_propose(state, env, info, title, msgs)
}

/// Administrator command: propose casting the given vote on a proposal of the
/// host chain's own governance.
pub fn execute_propose_gov_vote(
    state: &mut State,
    env: &Env,
    info: MessageInfo,
    gov_proposal_id: u64,
    gov_vote: crate::types::VoteOption,
) -> (r: Result<Response, ContractError>)
    requires
        old(state).wf(),
        old(state).balanced(),
        old(state).proposal_count < u64::MAX,
        spec_period_fits(old(state).max_voting_period, env.block),
    ensures
        final(state).wf(),
        final(state).balanced(),
        spec_propose_outcome(
            *old(state),
            env.block,
            info.sender@,
            "voting "@ + crate::types::spec_vote_option_name(gov_vote) + " for "@
                + spec_u64_digits(gov_proposal_id as int),
            seq![Action::GovVote { proposal_id: gov_proposal_id, vote: gov_vote }],
            *final(state),
            r,
        ),
{
    let mut title = "voting ".to_owned();
    title.append(crate::types::vote_option_name(gov_vote));
    title.append(" for ");
    let digits = u64_to_string(gov_proposal_id);
    title.append(digits.as_str());
    let mut msgs: Vec<Action> = Vec::new();
    msgs.push(Action::GovVote { proposal_id: gov_proposal_id, vote: gov_vote });
    proof {
        assert(msgs@ =~= seq![Action::GovVote { proposal_id: gov_proposal_id, vote: gov_vote }]);
    }
    execute_propose(state, env, info, title, msgs)
}

/// The outcome of `vote`: only an administrator may vote, only on an existing
/// proposal whose stored status is still `Open` and whose voting period has
/// not expired, and only once — a second ballot from the same voter fails with
/// `AlreadyVoted`. A valid vote adds weight one to the affirmative tally,
/// records the ballot, and re-derives the status.
pub open spec fn spec_vote_outcome(
    pre: State,
    block: BlockInfo,
    sender: Seq<char>,
    proposal_id: u64,
    post: State,
    r: Result<Response, ContractError>,
) -> bool {
    if !contains_principal(pre.admins@, sender) {
        &&& r == Err::<Response, ContractError>(ContractError::Unauthorized {})
        &&& post == pre
    } else if proposal_id < 1 || proposal_id > pre.proposals@.len() {
        &&& (r matches Err(e) && e.is_std("proposal not found"@))
        &&& post == pre
    } else {
        let p = pre.proposals@[proposal_id - 1];
        if p.status != Status::Open {
            &&& r == Err::<Response, ContractError>(ContractError::NotOpen {})
            &&& post == pre
        } else if spec_is_expired(p.expires, block) {
            &&& r == Err::<Response, ContractError>(ContractError::Expired {})
            &&& post == pre
        } else if spec_has_ballot(p.ballots@, sender) {
            &&& r == Err::<Response, ContractError>(ContractError::AlreadyVoted {})
            &&& post == pre
        } else {
            let q = post.proposals@[proposal_id - 1];
            &&& post.proposals@ == pre.proposals@.update(proposal_id - 1, q)
            &&& q.ballots@.len() == p.ballots@.len() + 1
            &&& q.ballots@.drop_last() == p.ballots@
            &&& q.ballots@.last().voter@ == sender
            &&& q.ballots@.last().weight == 1
            &&& q.ballots@.last().vote == Vote::Yes
            &&& q.votes == (Votes { yes: (p.votes.yes + 1) as u64, no: p.votes.no })
            &&& q.status == spec_current_status(Proposal { votes: q.votes, ..p }, block)
            &&& q == (Proposal { status: q.status, votes: q.votes, ballots: q.ballots, ..p })
            &&& post == (State { proposals: post.proposals, ..pre })
            &&& r matches Ok(resp)
            &&& (r matches Ok(resp) ==> resp.messages@.len() == 0 && spec_attrs4(
                resp.attributes@,
                "vote"@,
                sender,
                proposal_id as int,
                q.status,
            ))
        }
    }
}

/// Administrator command: cast an affirmative ballot of weight one on an open,
/// unexpired proposal the sender has not voted on before.
pub fn execute_vote(state: &mut State, env: &Env, info: MessageInfo, proposal_id: u64) -> (r:
    Result<Response, ContractError>)
    requires
        old(state).wf(),
        old(state).balanced(),
        1 <= proposal_id <= old(state).proposals@.len() ==> old(state).proposals@[proposal_id
            - 1].votes.yes < u64::MAX,
    ensures
        final(state).wf(),
        final(state).balanced(),
        spec_vote_outcome(*old(state), env.block, info.sender@, proposal_id, *final(state), r),
{
    authorize_admin(state, &info.sender)?;
    if proposal_id < 1 || proposal_id > state.proposals.len() as u64 {
        return Err(ContractError::Std("proposal not found".to_owned()));
    }
    let idx = (proposal_id - 1) as usize;
    if state.proposals[idx].status != Status::Open {
        return Err(ContractError::NotOpen {});
    }
    if state.proposals[idx].expires.is_expired(&env.block) {
        return Err(ContractError::Expired {});
    }
    if has_ballot(&state.proposals[idx].ballots, &info.sender) {
        return Err(ContractError::AlreadyVoted {});
    }
    let ghost p0 = state.proposals@[idx as int];
    let voter = clone_string(&info.sender);
    let prop = &mut state.proposals[idx];
    prop.ballots.push(Ballot { voter, weight: 1, vote: Vote::Yes });
    prop.votes.add_vote(Vote::Yes, 1);
    prop.update_status(&env.block);
    proof {
        let q = state.proposals@[idx as int];
        assert(q.ballots@.drop_last() =~= p0.ballots@);
        assert(spec_tally(q.ballots@, Vote::Yes) == spec_tally(p0.ballots@, Vote::Yes) + 1);
        assert(spec_tally(q.ballots@, Vote::No) == spec_tally(p0.ballots@, Vote::No));
        assert forall|i: int, j: int| 0 <= i < j < q.ballots@.len() implies q.ballots@[i].voter@
            != q.ballots@[j].voter@ by {
            if j < q.ballots@.len() - 1 {
                assert(p0.ballots@[i].voter@ != p0.ballots@[j].voter@);
            }
        }
    }
    let status = state.proposals[idx].status;
    let response = add_status_attrs(Response::new(), "vote", info.sender, proposal_id, status);
    Ok(response)
}

/// The outcome of `process`: only an administrator may process, only an
/// existing proposal, and only one whose freshly derived status is `Passed` —
/// in particular never one already `Executed`. Success stores the terminal
/// `Executed` status and dispatches the stored action batch verbatim, exactly
/// once.
pub open spec fn spec_process_outcome(
    pre: State,
    block: BlockInfo,
    sender: Seq<char>,
    proposal_id: u64,
    post: State,
    r: Result<Response, ContractError>,
) -> bool {
    if !contains_principal(pre.admins@, sender) {
        &&& r == Err::<Response, ContractError>(ContractError::Unauthorized {})
        &&& post == pre
    } else if proposal_id < 1 || proposal_id > pre.proposals@.len() {
        &&& (r matches Err(e) && e.is_std("proposal not found"@))
        &&& post == pre
    } else {
        let p = pre.proposals@[proposal_id - 1];
        if spec_current_status(p, block) != Status::Passed {
            &&& r == Err::<Response, ContractError>(ContractError::WrongExecuteStatus {})
            &&& post == pre
        } else {
            let q = post.proposals@[proposal_id - 1];
            &&& q == (Proposal { status: Status::Executed, ..p })
            &&& post.proposals@ == pre.proposals@.update(proposal_id - 1, q)
            &&& post == (State { proposals: post.proposals, ..pre })
            &&& r matches Ok(resp)
            &&& (r matches Ok(resp) ==> resp.messages@ == p.msgs@ && spec_attrs3(
                resp.attributes@,
                "execute"@,
                sender,
                proposal_id as int,
            ))
        }
    }
}

/// Administrator command: execute a passed proposal. The stored status flips
/// to the terminal `Executed` and the proposal's action batch is handed to the
/// host for dispatch. A proposal that passed in time stays executable after
/// its expiration, by design; one already executed fails with
/// `WrongExecuteStatus` and dispatches nothing.
pub fn execute_process_proposal(
    state: &mut State,
    env: &Env,
    info: MessageInfo,
    proposal_id: u64,
) -> (r: Result<Response, ContractError>)
    requires
        old(state).wf(),
        old(state).balanced(),
    ensures
        final(state).wf(),
        final(state).balanced(),
        spec_process_outcome(*old(state), env.block, info.sender@, proposal_id, *final(state), r),
{
    authorize_admin(state, &info.sender)?;
    if proposal_id < 1 || proposal_id > state.proposals.len() as u64 {
        return Err(ContractError::Std("proposal not found".to_owned()));
    }
    let idx = (proposal_id - 1) as usize;
    let status = state.proposals[idx].current_status(&env.block);
    if status != Status::Passed {
        return Err(ContractError::WrongExecuteStatus {});
    }
    let prop = &mut state.proposals[idx];
    prop.status = Status::Executed;
    let msgs = clone_actions(&state.proposals[idx].msgs);
    let response = Response { messages: msgs, attributes: Vec::new() };
    let response = add_id_attrs(response, "execute", info.sender, proposal_id);
    Ok(response)
}

/// Routes one inbound command to its handler. Authorization comes first on
/// every path: operator commands, administrator commands (proposing, voting,
/// processing, operator edits) and self-call commands (the internal mutations
/// a passed proposal dispatches) each fail closed with `Unauthorized`. The
/// per-command outcome predicates pin the state change, the emitted action
/// batch and the logged attributes exactly. The staking snapshot is ambient
/// host context, read only by the reward-withdrawal command.
pub fn execute(
    state: &mut State,
    env: Env,
    info: MessageInfo,
    msg: crate::msg::ExecuteMsg,
    staking: &StakingSnapshot,
) -> (r: Result<Response, ContractError>)
    requires
        old(state).wf(),
        old(state).balanced(),
        old(state).proposal_count < u64::MAX,
        spec_period_fits(old(state).max_voting_period, env.block),
        forall|i: int|
            0 <= i < old(state).proposals@.len() ==> (#[trigger] old(
                state,
            ).proposals@[i]).votes.yes < u64::MAX,
        old(state).withdrawn_locked + old(state).withdrawn_unlocked + staking.staked
            + staking.unbonding <= u128::MAX,
        old(state).withdrawn_staking_rewards + spec_withdrawn_rewards(
            staking.bank_balance,
            old(state).total_amount,
            (old(state).withdrawn_locked + old(state).withdrawn_unlocked) as u128,
            staking.staked,
            staking.unbonding,
        ) + spec_rewards_total(staking.validator_rewards@) <= u128::MAX,
    ensures
        final(state).wf(),
        final(state).balanced(),
        match msg {
            crate::msg::ExecuteMsg::Delegate { validator, amount } => *final(state) == *old(state)
                && spec_staking_outcome(
                *old(state),
                info,
                Action::Delegate { validator, amount, denom: old(state).denom },
                r,
            ),
            crate::msg::ExecuteMsg::Redelegate { src_validator, dst_validator, amount } => *final(state)
                == *old(state) && spec_staking_outcome(
                *old(state),
                info,
                Action::Redelegate {
                    src_validator,
                    dst_validator,
                    amount,
                    denom: old(state).denom,
                },
                r,
            ),
            crate::msg::ExecuteMsg::Undelegate { validator, amount } => *final(state) == *old(state)
                && spec_staking_outcome(
                *old(state),
                info,
                Action::Undelegate { validator, amount, denom: old(state).denom },
                r,
            ),
            crate::msg::ExecuteMsg::InitiateWithdrawUnlocked { amount } => spec_withdraw_unlocked_outcome(
                *old(state),
                env.block.time,
                info,
                amount,
                *final(state),
                r,
            ),
            crate::msg::ExecuteMsg::InitiateWithdrawReward {} => spec_withdraw_reward_outcome(
                *old(state),
                info,
                *staking,
                *final(state),
                r,
            ),
            crate::msg::ExecuteMsg::UpdateOp { op, remove } => spec_update_op_outcome(
                *old(state),
                info.sender@,
                op@,
                remove,
                *final(state),
                r,
            ),
            crate::msg::ExecuteMsg::ProposeUpdateAdmin { admin, remove } => spec_propose_outcome(
                *old(state),
                env.block,
                info.sender@,
                (if remove {
                    "remove "@
                } else {
                    "add "@
                }) + admin@,
                seq![
                    Action::Execute {
                        contract_addr: env.contract_address,
                        msg: (crate::msg::ExecuteMsg::InternalUpdateAdmin { admin, remove }),
                    },
                ],
                *final(state),
                r,
            ),
            crate::msg::ExecuteMsg::ProposeUpdateUnlockedDistributionAddress {
                unlocked_distribution_address,
            } => spec_propose_outcome(
                *old(state),
                env.block,
                info.sender@,
                "updating unlocked distribution address "@ + unlocked_distribution_address@,
                seq![
                    Action::Execute {
                        contract_addr: env.contract_address,
                        msg: (crate::msg::ExecuteMsg::InternalUpdateUnlockedDistributionAddress {
                            unlocked_distribution_address,
                        }),
                    },
                ],
                *final(state),
                r,
            ),
            crate::msg::ExecuteMsg::ProposeUpdateStakingRewardDistributionAddress {
                staking_reward_distribution_address,
            } => spec_propose_outcome(
                *old(state),
                env.block,
                info.sender@,
                "updating staking reward distribution address "@
                    + staking_reward_distribution_address@,
                seq![
                    Action::Execute {
                        contract_addr: env.contract_address,
                        msg: (crate::msg::ExecuteMsg::InternalUpdateStakingRewardDistributionAddress {
                            staking_reward_distribution_address,
                        }),
                    },
                ],
                *final(state),
                r,
            ),
            crate::msg::ExecuteMsg::ProposeEmergencyWithdraw { dst } => spec_propose_outcome(
                *old(state),
                env.block,
                info.sender@,
                "emergecy withdraw to "@ + dst@,
                seq![
                    Action::Execute {
                        contract_addr: env.contract_address,
                        msg: (crate::msg::ExecuteMsg::InternalWithdrawLocked { dst }),
                    },
                ],
                *final(state),
                r,
            ),
            crate::msg::ExecuteMsg::ProposeGovVote { gov_proposal_id, gov_vote } => spec_propose_outcome(
                *old(state),
                env.block,
                info.sender@,
                "voting "@ + crate::types::spec_vote_option_name(gov_vote) + " for "@
                    + spec_u64_digits(gov_proposal_id as int),
                seq![Action::GovVote { proposal_id: gov_proposal_id, vote: gov_vote }],
                *final(state),
                r,
            ),
            crate::msg::ExecuteMsg::VoteProposal { proposal_id } => spec_vote_outcome(
                *old(state),
                env.block,
                info.sender@,
                proposal_id,
                *final(state),
                r,
            ),
            crate::msg::ExecuteMsg::ProcessProposal { proposal_id } => spec_process_outcome(
                *old(state),
                env.block,
                info.sender@,
                proposal_id,
                *final(state),
                r,
            ),
            crate::msg::ExecuteMsg::InternalUpdateAdmin { admin, remove } => spec_internal_update_admin_outcome(
                *old(state),
                env,
                info.sender@,
                admin@,
                remove,
                *final(state),
                r,
            ),
            crate::msg::ExecuteMsg::InternalUpdateUnlockedDistributionAddress {
                unlocked_distribution_address,
            } => spec_internal_set_address_outcome(
                *old(state),
                env,
                info.sender@,
                *final(state) == (State { unlock_distribution_address: unlocked_distribution_address, ..*old(state) }),
                *final(state),
                r,
            ),
            crate::msg::ExecuteMsg::InternalUpdateStakingRewardDistributionAddress {
                staking_reward_distribution_address,
            } => spec_internal_set_address_outcome(
                *old(state),
                env,
                info.sender@,
                *final(state) == (State { staking_reward_address: staking_reward_distribution_address, ..*old(state) }),
                *final(state),
                r,
            ),
            crate::msg::ExecuteMsg::InternalWithdrawLocked { dst } => spec_withdraw_locked_outcome(
                *old(state),
                env,
                info.sender@,
                dst,
                *final(state),
                r,
            ),
        },
{
    match msg {
        crate::msg::ExecuteMsg::Delegate { validator, amount } => execute_delegate(
            state,
            info,
            validator,
            amount,
        ),
        crate::msg::ExecuteMsg::Redelegate { src_validator, dst_validator, amount } => {
            execute_redelegate(state, info, src_validator, dst_validator, amount)
        },
        crate::msg::ExecuteMsg::Undelegate { validator, amount } => execute_undelegate(
            state,
            info,
            validator,
            amount,
        ),
        crate::msg::ExecuteMsg::InitiateWithdrawUnlocked { amount } => {
            execute_initiate_withdraw_unlocked(state, &env, info, amount)
        },
        crate::msg::ExecuteMsg::InitiateWithdrawReward {} => execute_initiate_withdraw_reward(
            state,
            info,
            staking,
        ),
        crate::msg::ExecuteMsg::UpdateOp { op, remove } => execute_update_op(
            state,
            info,
            op,
            remove,
        ),
        crate::msg::ExecuteMsg::ProposeUpdateAdmin { admin, remove } => {
            execute_propose_update_admin(state, &env, info, admin, remove)
        },
        crate::msg::ExecuteMsg::ProposeUpdateUnlockedDistributionAddress {
            unlocked_distribution_address,
        } => execute_propose_update_unlocked_distribution_address(
            state,
            &env,
            info,
            unlocked_distribution_address,
        ),
        crate::msg::ExecuteMsg::ProposeUpdateStakingRewardDistributionAddress {
            staking_reward_distribution_address,
        } => execute_propose_update_staking_reward_distribution_address(
            state,
            &env,
            info,
            staking_reward_distribution_address,
        ),
        crate::msg::ExecuteMsg::ProposeEmergencyWithdraw { dst } => {
            execute_propose_emergency_withdraw(state, &env, info, dst)
        },
        crate::msg::ExecuteMsg::ProposeGovVote { gov_proposal_id, gov_vote } => {
            execute_propose_gov_vote(state, &env, info, gov_proposal_id, gov_vote)
        },
        crate::msg::ExecuteMsg::VoteProposal { proposal_id } => execute_vote(
            state,
            &env,
            info,
            proposal_id,
        ),
        crate::msg::ExecuteMsg::ProcessProposal { proposal_id } => execute_process_proposal(
            state,
            &env,
            info,
            proposal_id,
        ),
        crate::msg::ExecuteMsg::InternalUpdateAdmin { admin, remove } => {
            execute_internal_update_admin(state, &env, info, admin, remove)
        },
        crate::msg::ExecuteMsg::InternalUpdateUnlockedDistributionAddress {
            unlocked_distribution_address,
        } => execute_internal_update_unlocked_distribution_address(
            state,
            &env,
            info,
            unlocked_distribution_address,
        ),
        crate::msg::ExecuteMsg::InternalUpdateStakingRewardDistributionAddress {
            staking_reward_distribution_address,
        } => execute_internal_update_staking_reward_distribution_address(
            state,
            &env,
            info,
            staking_reward_distribution_address,
        ),
        crate::msg::ExecuteMsg::InternalWithdrawLocked { dst } => execute_internal_withdraw_locked(
            state,
            &env,
            info,
            dst,
        ),
    }
}

/// One proposal as a query reports it: same stored facts, with the status
/// derived fresh for the queried block.
pub open spec fn spec_proposal_response(
    p: Proposal,
    id: int,
    b: BlockInfo,
    pr: crate::msg::ProposalResponse,
) -> bool {
    &&& pr.id == id
    &&& pr.title == p.title
    &&& pr.description == p.description
    &&& pr.msgs@ == p.msgs@
    &&& pr.status == spec_current_status(p, b)
    &&& pr.expires == p.expires
    &&& pr.proposer == p.proposer
    &&& pr.threshold == (crate::msg::ThresholdResponse {
        percentage: p.threshold_percentage,
        total_weight: p.total_weight,
    })
}

/// Renders one stored proposal for a query, deriving its status fresh.
fn map_proposal(block: &BlockInfo, id: u64, prop: &Proposal) -> (pr: crate::msg::ProposalResponse)
    requires
        prop.threshold_percentage <= 100,
    ensures
        spec_proposal_response(*prop, id as int, *block, pr),
{
    let status = prop.current_status(block);
    crate::msg::ProposalResponse {
        id,
        title: clone_string(&prop.title),
        description: clone_string(&prop.description),
        msgs: clone_actions(&prop.msgs),
        status,
        expires: prop.expires,
        proposer: clone_string(&prop.proposer),
        threshold: crate::msg::ThresholdResponse {
            percentage: prop.threshold_percentage,
            total_weight: prop.total_weight,
        },
    }
}

/// All proposals, newest id first, each with its status derived for the
/// queried block.
pub open spec fn spec_proposal_list(s: State, b: BlockInfo, r: crate::msg::ProposalListResponse) -> bool {
    &&& r.proposals@.len() == s.proposals@.len()
    &&& (forall|k: int|
        0 <= k < r.proposals@.len() ==> spec_proposal_response(
            s.proposals@[s.proposals@.len() - 1 - k],
            s.proposals@.len() - k,
            b,
            #[trigger] r.proposals@[k],
        ))
}

/// Query: list all proposals in descending id order.
pub fn query_proposals(state: &State, env: &Env) -> (r: crate::msg::ProposalListResponse)
    requires
        state.wf(),
    ensures
        spec_proposal_list(*state, env.block, r),
{
    let n = state.proposals.len();
    let mut proposals: Vec<crate::msg::ProposalResponse> = Vec::new();
    let mut k: usize = 0;
    while k < n
        invariant
            0 <= k <= n,
            n == state.proposals@.len(),
            state.wf(),
            proposals@.len() == k,
            forall|j: int|
                0 <= j < k ==> spec_proposal_response(
                    state.proposals@[n - 1 - j],
                    n - j,
                    env.block,
                    #[trigger] proposals@[j],
                ),
        decreases n - k,
    {
        let idx = n - 1 - k;
        let pr = map_proposal(&env.block, (idx + 1) as u64, &state.proposals[idx]);
        proposals.push(pr);
        k = k + 1;
    }
    crate::msg::ProposalListResponse { proposals }
}

/// The ballots of one proposal as a query reports them; an unknown proposal id
/// yields the empty list.
pub open spec fn spec_vote_list(s: State, proposal_id: u64, r: crate::msg::VoteListResponse) -> bool {
    if 1 <= proposal_id <= s.proposals@.len() {
        let ballots = s.proposals@[proposal_id - 1].ballots@;
        &&& r.votes@.len() == ballots.len()
        &&& (forall|k: int|
            0 <= k < ballots.len() ==> {
                &&& (#[trigger] r.votes@[k]).proposal_id == proposal_id
                &&& r.votes@[k].voter == ballots[k].voter
                &&& r.votes@[k].vote == ballots[k].vote
                &&& r.votes@[k].weight == ballots[k].weight
            })
    } else {
        r.votes@.len() == 0
    }
}

/// Query: list the ballots cast on one proposal, in the order they landed.
pub fn query_votes(state: &State, proposal_id: u64) -> (r: crate::msg::VoteListResponse)
    ensures
        spec_vote_list(*state, proposal_id, r),
{
    let mut votes: Vec<crate::msg::VoteInfo> = Vec::new();
    if proposal_id < 1 || proposal_id > state.proposals.len() as u64 {
        return crate::msg::VoteListResponse { votes };
    }
    let idx = (proposal_id - 1) as usize;
    let ballots = &state.proposals[idx].ballots;
    let n = ballots.len();
    let mut k: usize = 0;
    while k < n
        invariant
            0 <= k <= n,
            n == ballots@.len(),
            votes@.len() == k,
            forall|j: int|
                0 <= j < k ==> {
                    &&& (#[trigger] votes@[j]).proposal_id == proposal_id
                    &&& votes@[j].voter == ballots@[j].voter
                    &&& votes@[j].vote == ballots@[j].vote
                    &&& votes@[j].weight == ballots@[j].weight
                },
        decreases n - k,
    {
        votes.push(
            crate::msg::VoteInfo {
                proposal_id,
                voter: clone_string(&ballots[k].voter),
                vote: ballots[k].vote,
                weight: ballots[k].weight,
            },
        );
        k = k + 1;
    }
    crate::msg::VoteListResponse { votes }
}

/// Query: list the administrators in table order.
pub fn query_admins(state: &State) -> (r: crate::msg::AdminListResponse)
    ensures
        r.admins@ == state.admins@,
{
    crate::msg::AdminListResponse { admins: crate::state::clone_principals(&state.admins) }
}

/// Query: list the operators in table order.
pub fn query_ops(state: &State) -> (r: crate::msg::OpListResponse)
    ensures
        r.ops@ == state.ops@,
{
    crate::msg::OpListResponse { ops: crate::state::clone_principals(&state.ops) }
}

/// Query: report the ledger's full standing — denomination, remaining
/// schedule, distribution addresses and the three withdrawal counters.
pub fn query_info(state: &State) -> (r: crate::msg::ShowInfoResponse)
    ensures
        r.denom == state.denom,
        r.vesting_timestamps@ == state.vesting_timestamps@,
        r.vesting_amounts@ == state.vesting_amounts@,
        r.unlock_distribution_address == state.unlock_distribution_address,
        r.staking_reward_address == state.staking_reward_address,
        r.withdrawn_staking_rewards == state.withdrawn_staking_rewards,
        r.withdrawn_unlocked == state.withdrawn_unlocked,
        r.withdrawn_locked == state.withdrawn_locked,
{
    crate::msg::ShowInfoResponse {
        denom: clone_string(&state.denom),
        vesting_timestamps: crate::types::copy_u64s(&state.vesting_timestamps),
        vesting_amounts: crate::types::copy_u128s(&state.vesting_amounts),
        unlock_distribution_address: clone_string(&state.unlock_distribution_address),
        staking_reward_address: clone_string(&state.staking_reward_address),
        withdrawn_staking_rewards: state.withdrawn_staking_rewards,
        withdrawn_unlocked: state.withdrawn_unlocked,
        withdrawn_locked: state.withdrawn_locked,
    }
}

/// Query: report the governance configuration.
pub fn query_config(state: &State) -> (r: crate::msg::ShowConfigResponse)
    ensures
        r.max_voting_period == state.max_voting_period,
        r.admin_voting_threshold_percentage == state.admin_voting_threshold_percentage,
{
    crate::msg::ShowConfigResponse {
        max_voting_period: state.max_voting_period,
        admin_voting_threshold_percentage: state.admin_voting_threshold_percentage,
    }
}

/// Query: report the matured total of the current schedule.
pub fn query_total_vested(state: &State, env: &Env) -> (r: crate::msg::ShowTotalVestedResponse)
    requires
        state.wf(),
        state.balanced(),
    ensures
        r.vested_amount == spec_total_vested(
            state.vesting_timestamps@,
            state.vesting_amounts@,
            env.block.time,
        ),
{
    crate::msg::ShowTotalVestedResponse {
        vested_amount: crate::vesting::total_vested_amount(state, env.block.time),
    }
}

/// Routes a read-only question to its answer. Queries never mutate and never
/// fail.
pub fn query(state: &State, env: &Env, msg: crate::msg::QueryMsg) -> (r: crate::msg::QueryResponse)
    requires
        state.wf(),
        state.balanced(),
    ensures
        match msg {
            crate::msg::QueryMsg::ListProposals {} => r matches crate::msg::QueryResponse::Proposals(
                p,
            ) && spec_proposal_list(*state, env.block, p),
            crate::msg::QueryMsg::ListVotes { proposal_id } => r matches crate::msg::QueryResponse::Votes(
                v,
            ) && spec_vote_list(*state, proposal_id, v),
            crate::msg::QueryMsg::ListAdmins {} => r matches crate::msg::QueryResponse::Admins(a)
                && a.admins@ == state.admins@,
            crate::msg::QueryMsg::ListOps {} => r matches crate::msg::QueryResponse::Ops(o)
                && o.ops@ == state.ops@,
            crate::msg::QueryMsg::Info {} => r matches crate::msg::QueryResponse::Info(i) && {
                &&& i.denom == state.denom
                &&& i.vesting_timestamps@ == state.vesting_timestamps@
                &&& i.vesting_amounts@ == state.vesting_amounts@
                &&& i.unlock_distribution_address == state.unlock_distribution_address
                &&& i.staking_reward_address == state.staking_reward_address
                &&& i.withdrawn_staking_rewards == state.withdrawn_staking_rewards
                &&& i.withdrawn_unlocked == state.withdrawn_unlocked
                &&& i.withdrawn_locked == state.withdrawn_locked
            },
            crate::msg::QueryMsg::Config {} => r matches crate::msg::QueryResponse::Config(c) && {
                &&& c.max_voting_period == state.max_voting_period
                &&& c.admin_voting_threshold_percentage == state.admin_voting_threshold_percentage
            },
            crate::msg::QueryMsg::TotalVested {} => r matches crate::msg::QueryResponse::TotalVested(
                t,
            ) && t.vested_amount == spec_total_vested(
                state.vesting_timestamps@,
                state.vesting_amounts@,
                env.block.time,
            ),
        },
{
    match msg {
        crate::msg::QueryMsg::ListProposals {} => crate::msg::QueryResponse::Proposals(
            query_proposals(state, env),
        ),
        crate::msg::QueryMsg::ListVotes { proposal_id } => crate::msg::QueryResponse::Votes(
            query_votes(state, proposal_id),
        ),
        crate::msg::QueryMsg::ListAdmins {} => crate::msg::QueryResponse::Admins(
            query_admins(state),
        ),
        crate::msg::QueryMsg::ListOps {} => crate::msg::QueryResponse::Ops(query_ops(state)),
        crate::msg::QueryMsg::Info {} => crate::msg::QueryResponse::Info(query_info(state)),
        crate::msg::QueryMsg::Config {} => crate::msg::QueryResponse::Config(query_config(state)),
        crate::msg::QueryMsg::TotalVested {} => crate::msg::QueryResponse::TotalVested(
            query_total_vested(state, env),
        ),
    }
}

/// Voting twice never counts twice: once an administrator's vote has landed,
/// a repeat of the very same vote command — with the proposal still stored
/// `Open` and not yet expired — fails with `AlreadyVoted`, changes nothing,
/// and the tally shows exactly one more affirmative vote than before the
/// first call.
pub proof fn lemma_vote_rejects_revote(
    s0: State,
    s1: State,
    s2: State,
    b1: BlockInfo,
    b2: BlockInfo,
    sender: Seq<char>,
    proposal_id: u64,
    r1: Result<Response, ContractError>,
    r2: Result<Response, ContractError>,
)
    requires
        spec_vote_outcome(s0, b1, sender, proposal_id, s1, r1),
        r1 is Ok,
        spec_vote_outcome(s1, b2, sender, proposal_id, s2, r2),
        s1.proposals@[proposal_id - 1].status == Status::Open,
        !spec_is_expired(s1.proposals@[proposal_id - 1].expires, b2),
        s0.proposals@[proposal_id - 1].votes.yes < u64::MAX,
    ensures
        r2 == Err::<Response, ContractError>(ContractError::AlreadyVoted {}),
        s2 == s1,
        s1.proposals@[proposal_id - 1].votes.yes == s0.proposals@[proposal_id - 1].votes.yes + 1,
{
    let q = s1.proposals@[proposal_id - 1];
    assert(q.ballots@[q.ballots@.len() - 1].voter@ == sender);
}

/// A proposal's action batch is dispatched at most once: a successful
/// `process` stores the terminal `Executed` status, every later derivation of
/// that proposal's status yields `Executed` again, and so any repeated
/// `process` call — by any administrator, at any block — fails and performs
/// no state change.
pub proof fn lemma_process_dispatches_once(
    s0: State,
    s1: State,
    s2: State,
    b1: BlockInfo,
    b2: BlockInfo,
    sender1: Seq<char>,
    sender2: Seq<char>,
    proposal_id: u64,
    r1: Result<Response, ContractError>,
    r2: Result<Response, ContractError>,
)
    requires
        spec_process_outcome(s0, b1, sender1, proposal_id, s1, r1),
        r1 is Ok,
        spec_process_outcome(s1, b2, sender2, proposal_id, s2, r2),
    ensures
        r2 is Err,
        s2 == s1,
{
    if contains_principal(s1.admins@, sender2) && 1 <= proposal_id <= s1.proposals@.len() {
        lemma_executed_is_terminal(s1.proposals@[proposal_id - 1], b2);
    }
}

} // verus!
