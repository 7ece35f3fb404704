use gringotts::contract::{execute, instantiate};
use gringotts::data_structure::Tranche;
use gringotts::msg::{ExecuteMsg, InstantiateMsg};
use gringotts::proposal::{Proposal, Status, Votes};
use gringotts::state::State;
use gringotts::types::{
    Attribute, BlockInfo, Coin, Duration, Env, Expiration, MessageInfo, StakingSnapshot,
    ValidatorReward, VoteOption,
};
use gringotts::ContractError;

const OWNER: &str = "admin0001";
const VOTER1: &str = "voter0001";
const VOTER2: &str = "voter0002";
const VOTER3: &str = "voter0003";
const VOTER4: &str = "voter0004";
const VOTER5: &str = "voter0005";
const VOTER6: &str = "voter0006";

const UNLOCK_ADDR1: &str = "unlock0001";
const REWARD_ADDR1: &str = "reward0001";

const MOCK_TIME: u64 = 1_571_797_419_879_305_533;
const MOCK_CONTRACT_ADDR: &str = "cosmos2contract";

fn second(n: u64) -> u64 {
    n * 1_000_000_000
}

fn mock_env() -> Env {
    Env {
        block: BlockInfo { height: 12345, time: MOCK_TIME },
        contract_address: MOCK_CONTRACT_ADDR.to_string(),
    }
}

fn mock_info(sender: &str, funds: &[Coin]) -> MessageInfo {
    MessageInfo { sender: sender.to_string(), funds: funds.to_vec() }
}

fn no_staking() -> StakingSnapshot {
    StakingSnapshot { bank_balance: 0, staked: 0, unbonding: 0, validator_rewards: vec![] }
}

fn usei(amount: u128) -> Coin {
    Coin { denom: "usei".to_string(), amount }
}

fn attr(key: &str, value: &str) -> Attribute {
    Attribute { key: key.to_string(), value: value.to_string() }
}

fn setup_test_case(info: MessageInfo) -> Result<State, ContractError> {
    let env = mock_env();
    let mut vesting_amounts = vec![12000000u128];
    let mut vesting_timestamps = vec![env.block.time + second(31536000)];
    for _ in 1..37 {
        vesting_amounts.push(1000000u128);
        vesting_timestamps.push(vesting_timestamps.last().unwrap() + second(2592000));
    }
    let instantiate_msg = InstantiateMsg {
        admins: vec![
            VOTER1.to_string(),
            VOTER2.to_string(),
            VOTER3.to_string(),
            VOTER4.to_string(),
        ],
        ops: vec![VOTER5.to_string(), VOTER6.to_string()],
        tranche: Tranche {
            denom: "usei".to_string(),
            vesting_amounts,
            vesting_timestamps,
            unlocked_token_distribution_address: UNLOCK_ADDR1.to_string(),
            staking_reward_distribution_address: REWARD_ADDR1.to_string(),
        },
        max_voting_period: Duration::Time(3600),
        admin_voting_threshold_percentage: 75,
        withdrawn_staking_rewards: None,
        withdrawn_unlocked: None,
        withdrawn_locked: None,
    };
    instantiate(mock_env(), info, instantiate_msg)
}

#[test]
fn test_instantiate_works() {
    let info = mock_info(OWNER, &[]);

    // No admins fails
    let instantiate_msg = InstantiateMsg {
        admins: vec![],
        ops: vec![VOTER5.to_string()],
        tranche: Tranche {
            denom: "usei".to_string(),
            vesting_amounts: vec![1],
            vesting_timestamps: vec![mock_env().block.time],
            unlocked_token_distribution_address: UNLOCK_ADDR1.to_string(),
            staking_reward_distribution_address: REWARD_ADDR1.to_string(),
        },
        max_voting_period: Duration::Time(3600),
        admin_voting_threshold_percentage: 75,
        withdrawn_staking_rewards: None,
        withdrawn_unlocked: None,
        withdrawn_locked: None,
    };
    let err = instantiate(mock_env(), info.clone(), instantiate_msg).unwrap_err();
    assert_eq!(err, ContractError::NoAdmins {});

    // Zero ops fails
    let instantiate_msg = InstantiateMsg {
        admins: vec![VOTER1.to_string()],
        ops: vec![],
        tranche: Tranche {
            denom: "usei".to_string(),
            vesting_amounts: vec![1],
            vesting_timestamps: vec![mock_env().block.time],
            unlocked_token_distribution_address: UNLOCK_ADDR1.to_string(),
            staking_reward_distribution_address: REWARD_ADDR1.to_string(),
        },
        max_voting_period: Duration::Time(3600),
        admin_voting_threshold_percentage: 75,
        withdrawn_staking_rewards: None,
        withdrawn_unlocked: None,
        withdrawn_locked: None,
    };
    let err = instantiate(mock_env(), info.clone(), instantiate_msg).unwrap_err();
    assert_eq!(err, ContractError::NoOps {});

    // Invalid vesting schedule
    let instantiate_msg = InstantiateMsg {
        admins: vec![VOTER1.to_string()],
        ops: vec![VOTER5.to_string()],
        tranche: Tranche {
            denom: "usei".to_string(),
            vesting_amounts: vec![],
            vesting_timestamps: vec![mock_env().block.time],
            unlocked_token_distribution_address: UNLOCK_ADDR1.to_string(),
            staking_reward_distribution_address: REWARD_ADDR1.to_string(),
        },
        max_voting_period: Duration::Time(3600),
        admin_voting_threshold_percentage: 75,
        withdrawn_staking_rewards: None,
        withdrawn_unlocked: None,
        withdrawn_locked: None,
    };
    let err = instantiate(mock_env(), info.clone(), instantiate_msg).unwrap_err();
    assert_eq!(
        err,
        ContractError::InvalidTranche("mismatched vesting amounts and schedule".to_string()),
    );

    // insufficient funds
    let err = setup_test_case(info).unwrap_err();
    assert_eq!(
        err,
        ContractError::InvalidTranche("insufficient deposit for the vesting plan".to_string()),
    );

    // happy path
    let info = mock_info(OWNER, &[usei(48000000)]);
    let state = setup_test_case(info).unwrap();
    assert_eq!(state.total_amount, 48000000);
    assert_eq!(state.admins.len(), 4);
    assert_eq!(state.ops.len(), 2);
}

#[test]
fn instantiate_rejects_out_of_range_threshold() {
    let env = mock_env();
    let msg = InstantiateMsg {
        admins: vec![VOTER1.to_string()],
        ops: vec![VOTER5.to_string()],
        tranche: Tranche {
            denom: "usei".to_string(),
            vesting_amounts: vec![1],
            vesting_timestamps: vec![env.block.time + second(1)],
            unlocked_token_distribution_address: UNLOCK_ADDR1.to_string(),
            staking_reward_distribution_address: REWARD_ADDR1.to_string(),
        },
        max_voting_period: Duration::Time(3600),
        admin_voting_threshold_percentage: 101,
        withdrawn_staking_rewards: None,
        withdrawn_unlocked: None,
        withdrawn_locked: None,
    };
    let err = instantiate(env, mock_info(OWNER, &[usei(1)]), msg).unwrap_err();
    assert_eq!(err, ContractError::InvalidThreshold {});
}

#[test]
fn delegate_work() {
    let info = mock_info(VOTER5, &[usei(48000000)]);
    let mut state = setup_test_case(info.clone()).unwrap();

    let msg = ExecuteMsg::Delegate { validator: "val".to_string(), amount: 100 };
    let res = execute(&mut state, mock_env(), info, msg, &no_staking()).unwrap();
    assert_eq!(1, res.messages.len());
}

#[test]
fn delegate_unauthorized() {
    let info = mock_info(OWNER, &[usei(48000000)]);
    let mut state = setup_test_case(info.clone()).unwrap();

    let msg = ExecuteMsg::Delegate { validator: "val".to_string(), amount: 100 };
    execute(&mut state, mock_env(), info, msg, &no_staking()).unwrap_err();
}

#[test]
fn redelegate_work() {
    let info = mock_info(VOTER5, &[usei(48000000)]);
    let mut state = setup_test_case(info.clone()).unwrap();

    let msg = ExecuteMsg::Redelegate {
        src_validator: "val1".to_string(),
        dst_validator: "val2".to_string(),
        amount: 100,
    };
    let res = execute(&mut state, mock_env(), info, msg, &no_staking()).unwrap();
    assert_eq!(1, res.messages.len());
}

#[test]
fn redelegate_unauthorized() {
    let info = mock_info(OWNER, &[usei(48000000)]);
    let mut state = setup_test_case(info.clone()).unwrap();

    let msg = ExecuteMsg::Redelegate {
        src_validator: "val1".to_string(),
        dst_validator: "val2".to_string(),
        amount: 100,
    };
    execute(&mut state, mock_env(), info, msg, &no_staking()).unwrap_err();
}

#[test]
fn undelegate_work() {
    let info = mock_info(VOTER5, &[usei(48000000)]);
    let mut state = setup_test_case(info.clone()).unwrap();

    let msg = ExecuteMsg::Undelegate { validator: "val".to_string(), amount: 100 };
    let res = execute(&mut state, mock_env(), info, msg, &no_staking()).unwrap();
    assert_eq!(1, res.messages.len());
}

#[test]
fn undelegate_unauthorized() {
    let info = mock_info(OWNER, &[usei(48000000)]);
    let mut state = setup_test_case(info.clone()).unwrap();

    let msg = ExecuteMsg::Undelegate { validator: "val".to_string(), amount: 100 };
    execute(&mut state, mock_env(), info, msg, &no_staking()).unwrap_err();
}

#[test]
fn initiate_withdraw_unlocked_work() {
    let info = mock_info(VOTER5, &[usei(48000000)]);
    let mut state = setup_test_case(info.clone()).unwrap();

    let msg = ExecuteMsg::InitiateWithdrawUnlocked { amount: 12000000 };
    let mut env = mock_env();
    env.block.time += second(31536000);
    let res = execute(&mut state, env, info, msg, &no_staking()).unwrap();
    assert_eq!(1, res.messages.len());
    assert_eq!(12000000, state.withdrawn_unlocked);
}

#[test]
fn initiate_withdraw_unlocked_unauthorized() {
    let info = mock_info(OWNER, &[usei(48000000)]);
    let mut state = setup_test_case(info.clone()).unwrap();

    let msg = ExecuteMsg::InitiateWithdrawUnlocked { amount: 12000000 };
    let err = execute(&mut state, mock_env(), info, msg, &no_staking()).unwrap_err();
    assert_eq!(err, ContractError::Unauthorized {});
}

#[test]
fn initiate_withdraw_reward_work() {
    let info = mock_info(VOTER5, &[usei(48000000)]);
    let mut state = setup_test_case(info.clone()).unwrap();

    // principal: 48000000 - 1500000 (delegations) - 10 (unbonding).
    // Withdrawn rewards already in the bank: balance - principal in bank = 110
    let staking = StakingSnapshot {
        bank_balance: 48000000 - 1500000 + 100,
        staked: 1500000,
        unbonding: 10,
        validator_rewards: vec![
            ValidatorReward { validator: "val1".to_string(), amount: 30 },
            ValidatorReward { validator: "val2".to_string(), amount: 5 },
        ],
    };
    let msg = ExecuteMsg::InitiateWithdrawReward {};
    let res = execute(&mut state, mock_env(), info, msg, &staking).unwrap();
    assert_eq!(5, res.messages.len());
    assert_eq!(35 + 110, state.withdrawn_staking_rewards);
}

#[test]
fn initiate_withdraw_reward_unauthorized() {
    let info = mock_info(OWNER, &[usei(48000000)]);
    let mut state = setup_test_case(info.clone()).unwrap();

    let msg = ExecuteMsg::InitiateWithdrawReward {};
    execute(&mut state, mock_env(), info, msg, &no_staking()).unwrap_err();
}

#[test]
fn test_propose_update_admin_works() {
    let info = mock_info(OWNER, &[usei(48000000)]);
    let mut state = setup_test_case(info).unwrap();

    let info = mock_info(VOTER1, &[]);
    let new_admin = "new_admin1".to_string();
    let proposal = ExecuteMsg::ProposeUpdateAdmin { admin: new_admin.clone(), remove: false };
    let res = execute(&mut state, mock_env(), info, proposal, &no_staking()).unwrap();

    // Verify
    assert_eq!(res.messages.len(), 0);
    assert_eq!(
        res.attributes,
        vec![
            attr("action", "propose"),
            attr("sender", VOTER1),
            attr("proposal_id", "1"),
            attr("status", "Open"),
        ]
    );

    // Verify admin has updated after internal call
    let internal_update = ExecuteMsg::InternalUpdateAdmin { admin: new_admin.clone(), remove: false };
    let internal_info = mock_info(MOCK_CONTRACT_ADDR, &[]);
    execute(&mut state, mock_env(), internal_info, internal_update, &no_staking()).unwrap();
    assert!(state.admins.contains(&new_admin));
}

#[test]
fn test_propose_update_admin_unauthorized() {
    let info = mock_info(OWNER, &[usei(48000000)]);
    let mut state = setup_test_case(info).unwrap();

    let info = mock_info(OWNER, &[]);
    let proposal = ExecuteMsg::ProposeUpdateAdmin { admin: "new_admin1".to_string(), remove: false };
    let err = execute(&mut state, mock_env(), info, proposal, &no_staking()).unwrap_err();
    assert_eq!(err, ContractError::Unauthorized {});
}

#[test]
fn test_propose_update_unlocked_distribution_address_works() {
    let info = mock_info(OWNER, &[usei(48000000)]);
    let mut state = setup_test_case(info).unwrap();

    let info = mock_info(VOTER1, &[]);
    let new_addr = "new_unlock1".to_string();
    let proposal = ExecuteMsg::ProposeUpdateUnlockedDistributionAddress {
        unlocked_distribution_address: new_addr.clone(),
    };
    let res = execute(&mut state, mock_env(), info, proposal, &no_staking()).unwrap();

    // Verify
    assert_eq!(res.messages.len(), 0);
    assert_eq!(
        res.attributes,
        vec![
            attr("action", "propose"),
            attr("sender", VOTER1),
            attr("proposal_id", "1"),
            attr("status", "Open"),
        ]
    );

    // Verify address has updated after internal call
    let internal_update = ExecuteMsg::InternalUpdateUnlockedDistributionAddress {
        unlocked_distribution_address: new_addr.clone(),
    };
    let internal_info = mock_info(MOCK_CONTRACT_ADDR, &[]);
    execute(&mut state, mock_env(), internal_info, internal_update, &no_staking()).unwrap();
    assert_eq!(state.unlock_distribution_address, new_addr);
}

#[test]
fn test_propose_update_stakign_reward_distribution_address_works() {
    let info = mock_info(OWNER, &[usei(48000000)]);
    let mut state = setup_test_case(info).unwrap();

    let info = mock_info(VOTER1, &[]);
    let new_addr = "new_staking1".to_string();
    let proposal = ExecuteMsg::ProposeUpdateStakingRewardDistributionAddress {
        staking_reward_distribution_address: new_addr.clone(),
    };
    let res = execute(&mut state, mock_env(), info, proposal, &no_staking()).unwrap();

    // Verify
    assert_eq!(res.messages.len(), 0);
    assert_eq!(
        res.attributes,
        vec![
            attr("action", "propose"),
            attr("sender", VOTER1),
            attr("proposal_id", "1"),
            attr("status", "Open"),
        ]
    );

    // Verify address has updated after internal call
    let internal_update = ExecuteMsg::InternalUpdateStakingRewardDistributionAddress {
        staking_reward_distribution_address: new_addr.clone(),
    };
    let internal_info = mock_info(MOCK_CONTRACT_ADDR, &[]);
    execute(&mut state, mock_env(), internal_info, internal_update, &no_staking()).unwrap();
    assert_eq!(state.staking_reward_address, new_addr);
}

#[test]
fn test_propose_emergency_withdraw_works() {
    let info = mock_info(OWNER, &[usei(48000000)]);
    let mut state = setup_test_case(info).unwrap();

    let info = mock_info(VOTER1, &[]);
    let proposal = ExecuteMsg::ProposeEmergencyWithdraw { dst: "destination".to_string() };
    let res = execute(&mut state, mock_env(), info, proposal, &no_staking()).unwrap();

    // Verify
    assert_eq!(res.messages.len(), 0);
    assert_eq!(
        res.attributes,
        vec![
            attr("action", "propose"),
            attr("sender", VOTER1),
            attr("proposal_id", "1"),
            attr("status", "Open"),
        ]
    );
}

#[test]
fn test_propose_emergency_withdraw_unauthorized() {
    let info = mock_info(OWNER, &[usei(48000000)]);
    let mut state = setup_test_case(info).unwrap();

    let info = mock_info(OWNER, &[]);
    let proposal = ExecuteMsg::ProposeEmergencyWithdraw { dst: "destination".to_string() };
    let err = execute(&mut state, mock_env(), info, proposal, &no_staking()).unwrap_err();
    assert_eq!(err, ContractError::Unauthorized {});
}

#[test]
fn test_propose_gov_vote_works() {
    let info = mock_info(OWNER, &[usei(48000000)]);
    let mut state = setup_test_case(info).unwrap();

    let info = mock_info(VOTER1, &[]);
    let proposal = ExecuteMsg::ProposeGovVote { gov_proposal_id: 1, gov_vote: VoteOption::Yes };
    let res = execute(&mut state, mock_env(), info, proposal, &no_staking()).unwrap();

    // Verify
    assert_eq!(res.messages.len(), 0);
    assert_eq!(
        res.attributes,
        vec![
            attr("action", "propose"),
            attr("sender", VOTER1),
            attr("proposal_id", "1"),
            attr("status", "Open"),
        ]
    );
    assert_eq!(state.proposals[0].title, "voting Yes for 1");
}

#[test]
fn test_vote_works() {
    let info = mock_info(OWNER, &[usei(48000000)]);
    let mut state = setup_test_case(info).unwrap();

    let info = mock_info(VOTER1, &[]);
    let proposal = ExecuteMsg::ProposeUpdateAdmin { admin: "new_admin1".to_string(), remove: false };
    execute(&mut state, mock_env(), info, proposal, &no_staking()).unwrap();

    let info = mock_info(VOTER2, &[]);
    let vote2 = ExecuteMsg::VoteProposal { proposal_id: 1 };
    execute(&mut state, mock_env(), info, vote2, &no_staking()).unwrap();

    let info = mock_info(VOTER3, &[]);
    let vote3 = ExecuteMsg::VoteProposal { proposal_id: 1 };
    execute(&mut state, mock_env(), info, vote3, &no_staking()).unwrap();
}

#[test]
fn test_vote_expired() {
    let info = mock_info(OWNER, &[usei(48000000)]);
    let mut state = setup_test_case(info).unwrap();

    let info = mock_info(VOTER1, &[]);
    let proposal = ExecuteMsg::ProposeUpdateAdmin { admin: "new_admin1".to_string(), remove: false };
    execute(&mut state, mock_env(), info, proposal, &no_staking()).unwrap();

    let info = mock_info(VOTER2, &[]);
    let vote2 = ExecuteMsg::VoteProposal { proposal_id: 1 };
    execute(&mut state, mock_env(), info, vote2, &no_staking()).unwrap();

    let info = mock_info(VOTER3, &[]);
    let vote3 = ExecuteMsg::VoteProposal { proposal_id: 1 };
    let mut env = mock_env();
    env.block.time += second(3601);
    let err = execute(&mut state, env, info, vote3, &no_staking()).unwrap_err();
    assert_eq!(err, ContractError::Expired {});
}

#[test]
fn vote_twice_fails_with_already_voted() {
    let info = mock_info(OWNER, &[usei(48000000)]);
    let mut state = setup_test_case(info).unwrap();

    let info = mock_info(VOTER1, &[]);
    let proposal = ExecuteMsg::ProposeUpdateAdmin { admin: "new_admin1".to_string(), remove: false };
    execute(&mut state, mock_env(), info, proposal, &no_staking()).unwrap();

    let info = mock_info(VOTER2, &[]);
    let vote2 = ExecuteMsg::VoteProposal { proposal_id: 1 };
    execute(&mut state, mock_env(), info.clone(), vote2.clone(), &no_staking()).unwrap();
    assert_eq!(state.proposals[0].votes, Votes { yes: 2, no: 0 });

    let err = execute(&mut state, mock_env(), info, vote2, &no_staking()).unwrap_err();
    assert_eq!(err, ContractError::AlreadyVoted {});
    assert_eq!(state.proposals[0].votes, Votes { yes: 2, no: 0 });
}

#[test]
fn vote_on_unknown_proposal_fails() {
    let info = mock_info(OWNER, &[usei(48000000)]);
    let mut state = setup_test_case(info).unwrap();

    let info = mock_info(VOTER1, &[]);
    let vote = ExecuteMsg::VoteProposal { proposal_id: 7 };
    let err = execute(&mut state, mock_env(), info, vote, &no_staking()).unwrap_err();
    assert_eq!(err, ContractError::Std("proposal not found".to_string()));
}

#[test]
fn fourth_vote_after_pass_is_not_open() {
    let info = mock_info(OWNER, &[usei(48000000)]);
    let mut state = setup_test_case(info).unwrap();

    let info = mock_info(VOTER1, &[]);
    let proposal = ExecuteMsg::ProposeUpdateAdmin { admin: "new_admin1".to_string(), remove: false };
    execute(&mut state, mock_env(), info, proposal, &no_staking()).unwrap();

    let info = mock_info(VOTER2, &[]);
    execute(&mut state, mock_env(), info, ExecuteMsg::VoteProposal { proposal_id: 1 }, &no_staking())
        .unwrap();

    // the third affirmative vote reaches 3 of 4 == exactly the 75% threshold
    let info = mock_info(VOTER3, &[]);
    let res = execute(
        &mut state,
        mock_env(),
        info,
        ExecuteMsg::VoteProposal { proposal_id: 1 },
        &no_staking(),
    )
    .unwrap();
    assert_eq!(res.attributes[3], attr("status", "Passed"));
    assert_eq!(state.proposals[0].status, Status::Passed);

    let info = mock_info(VOTER4, &[]);
    let err = execute(
        &mut state,
        mock_env(),
        info,
        ExecuteMsg::VoteProposal { proposal_id: 1 },
        &no_staking(),
    )
    .unwrap_err();
    assert_eq!(err, ContractError::NotOpen {});
}

#[test]
fn test_process_update_admin_works() {
    let info = mock_info(OWNER, &[usei(48000000)]);
    let mut state = setup_test_case(info).unwrap();

    let info = mock_info(VOTER1, &[]);
    let proposal = ExecuteMsg::ProposeUpdateAdmin { admin: "new_admin1".to_string(), remove: false };
    execute(&mut state, mock_env(), info, proposal, &no_staking()).unwrap();

    let info = mock_info(VOTER2, &[]);
    execute(&mut state, mock_env(), info, ExecuteMsg::VoteProposal { proposal_id: 1 }, &no_staking())
        .unwrap();

    let info = mock_info(VOTER3, &[]);
    execute(&mut state, mock_env(), info, ExecuteMsg::VoteProposal { proposal_id: 1 }, &no_staking())
        .unwrap();

    let info = mock_info(VOTER3, &[]);
    let process = ExecuteMsg::ProcessProposal { proposal_id: 1 };
    let res = execute(&mut state, mock_env(), info, process, &no_staking()).unwrap();

    assert_eq!(1, res.messages.len());
}

#[test]
fn test_process_proposal_premature() {
    let info = mock_info(OWNER, &[usei(48000000)]);
    let mut state = setup_test_case(info).unwrap();

    let info = mock_info(VOTER1, &[]);
    let proposal = ExecuteMsg::ProposeUpdateAdmin { admin: "new_admin1".to_string(), remove: false };
    execute(&mut state, mock_env(), info, proposal, &no_staking()).unwrap();

    let info = mock_info(VOTER2, &[]);
    execute(&mut state, mock_env(), info, ExecuteMsg::VoteProposal { proposal_id: 1 }, &no_staking())
        .unwrap();

    let info = mock_info(VOTER3, &[]);
    let process = ExecuteMsg::ProcessProposal { proposal_id: 1 };
    let err = execute(&mut state, mock_env(), info, process, &no_staking()).unwrap_err();

    assert_eq!(err, ContractError::WrongExecuteStatus {});
}

#[test]
fn test_process_update_admin_double_process() {
    let info = mock_info(OWNER, &[usei(48000000)]);
    let mut state = setup_test_case(info).unwrap();

    let info = mock_info(VOTER1, &[]);
    let proposal = ExecuteMsg::ProposeUpdateAdmin { admin: "new_admin1".to_string(), remove: false };
    execute(&mut state, mock_env(), info, proposal, &no_staking()).unwrap();

    let info = mock_info(VOTER2, &[]);
    execute(&mut state, mock_env(), info, ExecuteMsg::VoteProposal { proposal_id: 1 }, &no_staking())
        .unwrap();

    let info = mock_info(VOTER3, &[]);
    execute(&mut state, mock_env(), info, ExecuteMsg::VoteProposal { proposal_id: 1 }, &no_staking())
        .unwrap();

    let info = mock_info(VOTER3, &[]);
    let process = ExecuteMsg::ProcessProposal { proposal_id: 1 };
    execute(&mut state, mock_env(), info, process.clone(), &no_staking()).unwrap();
    let info = mock_info(VOTER3, &[]);
    let err = execute(&mut state, mock_env(), info, process, &no_staking()).unwrap_err();

    assert_eq!(err, ContractError::WrongExecuteStatus {});
}

#[test]
fn test_process_gov_vote_works() {
    let info = mock_info(OWNER, &[usei(48000000)]);
    let mut state = setup_test_case(info).unwrap();

    let info = mock_info(VOTER1, &[]);
    let proposal = ExecuteMsg::ProposeGovVote { gov_proposal_id: 1, gov_vote: VoteOption::Yes };
    execute(&mut state, mock_env(), info, proposal, &no_staking()).unwrap();

    let info = mock_info(VOTER2, &[]);
    execute(&mut state, mock_env(), info, ExecuteMsg::VoteProposal { proposal_id: 1 }, &no_staking())
        .unwrap();

    let info = mock_info(VOTER3, &[]);
    execute(&mut state, mock_env(), info, ExecuteMsg::VoteProposal { proposal_id: 1 }, &no_staking())
        .unwrap();

    let info = mock_info(VOTER3, &[]);
    let process = ExecuteMsg::ProcessProposal { proposal_id: 1 };
    let res = execute(&mut state, mock_env(), info, process, &no_staking()).unwrap();

    assert_eq!(1, res.messages.len());
}

#[test]
fn test_execute_internal_update_admin_works() {
    let info = mock_info(OWNER, &[usei(48000000)]);
    let mut state = setup_test_case(info).unwrap();

    let info = mock_info(MOCK_CONTRACT_ADDR, &[]);
    let msg = ExecuteMsg::InternalUpdateAdmin { admin: "new_admin1".to_string(), remove: false };
    execute(&mut state, mock_env(), info, msg, &no_staking()).unwrap();
    assert!(state.admins.contains(&"new_admin1".to_string()));
    assert_eq!(5, state.admins.len());
}

#[test]
fn test_execute_internal_update_admin_remove_works() {
    let info = mock_info(OWNER, &[usei(48000000)]);
    let mut state = setup_test_case(info).unwrap();

    let info = mock_info(MOCK_CONTRACT_ADDR, &[]);
    let msg = ExecuteMsg::InternalUpdateAdmin { admin: VOTER1.to_string(), remove: true };
    execute(&mut state, mock_env(), info, msg, &no_staking()).unwrap();
    assert!(!state.admins.contains(&VOTER1.to_string()));
    assert_eq!(3, state.admins.len());
}

#[test]
fn test_execute_internal_update_admin_unauthorized() {
    let info = mock_info(OWNER, &[usei(48000000)]);
    let mut state = setup_test_case(info).unwrap();

    let info = mock_info(VOTER1, &[]);
    let msg = ExecuteMsg::InternalUpdateAdmin { admin: "new_admin1".to_string(), remove: false };
    let err = execute(&mut state, mock_env(), info, msg, &no_staking()).unwrap_err();
    assert_eq!(err, ContractError::Unauthorized {});
    assert!(!state.admins.contains(&"new_admin1".to_string()));
    assert_eq!(4, state.admins.len());
}

#[test]
fn test_execute_update_op_works() {
    let info = mock_info(OWNER, &[usei(48000000)]);
    let mut state = setup_test_case(info).unwrap();

    let info = mock_info(VOTER1, &[]);
    let msg = ExecuteMsg::UpdateOp { op: "new_op1".to_string(), remove: false };
    execute(&mut state, mock_env(), info, msg, &no_staking()).unwrap();
    assert!(state.ops.contains(&"new_op1".to_string()));
    assert_eq!(3, state.ops.len());
}

#[test]
fn test_execute_update_op_remove_works() {
    let info = mock_info(OWNER, &[usei(48000000)]);
    let mut state = setup_test_case(info).unwrap();

    let info = mock_info(VOTER1, &[]);
    let msg = ExecuteMsg::UpdateOp { op: VOTER5.to_string(), remove: true };
    execute(&mut state, mock_env(), info, msg, &no_staking()).unwrap();
    assert!(!state.ops.contains(&VOTER5.to_string()));
    assert_eq!(1, state.ops.len());
}

#[test]
fn test_execute_update_op_unauthorized() {
    let info = mock_info(OWNER, &[usei(48000000)]);
    let mut state = setup_test_case(info).unwrap();

    let info = mock_info(VOTER5, &[]);
    let msg = ExecuteMsg::UpdateOp { op: "new_op1".to_string(), remove: false };
    let err = execute(&mut state, mock_env(), info, msg, &no_staking()).unwrap_err();
    assert_eq!(err, ContractError::Unauthorized {});
    assert!(!state.ops.contains(&"new_op1".to_string()));
    assert_eq!(2, state.ops.len());
}

#[test]
fn test_execute_internal_withdraw_locked_works() {
    let info = mock_info(OWNER, &[usei(48000000)]);
    let mut state = setup_test_case(info).unwrap();

    let info = mock_info(MOCK_CONTRACT_ADDR, &[]);
    let proposal = ExecuteMsg::InternalWithdrawLocked { dst: "destination".to_string() };
    let res = execute(&mut state, mock_env(), info, proposal, &no_staking()).unwrap();
    assert_eq!(1, res.messages.len());
    assert_eq!(Vec::<u128>::new(), state.vesting_amounts);
    assert_eq!(Vec::<u64>::new(), state.vesting_timestamps);
    assert_eq!(48000000, state.withdrawn_locked);
}

#[test]
fn test_execute_internal_withdraw_locked_unauthorized() {
    let info = mock_info(OWNER, &[usei(48000000)]);
    let mut state = setup_test_case(info).unwrap();

    let info = mock_info(VOTER1, &[]);
    let proposal = ExecuteMsg::InternalWithdrawLocked { dst: "destination".to_string() };
    let err = execute(&mut state, mock_env(), info, proposal, &no_staking()).unwrap_err();
    assert_eq!(ContractError::Unauthorized {}, err);
    assert_eq!(37, state.vesting_amounts.len());
    assert_eq!(37, state.vesting_timestamps.len());
    assert_eq!(0, state.withdrawn_locked);
}

#[test]
fn passes_exactly_at_threshold_boundary() {
    let prop = Proposal {
        title: "title".to_string(),
        description: "".to_string(),
        start_height: 1,
        expires: Expiration::Never,
        msgs: vec![],
        status: Status::Open,
        threshold_percentage: 75,
        total_weight: 4,
        votes: Votes { yes: 3, no: 0 },
        proposer: "proposer".to_string(),
        ballots: vec![],
    };
    // 3 of 4 is exactly 75%: the exact rational comparison must pass
    assert!(prop.is_passed());
    let below = Proposal { votes: Votes { yes: 2, no: 0 }, ..prop };
    assert!(!below.is_passed());
}
