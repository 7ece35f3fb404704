use gringotts::contract::{instantiate, query};
use gringotts::data_structure::Tranche;
use gringotts::msg::{
    InstantiateMsg, ProposalResponse, QueryMsg, QueryResponse, ThresholdResponse, VoteInfo,
};
use gringotts::proposal::{Ballot, Proposal, Status, Vote, Votes};
use gringotts::state::State;
use gringotts::types::{BlockInfo, Coin, Duration, Env, Expiration, MessageInfo};

const OWNER: &str = "admin0001";
const VOTER1: &str = "voter0001";
const VOTER2: &str = "voter0002";
const VOTER3: &str = "voter0003";
const VOTER4: &str = "voter0004";
const VOTER5: &str = "voter0005";
const VOTER6: &str = "voter0006";

const UNLOCK_ADDR1: &str = "unlock0001";
const REWARD_ADDR1: &str = "reward0001";

const MOCK_TIME: u64 = 1_571_797_419_879_305_533;

fn second(n: u64) -> u64 {
    n * 1_000_000_000
}

fn mock_env() -> Env {
    Env {
        block: BlockInfo { height: 12345, time: MOCK_TIME },
        contract_address: "cosmos2contract".to_string(),
    }
}

fn mock_info(sender: &str, funds: &[Coin]) -> MessageInfo {
    MessageInfo { sender: sender.to_string(), funds: funds.to_vec() }
}

fn usei(amount: u128) -> Coin {
    Coin { denom: "usei".to_string(), amount }
}

fn setup_test_case(info: MessageInfo) -> State {
    let env = mock_env();
    let mut vesting_amounts = vec![12000000u128];
    let mut vesting_timestamps = vec![env.block.time + second(31536000)];
    for _ in 1..37 {
        vesting_amounts.push(1000000u128);
        vesting_timestamps.push(vesting_timestamps.last().unwrap() + second(2592000));
    }
    let instantiate_msg = InstantiateMsg {
        admins: vec![
            VOTER1.to_string(),
            VOTER2.to_string(),
            VOTER3.to_string(),
            VOTER4.to_string(),
        ],
        ops: vec![VOTER5.to_string(), VOTER6.to_string()],
        tranche: Tranche {
            denom: "usei".to_string(),
            vesting_amounts,
            vesting_timestamps,
            unlocked_token_distribution_address: UNLOCK_ADDR1.to_string(),
            staking_reward_distribution_address: REWARD_ADDR1.to_string(),
        },
        max_voting_period: Duration::Time(3600),
        admin_voting_threshold_percentage: 75,
        withdrawn_staking_rewards: None,
        withdrawn_unlocked: None,
        withdrawn_locked: None,
    };
    instantiate(mock_env(), info, instantiate_msg).unwrap()
}

#[test]
fn test_query_proposals() {
    let info = mock_info(OWNER, &[usei(48000000)]);
    let mut state = setup_test_case(info);
    state.proposals.push(Proposal {
        title: "title".to_string(),
        description: "description".to_string(),
        start_height: 1,
        expires: Expiration::Never,
        msgs: vec![],
        status: Status::Open,
        threshold_percentage: 75,
        total_weight: 4,
        votes: Votes { yes: 1, no: 0 },
        proposer: "proposer".to_string(),
        ballots: vec![Ballot { voter: "proposer".to_string(), weight: 1, vote: Vote::Yes }],
    });
    state.proposal_count = 1;
    let res = query(&state, &mock_env(), QueryMsg::ListProposals {});
    let res = match res {
        QueryResponse::Proposals(p) => p,
        _ => panic!("wrong response kind"),
    };
    assert_eq!(
        res.proposals,
        vec![ProposalResponse {
            id: 1,
            title: "title".to_string(),
            description: "description".to_string(),
            expires: Expiration::Never,
            msgs: vec![],
            status: Status::Open,
            threshold: ThresholdResponse { percentage: 75, total_weight: 4 },
            proposer: "proposer".to_string(),
        }]
    );
}

#[test]
fn test_query_votes() {
    let info = mock_info(OWNER, &[usei(48000000)]);
    let mut state = setup_test_case(info);
    state.proposals.push(Proposal {
        title: "first".to_string(),
        description: "".to_string(),
        start_height: 1,
        expires: Expiration::Never,
        msgs: vec![],
        status: Status::Open,
        threshold_percentage: 75,
        total_weight: 4,
        votes: Votes { yes: 1, no: 0 },
        proposer: "admin".to_string(),
        ballots: vec![Ballot { voter: "admin".to_string(), weight: 1, vote: Vote::Yes }],
    });
    state.proposals.push(Proposal {
        title: "second".to_string(),
        description: "".to_string(),
        start_height: 1,
        expires: Expiration::Never,
        msgs: vec![],
        status: Status::Open,
        threshold_percentage: 75,
        total_weight: 4,
        votes: Votes { yes: 0, no: 1 },
        proposer: "admin".to_string(),
        ballots: vec![Ballot { voter: "admin".to_string(), weight: 1, vote: Vote::No }],
    });
    state.proposal_count = 2;
    let res = query(&state, &mock_env(), QueryMsg::ListVotes { proposal_id: 1 });
    let res = match res {
        QueryResponse::Votes(v) => v,
        _ => panic!("wrong response kind"),
    };
    assert_eq!(
        res.votes,
        vec![VoteInfo {
            proposal_id: 1,
            voter: "admin".to_string(),
            vote: Vote::Yes,
            weight: 1,
        }]
    );
}

#[test]
fn test_query_admins() {
    let info = mock_info(OWNER, &[usei(48000000)]);
    let state = setup_test_case(info);
    let res = query(&state, &mock_env(), QueryMsg::ListAdmins {});
    let res = match res {
        QueryResponse::Admins(a) => a,
        _ => panic!("wrong response kind"),
    };
    assert_eq!(
        res.admins,
        vec![
            VOTER1.to_string(),
            VOTER2.to_string(),
            VOTER3.to_string(),
            VOTER4.to_string(),
        ]
    );
}

#[test]
fn test_query_ops() {
    let info = mock_info(OWNER, &[usei(48000000)]);
    let state = setup_test_case(info);
    let res = query(&state, &mock_env(), QueryMsg::ListOps {});
    let res = match res {
        QueryResponse::Ops(o) => o,
        _ => panic!("wrong response kind"),
    };
    assert_eq!(res.ops, vec![VOTER5.to_string(), VOTER6.to_string()]);
}

#[test]
fn test_query_info() {
    let info = mock_info(OWNER, &[usei(48000000)]);
    let state = setup_test_case(info);
    let res = query(&state, &mock_env(), QueryMsg::Info {});
    let res = match res {
        QueryResponse::Info(i) => i,
        _ => panic!("wrong response kind"),
    };
    assert_eq!(res.denom, "usei".to_string());
    assert_eq!(res.vesting_timestamps, state.vesting_timestamps);
    assert_eq!(res.vesting_amounts, state.vesting_amounts);
    assert_eq!(res.unlock_distribution_address, UNLOCK_ADDR1.to_string());
    assert_eq!(res.staking_reward_address, REWARD_ADDR1.to_string());
    assert_eq!(res.withdrawn_staking_rewards, 0);
    assert_eq!(res.withdrawn_unlocked, 0);
    assert_eq!(res.withdrawn_locked, 0);
}

#[test]
fn test_query_config() {
    let info = mock_info(OWNER, &[usei(48000000)]);
    let state = setup_test_case(info);
    let res = query(&state, &mock_env(), QueryMsg::Config {});
    let res = match res {
        QueryResponse::Config(c) => c,
        _ => panic!("wrong response kind"),
    };
    assert_eq!(res.max_voting_period, Duration::Time(3600));
    assert_eq!(res.admin_voting_threshold_percentage, 75);
}

#[test]
fn test_query_total_vested_amount() {
    let info = mock_info(OWNER, &[usei(48000000)]);
    let state = setup_test_case(info);
    let mut env = mock_env();
    env.block.time = *state.vesting_timestamps.first().unwrap();
    let res = query(&state, &env, QueryMsg::TotalVested {});
    let res = match res {
        QueryResponse::TotalVested(t) => t,
        _ => panic!("wrong response kind"),
    };
    assert_eq!(res.vested_amount, 12000000);
}
