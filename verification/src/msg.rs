use vstd::prelude::*;

use crate::data_structure::Tranche;
use crate::proposal::{Status, Vote};
use crate::types::{clone_string, Action, Duration, Expiration};

verus! {

/// An exact copy of one command; self-call payloads carried inside proposals
/// are reported by queries as such copies.
pub fn clone_execute_msg(m: &ExecuteMsg) -> (r: ExecuteMsg)
    ensures
        r == *m,
{
    match m {
        ExecuteMsg::Delegate { validator, amount } => ExecuteMsg::Delegate {
            validator: clone_string(validator),
            amount: *amount,
        },
        ExecuteMsg::Redelegate { src_validator, dst_validator, amount } => ExecuteMsg::Redelegate {
            src_validator: clone_string(src_validator),
            dst_validator: clone_string(dst_validator),
            amount: *amount,
        },
        ExecuteMsg::Undelegate { validator, amount } => ExecuteMsg::Undelegate {
            validator: clone_string(validator),
            amount: *amount,
        },
        ExecuteMsg::InitiateWithdrawUnlocked { amount } => ExecuteMsg::InitiateWithdrawUnlocked {
            amount: *amount,
        },
        ExecuteMsg::InitiateWithdrawReward {} => ExecuteMsg::InitiateWithdrawReward {},
        ExecuteMsg::UpdateOp { op, remove } => ExecuteMsg::UpdateOp {
            op: clone_string(op),
            remove: *remove,
        },
        ExecuteMsg::ProposeEmergencyWithdraw { dst } => ExecuteMsg::ProposeEmergencyWithdraw {
            dst: clone_string(dst),
        },
        ExecuteMsg::ProposeUpdateAdmin { admin, remove } => ExecuteMsg::ProposeUpdateAdmin {
            admin: clone_string(admin),
            remove: *remove,
        },
        ExecuteMsg::ProposeUpdateUnlockedDistributionAddress { unlocked_distribution_address } => {
            ExecuteMsg::ProposeUpdateUnlockedDistributionAddress {
                unlocked_distribution_address: clone_string(unlocked_distribution_address),
            }
        },
        ExecuteMsg::ProposeUpdateStakingRewardDistributionAddress {
            staking_reward_distribution_address,
        } => ExecuteMsg::ProposeUpdateStakingRewardDistributionAddress {
            staking_reward_distribution_address: clone_string(
                staking_reward_distribution_address,
            ),
        },
        ExecuteMsg::ProposeGovVote { gov_proposal_id, gov_vote } => ExecuteMsg::ProposeGovVote {
            gov_proposal_id: *gov_proposal_id,
            gov_vote: *gov_vote,
        },
        ExecuteMsg::VoteProposal { proposal_id } => ExecuteMsg::VoteProposal {
            proposal_id: *proposal_id,
        },
        ExecuteMsg::ProcessProposal { proposal_id } => ExecuteMsg::ProcessProposal {
            proposal_id: *proposal_id,
        },
        ExecuteMsg::InternalUpdateAdmin { admin, remove } => ExecuteMsg::InternalUpdateAdmin {
            admin: clone_string(admin),
            remove: *remove,
        },
        ExecuteMsg::InternalUpdateUnlockedDistributionAddress { unlocked_distribution_address } => {
            ExecuteMsg::InternalUpdateUnlockedDistributionAddress {
                unlocked_distribution_address: clone_string(unlocked_distribution_address),
            }
        },
        ExecuteMsg::InternalUpdateStakingRewardDistributionAddress {
            staking_reward_distribution_address,
        } => ExecuteMsg::InternalUpdateStakingRewardDistributionAddress {
            staking_reward_distribution_address: clone_string(
                staking_reward_distribution_address,
            ),
        },
        ExecuteMsg::InternalWithdrawLocked { dst } => ExecuteMsg::InternalWithdrawLocked {
            dst: clone_string(dst),
        },
    }
}

/// Migration carries no payload.
#[derive(Clone, Debug, PartialEq, Eq)]
pub struct MigrateMsg {}

/// Everything the contract needs at initialization. The optional counter
/// fields are accepted for schema compatibility; initialization always starts
/// every withdrawal counter at zero.
#[derive(Clone, Debug, PartialEq, Eq)]
pub struct InstantiateMsg {
    pub admins: Vec<String>,
    pub ops: Vec<String>,
    pub tranche: Tranche,
    pub max_voting_period: Duration,
    pub admin_voting_threshold_percentage: u8,
    pub withdrawn_staking_rewards: Option<u128>,
    pub withdrawn_unlocked: Option<u128>,
    pub withdrawn_locked: Option<u128>,
}

/// Every command the contract accepts. The `Internal*` commands are reachable
/// only through a self-call dispatched by a passed proposal.
#[derive(Clone, Debug, PartialEq, Eq)]
pub enum ExecuteMsg {
    Delegate { validator: String, amount: u128 },
    Redelegate { src_validator: String, dst_validator: String, amount: u128 },
    Undelegate { validator: String, amount: u128 },
    InitiateWithdrawUnlocked { amount: u128 },
    InitiateWithdrawReward {},
    UpdateOp { op: String, remove: bool },
    ProposeEmergencyWithdraw { dst: String },
    ProposeUpdateAdmin { admin: String, remove: bool },
    ProposeUpdateUnlockedDistributionAddress { unlocked_distribution_address: String },
    ProposeUpdateStakingRewardDistributionAddress { staking_reward_distribution_address: String },
    ProposeGovVote { gov_proposal_id: u64, gov_vote: crate::types::VoteOption },
    VoteProposal { proposal_id: u64 },
    ProcessProposal { proposal_id: u64 },
    InternalUpdateAdmin { admin: String, remove: bool },
    InternalUpdateUnlockedDistributionAddress { unlocked_distribution_address: String },
    InternalUpdateStakingRewardDistributionAddress { staking_reward_distribution_address: String },
    InternalWithdrawLocked { dst: String },
}

/// Every read-only question the contract answers.
#[derive(Clone, Debug, PartialEq, Eq)]
pub enum QueryMsg {
    ListProposals {},
    ListVotes { proposal_id: u64 },
    ListAdmins {},
    ListOps {},
    Info {},
    Config {},
    TotalVested {},
}

#[derive(Clone, Debug, PartialEq, Eq)]
pub struct AdminListResponse {
    pub admins: Vec<String>,
}

#[derive(Clone, Debug, PartialEq, Eq)]
pub struct OpListResponse {
    pub ops: Vec<String>,
}

#[derive(Clone, Debug, PartialEq, Eq)]
pub struct ShowInfoResponse {
    pub denom: String,
    pub vesting_timestamps: Vec<u64>,
    pub vesting_amounts: Vec<u128>,
    pub unlock_distribution_address: String,
    pub staking_reward_address: String,
    pub withdrawn_staking_rewards: u128,
    pub withdrawn_unlocked: u128,
    pub withdrawn_locked: u128,
}

#[derive(Clone, Debug, PartialEq, Eq)]
pub struct ShowConfigResponse {
    pub max_voting_period: Duration,
    pub admin_voting_threshold_percentage: u64,
}

#[derive(Clone, Debug, PartialEq, Eq)]
pub struct ShowTotalVestedResponse {
    pub vested_amount: u128,
}

/// The passing rule of one proposal, as reported by queries: the snapshotted
/// percentage against the snapshotted total weight.
#[derive(Clone, Copy, Debug, PartialEq, Eq, Structural)]
pub struct ThresholdResponse {
    pub percentage: u64,
    pub total_weight: u64,
}

/// One proposal as reported by `ListProposals`, with its status freshly
/// recomputed for the queried block.
#[derive(Clone, Debug, PartialEq, Eq)]
pub struct ProposalResponse {
    pub id: u64,
    pub title: String,
    pub description: String,
    pub msgs: Vec<Action>,
    pub status: Status,
    pub expires: Expiration,
    pub proposer: String,
    pub threshold: ThresholdResponse,
}

#[derive(Clone, Debug, PartialEq, Eq)]
pub struct ProposalListResponse {
    pub proposals: Vec<ProposalResponse>,
}

/// One cast ballot as reported by `ListVotes`.
#[derive(Clone, Debug, PartialEq, Eq)]
pub struct VoteInfo {
    pub proposal_id: u64,
    pub voter: String,
    pub vote: Vote,
    pub weight: u64,
}

#[derive(Clone, Debug, PartialEq, Eq)]
pub struct VoteListResponse {
    pub votes: Vec<VoteInfo>,
}

/// The one answer a query returns, tagged by the question asked.
#[derive(Clone, Debug, PartialEq, Eq)]
pub enum QueryResponse {
    Proposals(ProposalListResponse),
    Votes(VoteListResponse),
    Admins(AdminListResponse),
    Ops(OpListResponse),
    Info(ShowInfoResponse),
    Config(ShowConfigResponse),
    TotalVested(ShowTotalVestedResponse),
}

/// Marker for the host's extended staking query route.
#[derive(Clone, Debug, PartialEq, Eq)]
pub struct SeiQueryWrapper {
    pub route: SeiRoute,
    pub query_data: SeiQuery,
}

#[derive(Clone, Copy, Debug, PartialEq, Eq, Structural)]
pub enum SeiRoute {
    Stakingext,
}

#[derive(Clone, Debug, PartialEq, Eq)]
pub enum SeiQuery {
    UnbondingDelegations { delegator: String },
}

/// One in-flight unbonding entry, as the host's extended staking query
/// reports it.
#[derive(Clone, Debug, PartialEq, Eq)]
pub struct UnbondingDelegationEntry {
    pub creation_height: i64,
    pub completion_time: String,
    pub initial_balance: u128,
    pub balance: u128,
}

#[derive(Clone, Debug, PartialEq, Eq)]
pub struct UnbondingDelegationsResponse {
    pub entries: Vec<UnbondingDelegationEntry>,
}

} // verus!
