use vstd::prelude::*;

use crate::proposal::Proposal;
use crate::types::Duration;
use crate::vesting::{schedule_positive, schedule_sorted, sum_amounts};

verus! {

/// Whether a principal occurs in a role table.
pub open spec fn contains_principal(ps: Seq<String>, who: Seq<char>) -> bool {
    exists|i: int| 0 <= i < ps.len() && ps[i]@ == who
}

/// No principal occurs twice.
pub open spec fn principals_unique(ps: Seq<String>) -> bool {
    forall|i: int, j: int| 0 <= i < j < ps.len() ==> ps[i]@ != ps[j]@
}

/// The whole persistent state of the contract, handed explicitly into every
/// operation: the vesting ledger, the two role tables, the governance
/// configuration, and the proposals with their ballots. Proposal ids are
/// allocated from 1 upward; the proposal with id `n` sits at index `n - 1`.
#[derive(Clone, Debug, PartialEq, Eq)]
pub struct State {
    pub denom: String,
    pub vesting_timestamps: Vec<u64>,
    pub vesting_amounts: Vec<u128>,
    pub unlock_distribution_address: String,
    pub staking_reward_address: String,
    pub total_amount: u128,
    pub withdrawn_staking_rewards: u128,
    pub withdrawn_unlocked: u128,
    pub withdrawn_locked: u128,
    pub admins: Vec<String>,
    pub ops: Vec<String>,
    pub max_voting_period: Duration,
    pub admin_voting_threshold_percentage: u64,
    pub proposal_count: u64,
    pub proposals: Vec<Proposal>,
}

impl State {
    /// Structural consistency: a well-formed schedule, duplicate-free role
    /// tables, an in-range threshold, a proposal counter that matches the
    /// proposals stored, and internally consistent proposals.
    pub open spec fn wf(self) -> bool {
        &&& self.vesting_timestamps@.len() == self.vesting_amounts@.len()
        &&& schedule_sorted(self.vesting_timestamps@)
        &&& schedule_positive(self.vesting_amounts@)
        &&& principals_unique(self.admins@)
        &&& principals_unique(self.ops@)
        &&& self.admin_voting_threshold_percentage <= 100
        &&& self.proposal_count == self.proposals@.len()
        &&& (forall|i: int| 0 <= i < self.proposals@.len() ==> self.proposals@[i].wf())
    }

    /// Conservation of principal: what still sits in the schedule plus what the
    /// two principal-withdrawal counters have paid out is exactly the total
    /// that was locked up at initialization.
    pub open spec fn balanced(self) -> bool {
        sum_amounts(self.vesting_amounts@) + self.withdrawn_unlocked + self.withdrawn_locked
            == self.total_amount
    }
}

/// Membership test against one role table.
pub fn is_member(ps: &Vec<String>, who: &String) -> (r: bool)
    ensures
        r == contains_principal(ps@, who@),
{
    let n = ps.len();
    let mut i: usize = 0;
    while i < n
        invariant
            0 <= i <= n,
            n == ps@.len(),
            forall|j: int| 0 <= j < i ==> ps@[j]@ != who@,
        decreases n - i,
    {
        if ps[i] == *who {
            return true;
        }
        i = i + 1;
    }
    false
}

/// Adds a principal to a role table; adding a present member changes nothing,
/// so the table stays duplicate-free.
pub fn add_principal(ps: &mut Vec<String>, who: String)
    requires
        principals_unique(old(ps)@),
    ensures
        principals_unique(final(ps)@),
        contains_principal(final(ps)@, who@),
        contains_principal(old(ps)@, who@) ==> final(ps)@ == old(ps)@,
        !contains_principal(old(ps)@, who@) ==> final(ps)@ == old(ps)@.push(who),
{
    if !is_member(ps, &who) {
        ps.push(who);
        proof {
            assert(ps@[ps@.len() - 1]@ == who@);
        }
    }
}

/// Removes a principal from a role table; removing an absent one changes
/// nothing.
pub fn remove_principal(ps: &mut Vec<String>, who: &String)
    requires
        principals_unique(old(ps)@),
    ensures
        principals_unique(final(ps)@),
        !contains_principal(final(ps)@, who@),
        !contains_principal(old(ps)@, who@) ==> final(ps)@ == old(ps)@,
        contains_principal(old(ps)@, who@) ==> exists|i: int|
            0 <= i < old(ps)@.len() && old(ps)@[i]@ == who@ && final(ps)@ == old(ps)@.remove(i),
{
    let n = ps.len();
    let mut i: usize = 0;
    while i < n
        invariant
            0 <= i <= n,
            n == ps@.len(),
            ps@ == old(ps)@,
            principals_unique(ps@),
            forall|j: int| 0 <= j < i ==> ps@[j]@ != who@,
        decreases n - i,
    {
        if ps[i] == *who {
            ps.remove(i);
            return ;
        }
        i = i + 1;
    }
}

/// Copies a role table for a query response.
pub fn clone_principals(ps: &Vec<String>) -> (r: Vec<String>)
    ensures
        r@ == ps@,
{
    let n = ps.len();
    let mut out: Vec<String> = Vec::new();
    let mut i: usize = 0;
    while i < n
        invariant
            0 <= i <= n,
            out@ == ps@.take(i as int),
        decreases n - i,
    {
        out.push(crate::types::clone_string(&ps[i]));
        proof {
            assert(out@ =~= ps@.take(i + 1 as int));
        }
        i = i + 1;
    }
    proof {
        assert(ps@.take(n as int) =~= ps@);
    }
    out
}

/// How many administrators the contract currently has; this is the total
/// voting weight snapshotted into new proposals.
pub fn get_number_of_admins(state: &State) -> (r: usize)
    ensures
        r == state.admins@.len(),
{
    state.admins.len()
}

/// How many operators the contract currently has.
pub fn get_number_of_ops(state: &State) -> (r: usize)
    ensures
        r == state.ops@.len(),
{
    state.ops.len()
}

/// Allocates the next proposal id: ids start at 1, strictly increase, and are
/// never reused.
pub fn next_proposal_id(state: &mut State) -> (id: u64)
    requires
        old(state).proposal_count < u64::MAX,
    ensures
        id == old(state).proposal_count + 1,
        *final(state) == (State { proposal_count: id, ..*old(state) }),
{
    let id = state.proposal_count + 1;
    state.proposal_count = id;
    id
}

} // verus!
