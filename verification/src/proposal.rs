use vstd::prelude::*;

use crate::types::{spec_is_expired, Action, BlockInfo, Expiration};

verus! {

/// The lifecycle of a proposal: `Open` until it passes or expires, `Passed`
/// once enough affirmative weight is in, `Rejected` on expiry without passing
/// (or on a blocking negative tally), and `Executed` once its action batch has
/// been dispatched. `Executed` is terminal.
#[derive(Clone, Copy, Debug, PartialEq, Eq, Structural)]
pub enum Status {
    Open,
    Rejected,
    Passed,
    Executed,
}

/// A ballot's value. The admin voting flow only ever casts `Yes`, but the
/// tally carries both directions.
#[derive(Clone, Copy, Debug, PartialEq, Eq, Structural)]
pub enum Vote {
    Yes,
    No,
}

/// Running weight totals of the ballots cast so far.
#[derive(Clone, Copy, Debug, PartialEq, Eq, Structural)]
pub struct Votes {
    pub yes: u64,
    pub no: u64,
}

impl Votes {
    /// A fresh tally opened with one affirmative vote of the given weight.
    pub fn yes(init_weight: u64) -> (r: Votes)
        ensures
            r == (Votes { yes: init_weight, no: 0u64 }),
    {
        Votes { yes: init_weight, no: 0 }
    }

    pub fn add_vote(&mut self, vote: Vote, weight: u64)
        requires
            vote is Yes ==> old(self).yes + weight <= u64::MAX,
            vote is No ==> old(self).no + weight <= u64::MAX,
        ensures
            *final(self) == match vote {
                Vote::Yes => (Votes { yes: (old(self).yes + weight) as u64, ..*old(self) }),
                Vote::No => (Votes { no: (old(self).no + weight) as u64, ..*old(self) }),
            },
    {
        match vote {
            Vote::Yes => self.yes = self.yes + weight,
            Vote::No => self.no = self.no + weight,
        }
    }
}

/// One cast ballot, immutable once stored; at most one per voter and proposal.
#[derive(Clone, Debug, PartialEq, Eq)]
pub struct Ballot {
    pub voter: String,
    pub weight: u64,
    pub vote: Vote,
}

/// A proposal together with its ballots. The threshold percentage and the
/// total voting weight are snapshotted at creation and never change, so votes
/// in flight are immune to later configuration changes.
#[derive(Clone, Debug, PartialEq, Eq)]
pub struct Proposal {
    pub title: String,
    pub description: String,
    pub start_height: u64,
    pub expires: Expiration,
    pub msgs: Vec<Action>,
    pub status: Status,
    pub threshold_percentage: u64,
    pub total_weight: u64,
    pub votes: Votes,
    pub proposer: String,
    pub ballots: Vec<Ballot>,
}

/// The affirmative weight carries the vote exactly when
/// `yes * 100 >= percentage * total_weight`: an exact rational comparison by
/// integer cross-multiplication, with no rounding.
pub open spec fn spec_passes(yes: u64, percentage: u64, total_weight: u64) -> bool {
    yes * 100 >= percentage * total_weight
}

/// The negative weight alone blocks the vote once it strictly exceeds the
/// largest affirmative share the remaining voters could still reach:
/// `no > ceil(total_weight * (100 - percentage) / 100)`.
pub open spec fn spec_rejects(no: u64, percentage: u64, total_weight: u64) -> bool
    recommends
        percentage <= 100,
{
    no > ((100 - percentage) * total_weight + 99) / 100
}

/// Status is derived, never trusted from storage: an `Open` proposal counts as
/// `Passed` as soon as the tally passes, else as `Rejected` once it is blocked
/// or expired; any other stored status stands as-is.
pub open spec fn spec_current_status(p: Proposal, b: BlockInfo) -> Status {
    if p.status == Status::Open && spec_passes(p.votes.yes, p.threshold_percentage, p.total_weight) {
        Status::Passed
    } else if p.status == Status::Open && (spec_rejects(p.votes.no, p.threshold_percentage, p.total_weight)
        || spec_is_expired(p.expires, b)) {
        Status::Rejected
    } else {
        p.status
    }
}

/// Whether a voter already holds a ballot on this proposal.
pub open spec fn spec_has_ballot(ballots: Seq<Ballot>, voter: Seq<char>) -> bool {
    exists|i: int| 0 <= i < ballots.len() && ballots[i].voter@ == voter
}

/// Total weight of the ballots cast for the given value.
pub open spec fn spec_tally(ballots: Seq<Ballot>, v: Vote) -> int
    decreases ballots.len(),
{
    if ballots.len() == 0 {
        0
    } else {
        spec_tally(ballots.drop_last(), v) + if ballots.last().vote == v {
            ballots.last().weight as int
        } else {
            0
        }
    }
}

/// No two ballots belong to the same voter.
pub open spec fn spec_ballots_unique(ballots: Seq<Ballot>) -> bool {
    forall|i: int, j: int|
        0 <= i < j < ballots.len() ==> ballots[i].voter@ != ballots[j].voter@
}

impl Proposal {
    /// Internal consistency: a percentage in range, one ballot per voter, every
    /// ballot of weight one, and a tally that matches the ballots.
    pub open spec fn wf(self) -> bool {
        &&& self.threshold_percentage <= 100
        &&& spec_ballots_unique(self.ballots@)
        &&& self.votes.yes == spec_tally(self.ballots@, Vote::Yes)
        &&& self.votes.no == spec_tally(self.ballots@, Vote::No)
        &&& forall|i: int| 0 <= i < self.ballots@.len() ==> self.ballots@[i].weight == 1
    }

    /// Exact rational comparison of the tally against the snapshot, computed
    /// in 128 bits so the cross-multiplication cannot overflow.
    pub fn is_passed(&self) -> (r: bool)
        ensures
            r == spec_passes(self.votes.yes, self.threshold_percentage, self.total_weight),
    {
        let yes = self.votes.yes as u128;
        let p = self.threshold_percentage as u128;
        let w = self.total_weight as u128;
        proof {
            assert(yes * 100 <= u128::MAX && p * w <= u128::MAX) by (nonlinear_arith)
                requires
                    yes <= u64::MAX,
                    p <= u64::MAX,
                    w <= u64::MAX,
            ;
        }
        yes * 100 >= p * w
    }

    /// Whether the negative weight already blocks the vote.
    pub fn is_rejected(&self) -> (r: bool)
        requires
            self.threshold_percentage <= 100,
        ensures
            r == spec_rejects(self.votes.no, self.threshold_percentage, self.total_weight),
    {
        let rest = (100 - self.threshold_percentage) as u128;
        let w = self.total_weight as u128;
        proof {
            assert(rest * w + 99 <= u128::MAX) by (nonlinear_arith)
                requires
                    rest <= 100,
                    w <= u64::MAX,
            ;
        }
        let needed: u128 = (rest * w + 99) / 100;
        self.votes.no as u128 > needed
    }

    /// The status this proposal should be seen to have at the given block.
    pub fn current_status(&self, block: &BlockInfo) -> (r: Status)
        requires
            self.threshold_percentage <= 100,
        ensures
            r == spec_current_status(*self, *block),
    {
        let mut status = self.status;
        if status == Status::Open && self.is_passed() {
            status = Status::Passed;
        }
        if status == Status::Open && (self.is_rejected() || self.expires.is_expired(block)) {
            status = Status::Rejected;
        }
        status
    }

    /// Re-derives and stores the status; everything else is untouched.
    pub fn update_status(&mut self, block: &BlockInfo)
        requires
            old(self).threshold_percentage <= 100,
        ensures
            *final(self) == (Proposal { status: spec_current_status(*old(self), *block), ..*old(self) }),
    {
        let status = self.current_status(block);
        self.status = status;
    }
}

/// Whether this voter already cast a ballot.
pub fn has_ballot(ballots: &Vec<Ballot>, voter: &String) -> (r: bool)
    ensures
        r == spec_has_ballot(ballots@, voter@),
{
    let n = ballots.len();
    let mut i: usize = 0;
    while i < n
        invariant
            0 <= i <= n,
            n == ballots@.len(),
            forall|j: int| 0 <= j < i ==> ballots@[j].voter@ != voter@,
        decreases n - i,
    {
        if ballots[i].voter == *voter {
            return true;
        }
        i = i + 1;
    }
    false
}

/// The name a status is reported under in response attributes.
pub open spec fn spec_status_name(s: Status) -> Seq<char> {
    match s {
        Status::Open => "Open"@,
        Status::Rejected => "Rejected"@,
        Status::Passed => "Passed"@,
        Status::Executed => "Executed"@,
    }
}

/// Renders a status for a response attribute.
pub fn status_name(s: Status) -> (r: &'static str)
    ensures
        r@ == spec_status_name(s),
{
    match s {
        Status::Open => "Open",
        Status::Rejected => "Rejected",
        Status::Passed => "Passed",
        Status::Executed => "Executed",
    }
}

/// A proposal whose stored status is `Executed` derives `Executed` at every
/// block: execution is terminal, so its action batch can never be dispatched
/// a second time.
pub proof fn lemma_executed_is_terminal(p: Proposal, b: BlockInfo)
    requires
        p.status == Status::Executed,
    ensures
        spec_current_status(p, b) == Status::Executed,
{
}

} // verus!
