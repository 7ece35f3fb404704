use vstd::prelude::*;
use vstd::string::StringExecFns;

use crate::msg::ExecuteMsg;

verus! {

/// Block context handed in by the host with every command; `time` counts
/// nanoseconds since the epoch.
#[derive(Clone, Copy, Debug, PartialEq, Eq, Structural)]
pub struct BlockInfo {
    pub height: u64,
    pub time: u64,
}

/// Ambient call context: the current block and this contract's own address.
#[derive(Clone, Debug, PartialEq, Eq)]
pub struct Env {
    pub block: BlockInfo,
    pub contract_address: String,
}

/// Who sent the command and what funds rode along with it.
#[derive(Clone, Debug, PartialEq, Eq)]
pub struct MessageInfo {
    pub sender: String,
    pub funds: Vec<Coin>,
}

/// An amount of one token denomination.
#[derive(Clone, Debug, PartialEq, Eq)]
pub struct Coin {
    pub denom: String,
    pub amount: u128,
}

/// A span of chain time, counted in blocks or in seconds.
#[derive(Clone, Copy, Debug, PartialEq, Eq, Structural)]
pub enum Duration {
    Height(u64),
    Time(u64),
}

/// A point after which a proposal can no longer be voted on. `AtTime` holds
/// nanoseconds since the epoch.
#[derive(Clone, Copy, Debug, PartialEq, Eq, Structural)]
pub enum Expiration {
    AtHeight(u64),
    AtTime(u64),
    Never,
}

pub const NANOS_PER_SECOND: u64 = 1_000_000_000;

/// An expiration has been reached once the block height or time is at or past
/// the recorded bound; `Never` never expires.
pub open spec fn spec_is_expired(e: Expiration, b: BlockInfo) -> bool {
    match e {
        Expiration::AtHeight(height) => b.height >= height,
        Expiration::AtTime(time) => b.time >= time,
        Expiration::Never => false,
    }
}

impl Expiration {
    pub fn is_expired(&self, block: &BlockInfo) -> (r: bool)
        ensures
            r == spec_is_expired(*self, *block),
    {
        match self {
            Expiration::AtHeight(height) => block.height >= *height,
            Expiration::AtTime(time) => block.time >= *time,
            Expiration::Never => false,
        }
    }
}

/// The bound computed by `Duration::after` stays within machine range.
pub open spec fn spec_period_fits(d: Duration, b: BlockInfo) -> bool {
    match d {
        Duration::Height(h) => b.height + h <= u64::MAX,
        Duration::Time(t) => b.time + t * NANOS_PER_SECOND <= u64::MAX,
    }
}

/// The expiration one whole period after the given block.
pub open spec fn spec_after(d: Duration, b: BlockInfo) -> Expiration
    recommends
        spec_period_fits(d, b),
{
    match d {
        Duration::Height(h) => Expiration::AtHeight((b.height + h) as u64),
        Duration::Time(t) => Expiration::AtTime((b.time + t * NANOS_PER_SECOND) as u64),
    }
}

impl Duration {
    /// The expiration that lies one whole voting period after the given block.
    pub fn after(&self, block: &BlockInfo) -> (r: Expiration)
        requires
            spec_period_fits(*self, *block),
        ensures
            r == spec_after(*self, *block),
    {
        match self {
            Duration::Height(h) => Expiration::AtHeight(block.height + *h),
            Duration::Time(t) => Expiration::AtTime(block.time + *t * NANOS_PER_SECOND),
        }
    }
}

/// How this contract votes on a proposal of the host chain's own governance.
#[derive(Clone, Copy, Debug, PartialEq, Eq, Structural)]
pub enum VoteOption {
    Yes,
    No,
    Abstain,
    NoWithVeto,
}

/// The name a gov-vote option is reported under in proposal titles.
pub open spec fn spec_vote_option_name(v: VoteOption) -> Seq<char> {
    match v {
        VoteOption::Yes => "Yes"@,
        VoteOption::No => "No"@,
        VoteOption::Abstain => "Abstain"@,
        VoteOption::NoWithVeto => "NoWithVeto"@,
    }
}

/// Renders a gov-vote option for a proposal title.
pub fn vote_option_name(v: VoteOption) -> (r: &'static str)
    ensures
        r@ == spec_vote_option_name(v),
{
    match v {
        VoteOption::Yes => "Yes",
        VoteOption::No => "No",
        VoteOption::Abstain => "Abstain",
        VoteOption::NoWithVeto => "NoWithVeto",
    }
}

/// Copies a maturity schedule for a query response.
pub fn copy_u64s(v: &Vec<u64>) -> (r: Vec<u64>)
    ensures
        r@ == v@,
{
    let n = v.len();
    let mut out: Vec<u64> = Vec::new();
    let mut i: usize = 0;
    while i < n
        invariant
            0 <= i <= n,
            out@ == v@.take(i as int),
        decreases n - i,
    {
        out.push(v[i]);
        proof {
            assert(out@ =~= v@.take(i + 1 as int));
        }
        i = i + 1;
    }
    proof {
        assert(v@.take(n as int) =~= v@);
    }
    out
}

/// Copies an amount schedule for a query response.
pub fn copy_u128s(v: &Vec<u128>) -> (r: Vec<u128>)
    ensures
        r@ == v@,
{
    let n = v.len();
    let mut out: Vec<u128> = Vec::new();
    let mut i: usize = 0;
    while i < n
        invariant
            0 <= i <= n,
            out@ == v@.take(i as int),
        decreases n - i,
    {
        out.push(v[i]);
        proof {
            assert(out@ =~= v@.take(i + 1 as int));
        }
        i = i + 1;
    }
    proof {
        assert(v@.take(n as int) =~= v@);
    }
    out
}

/// One follow-up instruction for the host to carry out after the command's
/// state changes commit. The core never interprets these; it only emits them.
#[derive(Clone, Debug, PartialEq, Eq)]
pub enum Action {
    /// Transfer tokens from the contract's bank balance.
    Send { to_address: String, amount: u128, denom: String },
    /// Stake tokens with a validator.
    Delegate { validator: String, amount: u128, denom: String },
    /// Move staked tokens between validators.
    Redelegate { src_validator: String, dst_validator: String, amount: u128, denom: String },
    /// Unstake tokens from a validator.
    Undelegate { validator: String, amount: u128, denom: String },
    /// Pull accumulated staking rewards into the contract's bank balance.
    WithdrawDelegatorReward { validator: String },
    /// Cast a vote on a proposal of the host chain's governance.
    GovVote { proposal_id: u64, vote: VoteOption },
    /// Re-invoke a contract; self-calls are how passed proposals reach the
    /// internal entry points.
    Execute { contract_addr: String, msg: ExecuteMsg },
}

/// One validator's withdrawable reward in the vault's denomination, as the
/// host observed it just before the command ran.
#[derive(Clone, Debug, PartialEq, Eq)]
pub struct ValidatorReward {
    pub validator: String,
    pub amount: u128,
}

/// What the host observed about the chain before the command ran, all in the
/// vault's denomination: the vault's bank balance, its total stake, its total
/// unbonding amount, and each delegated validator's pending rewards. Like the
/// clock, this is ambient context the core never queries itself.
#[derive(Clone, Debug, PartialEq, Eq)]
pub struct StakingSnapshot {
    pub bank_balance: u128,
    pub staked: u128,
    pub unbonding: u128,
    pub validator_rewards: Vec<ValidatorReward>,
}

/// A key/value pair echoed back to the host for logging.
#[derive(Clone, Debug, PartialEq, Eq)]
pub struct Attribute {
    pub key: String,
    pub value: String,
}

/// What a successful command hands back: the ordered action batch to dispatch
/// and the attributes to log.
#[derive(Clone, Debug, PartialEq, Eq)]
pub struct Response {
    pub messages: Vec<Action>,
    pub attributes: Vec<Attribute>,
}

impl Response {
    pub fn new() -> (r: Response)
        ensures
            r.messages@ == Seq::<Action>::empty(),
            r.attributes@ == Seq::<Attribute>::empty(),
    {
        Response { messages: Vec::new(), attributes: Vec::new() }
    }

    pub fn add_message(self, msg: Action) -> (r: Response)
        ensures
            r.messages@ == self.messages@.push(msg),
            r.attributes@ == self.attributes@,
    {
        let mut messages = self.messages;
        messages.push(msg);
        Response { messages, attributes: self.attributes }
    }

    pub fn add_attribute(self, key: &str, value: String) -> (r: Response)
        ensures
            r.messages@ == self.messages@,
            r.attributes@.len() == self.attributes@.len() + 1,
            r.attributes@.subrange(0, self.attributes@.len() as int) == self.attributes@,
            r.attributes@.last().key@ == key@,
            r.attributes@.last().value == value,
    {
        let mut attributes = self.attributes;
        attributes.push(Attribute { key: key.to_owned(), value });
        proof {
            assert(attributes@.subrange(0, self.attributes@.len() as int) =~= self.attributes@);
        }
        Response { messages: self.messages, attributes }
    }
}

/// Clones a principal, denomination or title string; the copy equals the
/// original, which a derived `Clone` would not say.
pub fn clone_string(s: &String) -> (r: String)
    ensures
        r == *s,
{
    s.clone()
}

/// An exact copy of one follow-up action; query responses carry such copies,
/// and their contracts need the copy to equal the original.
pub fn clone_action(a: &Action) -> (r: Action)
    ensures
        r == *a,
{
    match a {
        Action::Send { to_address, amount, denom } => Action::Send {
            to_address: clone_string(to_address),
            amount: *amount,
            denom: clone_string(denom),
        },
        Action::Delegate { validator, amount, denom } => Action::Delegate {
            validator: clone_string(validator),
            amount: *amount,
            denom: clone_string(denom),
        },
        Action::Redelegate { src_validator, dst_validator, amount, denom } => Action::Redelegate {
            src_validator: clone_string(src_validator),
            dst_validator: clone_string(dst_validator),
            amount: *amount,
            denom: clone_string(denom),
        },
        Action::Undelegate { validator, amount, denom } => Action::Undelegate {
            validator: clone_string(validator),
            amount: *amount,
            denom: clone_string(denom),
        },
        Action::WithdrawDelegatorReward { validator } => Action::WithdrawDelegatorReward {
            validator: clone_string(validator),
        },
        Action::GovVote { proposal_id, vote } => Action::GovVote {
            proposal_id: *proposal_id,
            vote: *vote,
        },
        Action::Execute { contract_addr, msg } => Action::Execute {
            contract_addr: clone_string(contract_addr),
            msg: crate::msg::clone_execute_msg(msg),
        },
    }
}

/// An exact copy of a batch of follow-up actions.
pub fn clone_actions(actions: &Vec<Action>) -> (r: Vec<Action>)
    ensures
        r@ == actions@,
{
    let n = actions.len();
    let mut out: Vec<Action> = Vec::new();
    let mut i: usize = 0;
    while i < n
        invariant
            0 <= i <= n,
            out@ == actions@.take(i as int),
        decreases n - i,
    {
        out.push(clone_action(&actions[i]));
        proof {
            assert(out@ =~= actions@.take(i + 1 as int));
        }
        i = i + 1;
    }
    proof {
        assert(actions@.take(n as int) =~= actions@);
    }
    out
}

/// The decimal digit characters.
pub open spec fn spec_digit(d: int) -> char {
    if d == 0 {
        '0'
    } else if d == 1 {
        '1'
    } else if d == 2 {
        '2'
    } else if d == 3 {
        '3'
    } else if d == 4 {
        '4'
    } else if d == 5 {
        '5'
    } else if d == 6 {
        '6'
    } else if d == 7 {
        '7'
    } else if d == 8 {
        '8'
    } else {
        '9'
    }
}

/// The usual base-ten rendering of a non-negative integer, most significant
/// digit first.
pub open spec fn spec_u64_digits(n: int) -> Seq<char>
    decreases n,
{
    if n < 10 {
        seq![spec_digit(n)]
    } else {
        spec_u64_digits(n / 10).push(spec_digit(n % 10))
    }
}

fn digit_str(d: u64) -> (s: &'static str)
    requires
        d < 10,
    ensures
        s@.len() == 1,
        s@[0] == spec_digit(d as int),
{
    proof {
        reveal_strlit("0");
        reveal_strlit("1");
        reveal_strlit("2");
        reveal_strlit("3");
        reveal_strlit("4");
        reveal_strlit("5");
        reveal_strlit("6");
        reveal_strlit("7");
        reveal_strlit("8");
        reveal_strlit("9");
    }
    match d {
        0 => "0",
        1 => "1",
        2 => "2",
        3 => "3",
        4 => "4",
        5 => "5",
        6 => "6",
        7 => "7",
        8 => "8",
        _ => "9",
    }
}

/// Renders an integer in decimal, e.g. for the `proposal_id` attribute.
pub fn u64_to_string(n: u64) -> (s: String)
    ensures
        s@ == spec_u64_digits(n as int),
    decreases n,
{
    if n < 10 {
        let s = digit_str(n).to_owned();
        proof {
            assert(s@ =~= spec_u64_digits(n as int));
        }
        s
    } else {
        let mut s = u64_to_string(n / 10);
        let d = digit_str(n % 10);
        s.append(d);
        proof {
            assert(s@ =~= spec_u64_digits(n as int));
        }
        s
    }
}

} // verus!
