use vstd::prelude::*;

use crate::error::ContractError;
use crate::types::{BlockInfo, Coin, Env, NANOS_PER_SECOND};
use crate::vesting::{lemma_sum_take_le, lemma_sum_take_succ, sum_amounts};

verus! {

pub const HUNDRED_YEARS_IN_SECONDS: u64 = 100 * 365 * 24 * 60 * 60;

/// Presence marker stored against each role-table key.
#[derive(Clone, Copy, Debug, PartialEq, Eq, Structural)]
pub struct EmptyStruct {}

/// The vesting plan supplied at setup: parallel maturity/amount sequences plus
/// the two distribution addresses and the token denomination.
#[derive(Clone, Debug, PartialEq, Eq)]
pub struct Tranche {
    pub denom: String,
    pub vesting_timestamps: Vec<u64>,
    pub vesting_amounts: Vec<u128>,
    pub unlocked_token_distribution_address: String,
    pub staking_reward_distribution_address: String,
}

/// Sum of the deposited amounts whose denomination matches.
pub open spec fn spec_deposited(funds: Seq<Coin>, denom: Seq<char>) -> int
    decreases funds.len(),
{
    if funds.len() == 0 {
        0
    } else {
        spec_deposited(funds.drop_last(), denom) + if funds.last().denom@ == denom {
            funds.last().amount as int
        } else {
            0
        }
    }
}

/// Deposit of a prefix one longer: a matching coin joins the sum.
pub proof fn lemma_deposited_take_succ(funds: Seq<Coin>, denom: Seq<char>, i: int)
    requires
        0 <= i < funds.len(),
    ensures
        spec_deposited(funds.take(i + 1), denom) == spec_deposited(funds.take(i), denom) + if funds[i].denom@
            == denom {
            funds[i].amount as int
        } else {
            0
        },
{
    assert(funds.take(i + 1).drop_last() =~= funds.take(i));
}

/// Every deposit prefix is bounded by the whole deposit.
pub proof fn lemma_deposited_take_le(funds: Seq<Coin>, denom: Seq<char>, i: int)
    requires
        0 <= i <= funds.len(),
    ensures
        spec_deposited(funds.take(i), denom) <= spec_deposited(funds, denom),
        spec_deposited(funds.take(i), denom) >= 0,
    decreases funds.len() - i,
{
    lemma_deposited_nonneg(funds.take(i), denom);
    if i == funds.len() {
        assert(funds.take(i) =~= funds);
    } else {
        lemma_deposited_take_succ(funds, denom, i);
        lemma_deposited_take_le(funds, denom, i + 1);
    }
}

pub proof fn lemma_deposited_nonneg(funds: Seq<Coin>, denom: Seq<char>)
    ensures
        spec_deposited(funds, denom) >= 0,
    decreases funds.len(),
{
    if funds.len() > 0 {
        lemma_deposited_nonneg(funds.drop_last(), denom);
    }
}

/// The per-entry timestamp checks, in the order they are applied: strictly
/// increasing (from a positive start), not in the past, and not more than a
/// hundred years out.
pub open spec fn spec_ts_monotonic_at(ts: Seq<u64>, i: int) -> bool {
    if i == 0 {
        ts[0] > 0
    } else {
        ts[i] > ts[i - 1]
    }
}

pub open spec fn spec_ts_not_past_at(ts: Seq<u64>, i: int, block: BlockInfo) -> bool {
    ts[i] >= block.time
}

pub open spec fn spec_ts_not_far_at(ts: Seq<u64>, i: int, block: BlockInfo) -> bool {
    (ts[i] as int) / (NANOS_PER_SECOND as int) <= (block.time as int) / (NANOS_PER_SECOND as int)
        + HUNDRED_YEARS_IN_SECONDS
}

pub open spec fn spec_ts_ok_at(ts: Seq<u64>, i: int, block: BlockInfo) -> bool {
    spec_ts_monotonic_at(ts, i) && spec_ts_not_past_at(ts, i, block) && spec_ts_not_far_at(
        ts,
        i,
        block,
    )
}

pub open spec fn spec_timestamps_ok(ts: Seq<u64>, block: BlockInfo) -> bool {
    forall|i: int| 0 <= i < ts.len() ==> spec_ts_ok_at(ts, i, block)
}

/// The error reported for the schedule is pinned by the first entry that fails
/// a check, and by the first check it fails.
pub open spec fn spec_ts_err_witness(ts: Seq<u64>, block: BlockInfo, e: ContractError, k: int) -> bool {
    &&& 0 <= k < ts.len()
    &&& (forall|j: int| 0 <= j < k ==> spec_ts_ok_at(ts, j, block))
    &&& if !spec_ts_monotonic_at(ts, k) {
        e.is_invalid_tranche("vesting schedule must be monotonic increasing"@)
    } else if !spec_ts_not_past_at(ts, k, block) {
        e.is_invalid_tranche("Timestamp nanoseconds are out of range"@)
    } else {
        &&& !spec_ts_not_far_at(ts, k, block)
        &&& e.is_invalid_timestamp("Timestamp is too far in the future"@)
    }
}

/// The error a plan is rejected with is pinned by the first failing check:
/// mismatched lengths, an empty plan, a zero amount, an uncovered total, then
/// the schedule's own first failure.
pub open spec fn spec_tranche_err(t: Tranche, block: BlockInfo, funds: Seq<Coin>, e: ContractError) -> bool {
    if t.vesting_amounts@.len() != t.vesting_timestamps@.len() {
        e.is_invalid_tranche("mismatched vesting amounts and schedule"@)
    } else if t.vesting_amounts@.len() == 0 {
        e.is_invalid_tranche("nothing to vest"@)
    } else if exists|i: int| 0 <= i < t.vesting_amounts@.len() && t.vesting_amounts@[i] == 0 {
        e.is_invalid_tranche("zero vesting amount is not allowed"@)
    } else if sum_amounts(t.vesting_amounts@) > spec_deposited(funds, t.denom@) {
        e.is_invalid_tranche("insufficient deposit for the vesting plan"@)
    } else {
        exists|k: int| spec_ts_err_witness(t.vesting_timestamps@, block, e, k)
    }
}

impl Tranche {
    /// The whole plan is acceptable: matching non-empty sequences, positive
    /// amounts covered by the deposit, and an in-window, strictly increasing
    /// schedule.
    pub open spec fn spec_valid(self, block: BlockInfo, funds: Seq<Coin>) -> bool {
        &&& self.vesting_amounts@.len() == self.vesting_timestamps@.len()
        &&& self.vesting_amounts@.len() > 0
        &&& (forall|i: int| 0 <= i < self.vesting_amounts@.len() ==> self.vesting_amounts@[i] > 0)
        &&& sum_amounts(self.vesting_amounts@) <= spec_deposited(funds, self.denom@)
        &&& spec_timestamps_ok(self.vesting_timestamps@, block)
    }

    /// Checks the maturity schedule entry by entry and reports the first
    /// offending entry's first failing check.
    pub fn validate_timestamps(&self, env: &Env) -> (r: Result<(), ContractError>)
        ensures
            r is Ok <==> spec_timestamps_ok(self.vesting_timestamps@, env.block),
            r matches Err(e) ==> exists|k: int|
                spec_ts_err_witness(self.vesting_timestamps@, env.block, e, k),
    {
        let ts = &self.vesting_timestamps;
        let n = ts.len();
        let mut last_ts: u64 = 0;
        let mut i: usize = 0;
        while i < n
            invariant
                0 <= i <= n,
                n == ts@.len(),
                forall|j: int| 0 <= j < i ==> spec_ts_ok_at(ts@, j, env.block),
                last_ts == if i == 0 {
                    0
                } else {
                    ts@[i - 1]
                },
            decreases n - i,
        {
            let t = ts[i];
            if t <= last_ts {
                let e = ContractError::InvalidTranche(
                    "vesting schedule must be monotonic increasing".to_owned(),
                );
                proof {
                    assert(!spec_ts_ok_at(ts@, i as int, env.block));
                    assert(spec_ts_err_witness(ts@, env.block, e, i as int));
                }
                return Err(e);
            }
            if t < env.block.time {
                let e = ContractError::InvalidTranche(
                    "Timestamp nanoseconds are out of range".to_owned(),
                );
                proof {
                    assert(!spec_ts_ok_at(ts@, i as int, env.block));
                    assert(spec_ts_err_witness(ts@, env.block, e, i as int));
                }
                return Err(e);
            }
            if t / NANOS_PER_SECOND > env.block.time / NANOS_PER_SECOND
                + HUNDRED_YEARS_IN_SECONDS {
                let e = ContractError::InvalidTimestamp(
                    "Timestamp is too far in the future".to_owned(),
                );
                proof {
                    assert(!spec_ts_ok_at(ts@, i as int, env.block));
                    assert(spec_ts_err_witness(ts@, env.block, e, i as int));
                }
                return Err(e);
            }
            last_ts = t;
            i = i + 1;
        }
        Ok(())
    }

    /// Validates the whole plan against the deposit that rode along with the
    /// instantiation, reporting the first failing check exactly as stated.
    pub fn validate(&self, env: Env, funds: Vec<Coin>) -> (r: Result<(), ContractError>)
        requires
            sum_amounts(self.vesting_amounts@) <= u128::MAX,
            spec_deposited(funds@, self.denom@) <= u128::MAX,
        ensures
            r is Ok <==> self.spec_valid(env.block, funds@),
            r matches Err(e) ==> spec_tranche_err(*self, env.block, funds@, e),
    {
        if self.vesting_amounts.len() != self.vesting_timestamps.len() {
            return Err(ContractError::InvalidTranche(
                "mismatched vesting amounts and schedule".to_owned(),
            ));
        }
        if self.vesting_amounts.len() == 0 {
            return Err(ContractError::InvalidTranche("nothing to vest".to_owned()));
        }
        let n = self.vesting_amounts.len();
        let mut total_vesting_amount: u128 = 0;
        let mut i: usize = 0;
        while i < n
            invariant
                0 <= i <= n,
                n == self.vesting_amounts@.len(),
                sum_amounts(self.vesting_amounts@) <= u128::MAX,
                total_vesting_amount == sum_amounts(self.vesting_amounts@.take(i as int)),
                forall|j: int| 0 <= j < i ==> self.vesting_amounts@[j] > 0,
            decreases n - i,
        {
            let amount = self.vesting_amounts[i];
            if amount == 0 {
                proof {
                    assert(self.vesting_amounts@[i as int] == 0);
                }
                return Err(ContractError::InvalidTranche(
                    "zero vesting amount is not allowed".to_owned(),
                ));
            }
            proof {
                lemma_sum_take_succ(self.vesting_amounts@, i as int);
                lemma_sum_take_le(self.vesting_amounts@, i as int + 1);
            }
            total_vesting_amount = total_vesting_amount + amount;
            i = i + 1;
        }
        proof {
            assert(self.vesting_amounts@.take(n as int) =~= self.vesting_amounts@);
        }
        let m = funds.len();
        let mut deposited_amount: u128 = 0;
        let mut k: usize = 0;
        while k < m
            invariant
                0 <= k <= m,
                m == funds@.len(),
                spec_deposited(funds@, self.denom@) <= u128::MAX,
                deposited_amount == spec_deposited(funds@.take(k as int), self.denom@),
            decreases m - k,
        {
            proof {
                lemma_deposited_take_succ(funds@, self.denom@, k as int);
                lemma_deposited_take_le(funds@, self.denom@, k as int + 1);
                lemma_deposited_take_le(funds@, self.denom@, k as int);
            }
            if funds[k].denom == self.denom {
                deposited_amount = deposited_amount + funds[k].amount;
            }
            k = k + 1;
        }
        proof {
            assert(funds@.take(m as int) =~= funds@);
        }
        if total_vesting_amount > deposited_amount {
            return Err(ContractError::InvalidTranche(
                "insufficient deposit for the vesting plan".to_owned(),
            ));
        }
        self.validate_timestamps(&env)?;
        Ok(())
    }
}

} // verus!
