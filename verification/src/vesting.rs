use vstd::prelude::*;

use crate::error::ContractError;
use crate::state::State;
use crate::types::{clone_string, Action, Response};

verus! {

/// Sum of a sequence of amounts, as an unbounded integer.
pub open spec fn sum_amounts(amts: Seq<u128>) -> int
    decreases amts.len(),
{
    if amts.len() == 0 {
        0
    } else {
        sum_amounts(amts.drop_last()) + amts.last()
    }
}

/// Sum of the amounts whose maturity time is at or before `now`.
pub open spec fn spec_total_vested(ts: Seq<u64>, amts: Seq<u128>, now: u64) -> int
    recommends
        ts.len() == amts.len(),
    decreases ts.len(),
{
    if ts.len() == 0 {
        0
    } else {
        spec_total_vested(ts.drop_last(), amts.drop_last(), now) + if ts.last() <= now {
            amts.last() as int
        } else {
            0
        }
    }
}

/// Maturity times strictly increase from entry to entry.
pub open spec fn schedule_sorted(ts: Seq<u64>) -> bool {
    forall|i: int| 0 < i < ts.len() ==> ts[i - 1] < #[trigger] ts[i]
}

/// No schedule entry ever carries a zero amount.
pub open spec fn schedule_positive(amts: Seq<u128>) -> bool {
    forall|i: int| 0 <= i < amts.len() ==> amts[i] > 0
}

/// The schedule left after spending `r` units of matured principal, oldest
/// maturity first: leading entries are consumed whole while their amounts fit
/// in `r`, and an entry that `r` ends inside is kept with its amount reduced.
/// Meaningful when `r` is at most the matured total, which also keeps the
/// consumption within the matured prefix.
pub open spec fn spec_collect(ts: Seq<u64>, amts: Seq<u128>, now: u64, r: int) -> (Seq<u64>, Seq<u128>)
    recommends
        ts.len() == amts.len(),
        r <= spec_total_vested(ts, amts, now),
    decreases ts.len(),
{
    if r <= 0 || ts.len() == 0 {
        (ts, amts)
    } else if amts[0] < r {
        spec_collect(ts.drop_first(), amts.drop_first(), now, r - amts[0])
    } else if amts[0] == r {
        (ts.drop_first(), amts.drop_first())
    } else {
        (ts, amts.update(0, (amts[0] - r) as u128))
    }
}

/// Sum of a prefix one longer: the next element joins the sum.
pub proof fn lemma_sum_take_succ(amts: Seq<u128>, i: int)
    requires
        0 <= i < amts.len(),
    ensures
        sum_amounts(amts.take(i + 1)) == sum_amounts(amts.take(i)) + amts[i],
{
    assert(amts.take(i + 1).drop_last() =~= amts.take(i));
}

/// Every prefix sum is bounded by the whole sum.
pub proof fn lemma_sum_take_le(amts: Seq<u128>, i: int)
    requires
        0 <= i <= amts.len(),
    ensures
        sum_amounts(amts.take(i)) <= sum_amounts(amts),
    decreases amts.len() - i,
{
    if i == amts.len() {
        assert(amts.take(i) =~= amts);
    } else {
        lemma_sum_take_succ(amts, i);
        lemma_sum_take_le(amts, i + 1);
    }
}

/// A sum of amounts is never negative.
pub proof fn lemma_sum_nonneg(amts: Seq<u128>)
    ensures
        sum_amounts(amts) >= 0,
    decreases amts.len(),
{
    if amts.len() > 0 {
        lemma_sum_nonneg(amts.drop_last());
    }
}

/// The vested prefix one longer: a matured entry joins the sum, an unmatured
/// one does not.
proof fn lemma_vested_take_succ(ts: Seq<u64>, amts: Seq<u128>, now: u64, i: int)
    requires
        ts.len() == amts.len(),
        0 <= i < ts.len(),
    ensures
        spec_total_vested(ts.take(i + 1), amts.take(i + 1), now) == spec_total_vested(
            ts.take(i),
            amts.take(i),
            now,
        ) + if ts[i] <= now {
            amts[i] as int
        } else {
            0
        },
{
    assert(ts.take(i + 1).drop_last() =~= ts.take(i));
    assert(amts.take(i + 1).drop_last() =~= amts.take(i));
}

/// The matured total never exceeds the whole remaining total.
pub proof fn lemma_vested_le_sum(ts: Seq<u64>, amts: Seq<u128>, now: u64)
    requires
        ts.len() == amts.len(),
    ensures
        0 <= spec_total_vested(ts, amts, now),
        spec_total_vested(ts, amts, now) <= sum_amounts(amts),
    decreases ts.len(),
{
    if ts.len() > 0 {
        lemma_vested_le_sum(ts.drop_last(), amts.drop_last(), now);
    }
}

/// Entries past an all-unmatured point contribute nothing to the vested sum.
proof fn lemma_vested_unmatured_suffix(ts: Seq<u64>, amts: Seq<u128>, now: u64, i: int)
    requires
        ts.len() == amts.len(),
        0 <= i <= ts.len(),
        forall|j: int| i <= j < ts.len() ==> ts[j] > now,
    ensures
        spec_total_vested(ts, amts, now) == spec_total_vested(ts.take(i), amts.take(i), now),
    decreases ts.len() - i,
{
    if i == ts.len() {
        assert(ts.take(i) =~= ts);
        assert(amts.take(i) =~= amts);
    } else {
        lemma_vested_take_succ(ts, amts, now, i);
        lemma_vested_unmatured_suffix(ts, amts, now, i + 1);
    }
}

/// Peeling the front entry off the vested sum.
proof fn lemma_vested_drop_first(ts: Seq<u64>, amts: Seq<u128>, now: u64)
    requires
        ts.len() == amts.len(),
        ts.len() > 0,
    ensures
        spec_total_vested(ts, amts, now) == spec_total_vested(ts.drop_first(), amts.drop_first(), now)
            + if ts[0] <= now {
            amts[0] as int
        } else {
            0
        },
    decreases ts.len(),
{
    if ts.len() == 1 {
        assert(ts.drop_first() =~= Seq::<u64>::empty());
        assert(amts.drop_first() =~= Seq::<u128>::empty());
        assert(ts.drop_last() =~= Seq::<u64>::empty());
        assert(amts.drop_last() =~= Seq::<u128>::empty());
        assert(spec_total_vested(ts.drop_first(), amts.drop_first(), now) == 0);
        assert(spec_total_vested(ts, amts, now) == spec_total_vested(
            ts.drop_last(),
            amts.drop_last(),
            now,
        ) + if ts.last() <= now {
            amts.last() as int
        } else {
            0
        });
        assert(spec_total_vested(ts.drop_last(), amts.drop_last(), now) == 0);
    } else {
        lemma_vested_drop_first(ts.drop_last(), amts.drop_last(), now);
        assert(spec_total_vested(ts, amts, now) == spec_total_vested(
            ts.drop_last(),
            amts.drop_last(),
            now,
        ) + if ts.last() <= now {
            amts.last() as int
        } else {
            0
        });
        assert(ts.drop_first().drop_last() =~= ts.drop_last().drop_first());
        assert(amts.drop_first().drop_last() =~= amts.drop_last().drop_first());
        assert(spec_total_vested(ts.drop_first(), amts.drop_first(), now) == spec_total_vested(
            ts.drop_first().drop_last(),
            amts.drop_first().drop_last(),
            now,
        ) + if ts.drop_first().last() <= now {
            amts.drop_first().last() as int
        } else {
            0
        });
        assert(ts.drop_first().last() == ts.last());
        assert(amts.drop_first().last() == amts.last());
    }
}

/// Peeling the front entry off the whole sum.
proof fn lemma_sum_drop_first(amts: Seq<u128>)
    requires
        amts.len() > 0,
    ensures
        sum_amounts(amts) == amts[0] + sum_amounts(amts.drop_first()),
    decreases amts.len(),
{
    if amts.len() == 1 {
        assert(amts.drop_first() =~= Seq::<u128>::empty());
        assert(amts.drop_last() =~= Seq::<u128>::empty());
        assert(sum_amounts(amts.drop_first()) == 0);
        assert(sum_amounts(amts) == sum_amounts(amts.drop_last()) + amts.last());
        assert(sum_amounts(amts.drop_last()) == 0);
    } else {
        lemma_sum_drop_first(amts.drop_last());
        assert(sum_amounts(amts) == sum_amounts(amts.drop_last()) + amts.last());
        assert(amts.drop_first().drop_last() =~= amts.drop_last().drop_first());
        assert(sum_amounts(amts.drop_first()) == sum_amounts(amts.drop_first().drop_last())
            + amts.drop_first().last());
        assert(amts.drop_first().last() == amts.last());
    }
}

/// In a strictly increasing schedule, later entries mature no earlier.
proof fn lemma_sorted_le(ts: Seq<u64>, i: int, j: int)
    requires
        schedule_sorted(ts),
        0 <= i <= j < ts.len(),
    ensures
        ts[i] <= ts[j],
    decreases j - i,
{
    if i < j {
        lemma_sorted_le(ts, i, j - 1);
    }
}

/// The vested sum only grows as time moves forward: whatever is matured at
/// `t1` is still matured at any later `t2`.
pub proof fn lemma_vested_monotonic(ts: Seq<u64>, amts: Seq<u128>, t1: u64, t2: u64)
    requires
        ts.len() == amts.len(),
        t1 <= t2,
    ensures
        spec_total_vested(ts, amts, t1) <= spec_total_vested(ts, amts, t2),
    decreases ts.len(),
{
    if ts.len() > 0 {
        lemma_vested_monotonic(ts.drop_last(), amts.drop_last(), t1, t2);
    }
}

/// Updating the front amount moves the vested sum and the whole sum by exactly
/// the difference, provided the front entry is matured.
proof fn lemma_front_update(ts: Seq<u64>, amts: Seq<u128>, now: u64, x: u128)
    requires
        ts.len() == amts.len(),
        ts.len() > 0,
        ts[0] <= now,
    ensures
        spec_total_vested(ts, amts.update(0, x), now) == spec_total_vested(ts, amts, now) - amts[0]
            + x,
        sum_amounts(amts.update(0, x)) == sum_amounts(amts) - amts[0] + x,
{
    lemma_vested_drop_first(ts, amts, now);
    lemma_vested_drop_first(ts, amts.update(0, x), now);
    lemma_sum_drop_first(amts);
    lemma_sum_drop_first(amts.update(0, x));
    assert(amts.update(0, x).drop_first() =~= amts.drop_first());
}

/// Computes the matured total of a schedule by walking it in maturity order
/// and stopping at the first entry still in the future.
fn vested_in(ts: &Vec<u64>, amts: &Vec<u128>, now: u64) -> (r: u128)
    requires
        ts@.len() == amts@.len(),
        schedule_sorted(ts@),
        sum_amounts(amts@) <= u128::MAX,
    ensures
        r == spec_total_vested(ts@, amts@, now),
{
    let n = ts.len();
    let mut acc: u128 = 0;
    let mut i: usize = 0;
    while i < n
        invariant
            0 <= i <= n,
            n == ts@.len(),
            ts@.len() == amts@.len(),
            schedule_sorted(ts@),
            sum_amounts(amts@) <= u128::MAX,
            acc == spec_total_vested(ts@.take(i as int), amts@.take(i as int), now),
            forall|j: int| 0 <= j < i ==> ts@[j] <= now,
        decreases n - i,
    {
        if ts[i] > now {
            proof {
                assert forall|j: int| i <= j < ts@.len() implies ts@[j] > now by {
                    lemma_sorted_le(ts@, i as int, j);
                }
                lemma_vested_unmatured_suffix(ts@, amts@, now, i as int);
            }
            return acc;
        }
        proof {
            lemma_vested_take_succ(ts@, amts@, now, i as int);
            lemma_vested_le_sum(ts@.take(i as int + 1), amts@.take(i as int + 1), now);
            lemma_sum_take_le(amts@, i as int + 1);
        }
        acc = acc + amts[i];
        i = i + 1;
    }
    proof {
        assert(ts@.take(n as int) =~= ts@);
        assert(amts@.take(n as int) =~= amts@);
    }
    acc
}

/// The matured total of the current schedule: the amounts whose maturity is at
/// or before `now`, summed in ascending maturity order. Pure read.
pub fn total_vested_amount(state: &State, now: u64) -> (r: u128)
    requires
        state.wf(),
        state.balanced(),
    ensures
        r == spec_total_vested(state.vesting_timestamps@, state.vesting_amounts@, now),
{
    proof {
        lemma_sum_nonneg(state.vesting_amounts@);
    }
    vested_in(&state.vesting_timestamps, &state.vesting_amounts, now)
}

/// Spends `requested_amount` units of already-matured principal, oldest
/// maturity first, and saves the consumed schedule; all or nothing. A request
/// beyond the matured total fails with `NoSufficientUnlockedTokens` and leaves
/// the state untouched; a request of zero succeeds at once and changes
/// nothing. On success the returned amount is exactly the request, the new
/// schedule is the old one with the spent front removed, and the matured total
/// has dropped by exactly the request. Withdrawal counters are not touched
/// here; the caller credits the proceeds.
#[verifier::rlimit(60)]
pub fn collect_vested(state: &mut State, now: u64, requested_amount: u128) -> (r: Result<
    u128,
    ContractError,
>)
    requires
        old(state).wf(),
        old(state).balanced(),
    ensures
        final(state).wf(),
        *final(state) == (State {
            vesting_timestamps: final(state).vesting_timestamps,
            vesting_amounts: final(state).vesting_amounts,
            ..*old(state)
        }),
        ({
            let ts0 = old(state).vesting_timestamps@;
            let as0 = old(state).vesting_amounts@;
            match r {
                Ok(v) => {
                    &&& requested_amount <= spec_total_vested(ts0, as0, now)
                    &&& v == requested_amount
                    &&& final(state).vesting_timestamps@ == spec_collect(
                        ts0,
                        as0,
                        now,
                        requested_amount as int,
                    ).0
                    &&& final(state).vesting_amounts@ == spec_collect(
                        ts0,
                        as0,
                        now,
                        requested_amount as int,
                    ).1
                    &&& spec_total_vested(
                        final(state).vesting_timestamps@,
                        final(state).vesting_amounts@,
                        now,
                    ) == spec_total_vested(ts0, as0, now) - requested_amount
                    &&& sum_amounts(final(state).vesting_amounts@) == sum_amounts(as0)
                        - requested_amount
                    &&& (requested_amount == 0 ==> *final(state) == *old(state))
                },
                Err(e) => {
                    &&& e == (ContractError::NoSufficientUnlockedTokens {})
                    &&& requested_amount > spec_total_vested(ts0, as0, now)
                    &&& *final(state) == *old(state)
                },
            }
        }),
{
    proof {
        lemma_sum_nonneg(state.vesting_amounts@);
    }
    let vested = vested_in(&state.vesting_timestamps, &state.vesting_amounts, now);
    if requested_amount > vested {
        return Err(ContractError::NoSufficientUnlockedTokens {});
    }
    let ghost ts0 = state.vesting_timestamps@;
    let ghost as0 = state.vesting_amounts@;
    let mut remaining = requested_amount;
    while remaining > 0
        invariant
            state.wf(),
            *state == (State {
                vesting_timestamps: state.vesting_timestamps,
                vesting_amounts: state.vesting_amounts,
                ..*old(state)
            }),
            remaining <= spec_total_vested(state.vesting_timestamps@, state.vesting_amounts@, now),
            spec_collect(ts0, as0, now, requested_amount as int) == spec_collect(
                state.vesting_timestamps@,
                state.vesting_amounts@,
                now,
                remaining as int,
            ),
            spec_total_vested(state.vesting_timestamps@, state.vesting_amounts@, now) - remaining
                == spec_total_vested(ts0, as0, now) - requested_amount,
            sum_amounts(state.vesting_amounts@) - remaining == sum_amounts(as0) - requested_amount,
            remaining <= requested_amount,
            requested_amount == 0 ==> *state == *old(state),
        decreases remaining,
    {
        let ghost ts_cur = state.vesting_timestamps@;
        let ghost as_cur = state.vesting_amounts@;
        proof {
            if ts_cur.len() == 0 {
                assert(spec_total_vested(ts_cur, as_cur, now) == 0);
                assert(false);
            }
            if ts_cur[0] > now {
                assert forall|j: int| 0 <= j < ts_cur.len() implies ts_cur[j] > now by {
                    lemma_sorted_le(ts_cur, 0, j);
                }
                lemma_vested_unmatured_suffix(ts_cur, as_cur, now, 0);
                assert(ts_cur.take(0) =~= Seq::<u64>::empty());
                assert(as_cur.take(0) =~= Seq::<u128>::empty());
                assert(false);
            }
            lemma_vested_drop_first(ts_cur, as_cur, now);
            lemma_sum_drop_first(as_cur);
        }
        let front = state.vesting_amounts[0];
        if front < remaining {
            state.vesting_timestamps.remove(0);
            state.vesting_amounts.remove(0);
            remaining = remaining - front;
            proof {
                assert(state.vesting_timestamps@ =~= ts_cur.drop_first());
                assert(state.vesting_amounts@ =~= as_cur.drop_first());
            }
        } else if front == remaining {
            state.vesting_timestamps.remove(0);
            state.vesting_amounts.remove(0);
            remaining = 0;
            proof {
                assert(state.vesting_timestamps@ =~= ts_cur.drop_first());
                assert(state.vesting_amounts@ =~= as_cur.drop_first());
            }
        } else {
            proof {
                lemma_front_update(ts_cur, as_cur, now, (front - remaining) as u128);
            }
            let reduced = front - remaining;
            state.vesting_amounts.set(0, reduced);
            remaining = 0;
        }
    }
    Ok(requested_amount)
}

/// Appends the bank transfer that pays out freshly collected tokens to the
/// unlock distribution address; a zero amount sends nothing.
pub fn distribute_vested(state: &State, amount: u128, response: Response) -> (r: Result<
    Response,
    ContractError,
>)
    ensures
        r is Ok,
        r matches Ok(resp) ==> {
            &&& resp.attributes@ == response.attributes@
            &&& resp.messages@ == if amount == 0 {
                response.messages@
            } else {
                response.messages@.push(Action::Send {
                    to_address: state.unlock_distribution_address,
                    amount,
                    denom: state.denom,
                })
            }
        },
{
    if amount == 0 {
        return Ok(response);
    }
    let to_address = clone_string(&state.unlock_distribution_address);
    let denom = clone_string(&state.denom);
    Ok(response.add_message(Action::Send { to_address, amount, denom }))
}

} // verus!
