//! What holds of a position over whole histories of operations.
//!
//! A history is a sequence of requests made on one record, each at the slot
//! the host's clock gave. A request that is turned down leaves the record as
//! it was and moves nothing, so the laws hold of histories with rejected
//! requests in them too.

use vstd::prelude::*;
use crate::custody::MintTo;
use crate::error::StakingError;
use crate::operations::{
    claim_done, stake_done, unstake_done, ClaimReward, Stake, StakeInstructions, Unstake,
    UnstakeInstructions,
};
use crate::state::{Settlement, UserInfo};

verus! {

/// One request on a position, with the slot at which it is made.
#[derive(Clone, Copy, Debug, PartialEq, Eq, Structural)]
pub enum Operation {
    Stake { amount: u64, now: u64 },
    Unstake { now: u64 },
    ClaimReward { now: u64 },
}

impl Operation {
    /// The slot at which the request is made.
    pub open spec fn slot(self) -> u64 {
        match self {
            Operation::Stake { now, .. } => now,
            Operation::Unstake { now } => now,
            Operation::ClaimReward { now } => now,
        }
    }

    /// What the request does to `record`, or why it is turned down.
    pub open spec fn outcome(self, record: UserInfo) -> Result<Settlement, StakingError> {
        match self {
            Operation::Stake { amount, now } => record.stake_outcome(amount, now),
            Operation::Unstake { now } => record.unstake_outcome(now),
            Operation::ClaimReward { now } => record.claim_outcome(now),
        }
    }

    /// What the request does to `record`; a request that is turned down
    /// changes and moves nothing.
    pub open spec fn effect(self, record: UserInfo) -> Settlement {
        match self.outcome(record) {
            Ok(s) => s,
            Err(_) => Settlement { record, minted: 0, deposited: 0, withdrawn: 0 },
        }
    }
}

/// The record after the requests of `history`, made in order on `start`.
pub open spec fn record_after(start: UserInfo, history: Seq<Operation>) -> UserInfo
    decreases history.len(),
{
    if history.len() == 0 {
        start
    } else {
        history.last().effect(record_after(start, history.drop_last())).record
    }
}

/// The reward units minted over `history`.
pub open spec fn total_minted(start: UserInfo, history: Seq<Operation>) -> int
    decreases history.len(),
{
    if history.len() == 0 {
        0
    } else {
        total_minted(start, history.drop_last()) + history.last().effect(
            record_after(start, history.drop_last()),
        ).minted
    }
}

/// The staked units moved into the vault over `history`.
pub open spec fn total_deposited(start: UserInfo, history: Seq<Operation>) -> int
    decreases history.len(),
{
    if history.len() == 0 {
        0
    } else {
        total_deposited(start, history.drop_last()) + history.last().effect(
            record_after(start, history.drop_last()),
        ).deposited
    }
}

/// The staked units moved out of the vault over `history`.
pub open spec fn total_withdrawn(start: UserInfo, history: Seq<Operation>) -> int
    decreases history.len(),
{
    if history.len() == 0 {
        0
    } else {
        total_withdrawn(start, history.drop_last()) + history.last().effect(
            record_after(start, history.drop_last()),
        ).withdrawn
    }
}

/// Claims made when `elapsed[i]` slots have passed since the slot `deposit`.
pub open spec fn claims_at(deposit: u64, elapsed: Seq<u64>) -> Seq<Operation> {
    Seq::new(
        elapsed.len(),
        |i: int| Operation::ClaimReward { now: (deposit + elapsed[i]) as u64 },
    )
}

/// The slots of `history` never go back, and none lies before `from`.
pub open spec fn clock_ordered(from: u64, history: Seq<Operation>) -> bool {
    &&& forall|i: int| 0 <= i < history.len() ==> from <= (#[trigger] history[i]).slot()
    &&& forall|i: int, j: int|
        0 <= i <= j < history.len() ==> (#[trigger] history[i]).slot() <= (
        #[trigger] history[j]).slot()
}

/// Conservation: over any history, what went into the vault less what came
/// out of it is what the position's amount has grown by. For a position that
/// started empty, it is the position's amount.
pub proof fn lemma_conservation(start: UserInfo, history: Seq<Operation>)
    ensures
        record_after(start, history).amount == start.amount + total_deposited(start, history)
            - total_withdrawn(start, history),
        start.amount == 0 ==> record_after(start, history).amount == total_deposited(
            start,
            history,
        ) - total_withdrawn(start, history),
    decreases history.len(),
{
    if history.len() > 0 {
        lemma_conservation(start, history.drop_last());
    }
}

/// No double payment: claims on a live position at strictly growing elapsed
/// times since the deposit, the first of them not before what was paid
/// already, mint in all the last elapsed time less what was paid already.
/// After a fresh deposit, when nothing was paid yet, that is the last
/// elapsed time exactly.
pub proof fn lemma_claims_pay_each_slot_once(start: UserInfo, elapsed: Seq<u64>)
    requires
        start.is_live(),
        start.deposit != 0,
        elapsed.len() > 0,
        forall|i: int, j: int| 0 <= i < j < elapsed.len() ==> elapsed[i] < elapsed[j],
        start.reward <= elapsed[0],
        start.deposit + elapsed.last() <= u64::MAX,
    ensures
        total_minted(start, claims_at(start.deposit, elapsed)) == elapsed.last() - start.reward,
        start.reward == 0 ==> total_minted(start, claims_at(start.deposit, elapsed))
            == elapsed.last(),
        record_after(start, claims_at(start.deposit, elapsed)) == (UserInfo {
            reward: elapsed.last(),
            ..start
        }),
    decreases elapsed.len(),
{
    let claims = claims_at(start.deposit, elapsed);
    let earlier = elapsed.drop_last();
    assert(claims.drop_last() =~= claims_at(start.deposit, earlier));
    assert(claims.last() == Operation::ClaimReward {
        now: (start.deposit + elapsed.last()) as u64,
    });
    let before = record_after(start, claims.drop_last());
    if earlier.len() > 0 {
        assert(earlier.last() == elapsed[elapsed.len() - 2]);
        assert(earlier[0] == elapsed[0]);
        lemma_claims_pay_each_slot_once(start, earlier);
        assert(before.reward == earlier.last());
    } else {
        assert(elapsed.last() == elapsed[0]);
        assert(before == start);
        assert(total_minted(start, claims.drop_last()) == 0);
    }
    assert(before.accrual_defined(claims.last().slot()));
    assert(total_minted(start, claims) == total_minted(start, claims.drop_last())
        + claims.last().effect(before).minted);
}

/// Reward monotonicity: over any history of claims, whatever their slots,
/// the position's reward never falls, and its amount and deposit slot stay.
pub proof fn lemma_claims_never_lower_reward(start: UserInfo, history: Seq<Operation>)
    requires
        forall|i: int| 0 <= i < history.len() ==> history[i] is ClaimReward,
    ensures
        record_after(start, history).reward >= start.reward,
        record_after(start, history).amount == start.amount,
        record_after(start, history).deposit == start.deposit,
    decreases history.len(),
{
    if history.len() > 0 {
        lemma_claims_never_lower_reward(start, history.drop_last());
    }
}

/// The accounting invariant: if a record has been paid no more than had
/// accrued at slot `from`, then after any history whose slots never go back
/// it has been paid no more than has accrued at the slot of the last
/// request.
pub proof fn lemma_reward_within_entitlement(start: UserInfo, from: u64, history: Seq<Operation>)
    requires
        start.within_entitlement(from),
        clock_ordered(from, history),
    ensures
        record_after(start, history).within_entitlement(
            if history.len() == 0 {
                from
            } else {
                history.last().slot()
            },
        ),
    decreases history.len(),
{
    if history.len() > 0 {
        let earlier = history.drop_last();
        assert(clock_ordered(from, earlier)) by {
            assert forall|i: int| 0 <= i < earlier.len() implies from <= (
            #[trigger] earlier[i]).slot() by {
                assert(earlier[i] == history[i]);
            }
            assert forall|i: int, j: int| 0 <= i <= j < earlier.len() implies (
            #[trigger] earlier[i]).slot() <= (#[trigger] earlier[j]).slot() by {
                assert(earlier[i] == history[i]);
                assert(earlier[j] == history[j]);
            }
        }
        lemma_reward_within_entitlement(start, from, earlier);
        if earlier.len() > 0 {
            assert(earlier.last() == history[history.len() - 2]);
            assert(history.last() == history[history.len() - 1]);
        } else {
            assert(history.last() == history[0]);
        }
    }
}

/// A second claim at the slot of a first one that succeeded succeeds too,
/// mints nothing and leaves the record as the first one left it.
pub proof fn lemma_second_claim_pays_nothing(record: UserInfo, now: u64)
    requires
        record.claim_outcome(now) is Ok,
    ensures
        record.claim_outcome(now).unwrap().record.claim_outcome(now) == Ok::<
            Settlement,
            StakingError,
        >(
            Settlement {
                record: record.claim_outcome(now).unwrap().record,
                minted: 0,
                deposited: 0,
                withdrawn: 0,
            },
        ),
{
}

/// The reward of a record falls only where a deposit or a withdrawal that
/// succeeds starts the accounting afresh: then it falls to zero. Every other
/// request, and every request that is turned down, leaves it as it was or
/// raises it.
pub proof fn lemma_reward_falls_only_at_reset(record: UserInfo, request: Operation)
    ensures
        request.effect(record).record.reward >= record.reward || {
            &&& request is Stake || request is Unstake
            &&& request.outcome(record) is Ok
            &&& request.effect(record).record.reward == 0
        },
{
}

/// The instructions of a deposit name authorities that have signed it: the
/// participant for the transfer into the vault and, where a reward is
/// minted, the pool's owner.
pub proof fn lemma_stake_names_signed_authorities(
    before: Stake,
    amount: u64,
    now: u64,
    after: Stake,
    instructions: StakeInstructions,
)
    requires
        stake_done(before, amount, now, after, Ok::<StakeInstructions, StakingError>(instructions)),
    ensures
        instructions.deposit.authority == before.user.key,
        before.user.is_signer,
        instructions.reward matches Some(mint) ==> mint.authority@ == before.pool.owner@
            && before.owner.is_signer,
{
}

/// The instructions of a withdrawal name the pool's owner as the authority
/// of the mint and of the transfer out of the vault, and the owner has
/// signed.
pub proof fn lemma_unstake_names_signed_authority(
    before: Unstake,
    now: u64,
    after: Unstake,
    instructions: UnstakeInstructions,
)
    requires
        unstake_done(before, now, after, Ok::<UnstakeInstructions, StakingError>(instructions)),
    ensures
        instructions.reward.authority@ == before.pool.owner@,
        instructions.withdrawal.authority@ == before.pool.owner@,
        before.owner.is_signer,
{
}

/// The mint of a claim names the pool's owner as its authority, and the
/// owner has signed.
pub proof fn lemma_claim_names_signed_authority(
    before: ClaimReward,
    now: u64,
    after: ClaimReward,
    mint: MintTo,
)
    requires
        claim_done(before, now, after, Ok::<MintTo, StakingError>(mint)),
    ensures
        mint.authority@ == before.pool.owner@,
        before.owner.is_signer,
{
}

} // verus!
