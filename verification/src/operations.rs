use vstd::prelude::*;
use crate::clock::current_slot;
use crate::custody::{MintTo, Transfer};
use crate::error::StakingError;
use crate::identity::{Party, Pubkey};
use crate::state::{PoolInfo, Settlement, UserInfo};

verus! {

/// What `initialize` works on. `stake_pool` is the place of the pool record:
/// `None` while nothing has been created there.
#[derive(Clone, Copy, Debug, PartialEq, Eq)]
pub struct Initialize {
    pub owner: Party,
    pub stake_pool: Option<PoolInfo>,
    pub stakable_token: Pubkey,
    pub owner_staking_wallet: Pubkey,
}

/// What `stake` works on: the pool, the depositing participant, the
/// custodian as named by the caller, the position, the participant's holding
/// account, the custodian's vault and the asset.
#[derive(Clone, Copy, Debug, PartialEq, Eq)]
pub struct Stake {
    pub pool: PoolInfo,
    pub user: Party,
    pub owner: Party,
    pub stakeholder: UserInfo,
    pub user_staking_wallet: Pubkey,
    pub owner_staking_wallet: Pubkey,
    pub stakable_token: Pubkey,
}

/// What `unstake` works on.
#[derive(Clone, Copy, Debug, PartialEq, Eq)]
pub struct Unstake {
    pub pool: PoolInfo,
    pub user: Party,
    pub owner: Party,
    pub stakeholder: UserInfo,
    pub user_staking_wallet: Pubkey,
    pub owner_staking_wallet: Pubkey,
    pub stakable_token: Pubkey,
}

/// What `claim_reward` works on.
#[derive(Clone, Copy, Debug, PartialEq, Eq)]
pub struct ClaimReward {
    pub pool: PoolInfo,
    pub user: Party,
    pub owner: Party,
    pub stakeholder: UserInfo,
    pub user_staking_wallet: Pubkey,
    pub owner_staking_wallet: Pubkey,
    pub stakable_token: Pubkey,
}

/// The custody instructions of a deposit, in the order in which the host
/// performs them: the reward of a position that was live, then the deposit.
#[derive(Clone, Copy, Debug, PartialEq, Eq)]
pub struct StakeInstructions {
    pub reward: Option<MintTo>,
    pub deposit: Transfer,
}

/// The custody instructions of a withdrawal, in the order in which the host
/// performs them.
#[derive(Clone, Copy, Debug, PartialEq, Eq)]
pub struct UnstakeInstructions {
    pub reward: MintTo,
    pub withdrawal: Transfer,
}

/// The pool record that `initialize` creates.
pub open spec fn created_pool(ctx: Initialize, start_time: u64, end_time: u64) -> PoolInfo {
    PoolInfo { owner: ctx.owner.key, start_time, end_time, token: ctx.stakable_token }
}

/// The outcome of `initialize`: the custodian must have signed, and nothing
/// may exist yet at the record's place.
pub open spec fn initialize_outcome(ctx: Initialize, start_time: u64, end_time: u64) -> Result<
    PoolInfo,
    StakingError,
> {
    if !ctx.owner.is_signer {
        Err(StakingError::Unauthorized)
    } else if ctx.stake_pool is Some {
        Err(StakingError::AlreadyInitialized)
    } else {
        Ok(created_pool(ctx, start_time, end_time))
    }
}

/// Creates the pool record. No asset moves.
pub fn initialize(ctx: &mut Initialize, start_time: u64, end_time: u64) -> (done: Result<
    (),
    StakingError,
>)
    ensures
        match initialize_outcome(*old(ctx), start_time, end_time) {
            Ok(pool) => done == Ok::<(), StakingError>(()) && *final(ctx) == (Initialize {
                stake_pool: Some(pool),
                ..*old(ctx)
            }),
            Err(e) => done == Err::<(), StakingError>(e) && *final(ctx) == *old(ctx),
        },
{
    if !ctx.owner.is_signer {
        return Err(StakingError::Unauthorized);
    }
    if ctx.stake_pool.is_some() {
        return Err(StakingError::AlreadyInitialized);
    }
    ctx.stake_pool = Some(
        PoolInfo { owner: ctx.owner.key, start_time, end_time, token: ctx.stakable_token },
    );
    Ok(())
}

/// The mint of `amount` reward units to the participant's holding account,
/// on the custodian's authority.
pub open spec fn reward_mint(
    stakable_token: Pubkey,
    user_staking_wallet: Pubkey,
    owner: Party,
    amount: u64,
) -> MintTo {
    MintTo { mint: stakable_token, to: user_staking_wallet, authority: owner.key, amount }
}

/// A withdrawal or a claim mints and, for a withdrawal, moves the vault's
/// holdings: the custodian named must be the pool's owner and must have
/// signed.
pub open spec fn custodian_authorized(pool: PoolInfo, owner: Party) -> bool {
    owner.key@ == pool.owner@ && owner.is_signer
}

/// A deposit needs the custodian named to be the pool's owner and the
/// participant's signature for the transfer; where the position is live, it
/// also needs the custodian's signature for the mint.
pub open spec fn stake_authorized(ctx: Stake) -> bool {
    &&& ctx.owner.key@ == ctx.pool.owner@
    &&& ctx.user.is_signer
    &&& ctx.stakeholder.is_live() ==> ctx.owner.is_signer
}

/// The custody instructions of a deposit that settles as `s`.
pub open spec fn stake_instructions(ctx: Stake, amount: u64, s: Settlement) -> StakeInstructions {
    StakeInstructions {
        reward: if ctx.stakeholder.is_live() {
            Some(reward_mint(ctx.stakable_token, ctx.user_staking_wallet, ctx.owner, s.minted))
        } else {
            None
        },
        deposit: Transfer {
            from: ctx.user_staking_wallet,
            to: ctx.owner_staking_wallet,
            authority: ctx.user.key,
            amount,
        },
    }
}

/// The custody instructions of a withdrawal that settles as `s`.
pub open spec fn unstake_instructions(ctx: Unstake, s: Settlement) -> UnstakeInstructions {
    UnstakeInstructions {
        reward: reward_mint(ctx.stakable_token, ctx.user_staking_wallet, ctx.owner, s.minted),
        withdrawal: Transfer {
            from: ctx.owner_staking_wallet,
            to: ctx.user_staking_wallet,
            authority: ctx.owner.key,
            amount: s.withdrawn,
        },
    }
}

/// A deposit of `amount` at slot `now` takes `before` to `after` and
/// answers `done`: without authority it is turned down; else it goes as the
/// record's accounting says, and the record alone changes.
pub open spec fn stake_done(
    before: Stake,
    amount: u64,
    now: u64,
    after: Stake,
    done: Result<StakeInstructions, StakingError>,
) -> bool {
    if !stake_authorized(before) {
        done == Err::<StakeInstructions, StakingError>(StakingError::Unauthorized) && after
            == before
    } else {
        match before.stakeholder.stake_outcome(amount, now) {
            Ok(s) => done == Ok::<StakeInstructions, StakingError>(
                stake_instructions(before, amount, s),
            ) && after == (Stake { stakeholder: s.record, ..before }),
            Err(e) => done == Err::<StakeInstructions, StakingError>(e) && after == before,
        }
    }
}

/// A withdrawal at slot `now` takes `before` to `after` and answers `done`.
pub open spec fn unstake_done(
    before: Unstake,
    now: u64,
    after: Unstake,
    done: Result<UnstakeInstructions, StakingError>,
) -> bool {
    if !custodian_authorized(before.pool, before.owner) {
        done == Err::<UnstakeInstructions, StakingError>(StakingError::Unauthorized) && after
            == before
    } else {
        match before.stakeholder.unstake_outcome(now) {
            Ok(s) => done == Ok::<UnstakeInstructions, StakingError>(
                unstake_instructions(before, s),
            ) && after == (Unstake { stakeholder: s.record, ..before }),
            Err(e) => done == Err::<UnstakeInstructions, StakingError>(e) && after == before,
        }
    }
}

/// A claim at slot `now` takes `before` to `after` and answers `done`.
pub open spec fn claim_done(
    before: ClaimReward,
    now: u64,
    after: ClaimReward,
    done: Result<MintTo, StakingError>,
) -> bool {
    if !custodian_authorized(before.pool, before.owner) {
        done == Err::<MintTo, StakingError>(StakingError::Unauthorized) && after == before
    } else {
        match before.stakeholder.claim_outcome(now) {
            Ok(s) => done == Ok::<MintTo, StakingError>(
                reward_mint(
                    before.stakable_token,
                    before.user_staking_wallet,
                    before.owner,
                    s.minted,
                ),
            ) && after == (ClaimReward { stakeholder: s.record, ..before }),
            Err(e) => done == Err::<MintTo, StakingError>(e) && after == before,
        }
    }
}

/// Deposits `amount` into the position at slot `now`. The position may be
/// empty or live: a live one is first paid the reward it is owed. On success
/// the record's amount has grown by `amount`, its deposit slot is `now` and
/// its reward is zero. On failure nothing has changed.
pub fn stake_at(ctx: &mut Stake, amount: u64, now: u64) -> (done: Result<
    StakeInstructions,
    StakingError,
>)
    ensures
        stake_done(*old(ctx), amount, now, *final(ctx), done),
        done is Ok ==> final(ctx).stakeholder.deposit == now && final(ctx).stakeholder.reward == 0
            && final(ctx).stakeholder.within_entitlement(now),
{
    if !ctx.owner.key.same_as(&ctx.pool.owner) || !ctx.user.is_signer {
        return Err(StakingError::Unauthorized);
    }
    let live = ctx.stakeholder.amount > 0;
    if live && !ctx.owner.is_signer {
        return Err(StakingError::Unauthorized);
    }
    match ctx.stakeholder.settle_stake(amount, now) {
        Ok(s) => {
            let reward = if live {
                Some(
                    MintTo {
                        mint: ctx.stakable_token,
                        to: ctx.user_staking_wallet,
                        authority: ctx.owner.key,
                        amount: s.minted,
                    },
                )
            } else {
                None
            };
            let deposit = Transfer {
                from: ctx.user_staking_wallet,
                to: ctx.owner_staking_wallet,
                authority: ctx.user.key,
                amount,
            };
            ctx.stakeholder = s.record;
            Ok(StakeInstructions { reward, deposit })
        },
        Err(e) => Err(e),
    }
}

/// Closes the position at slot `now`: the reward owed is minted, the whole
/// staked amount goes back to the participant, and the record is zeroed.
/// On failure nothing has changed.
pub fn unstake_at(ctx: &mut Unstake, now: u64) -> (done: Result<UnstakeInstructions, StakingError>)
    ensures
        unstake_done(*old(ctx), now, *final(ctx), done),
        done is Ok ==> final(ctx).stakeholder == (UserInfo { amount: 0, reward: 0, deposit: 0 }),
{
    if !ctx.owner.key.same_as(&ctx.pool.owner) || !ctx.owner.is_signer {
        return Err(StakingError::Unauthorized);
    }
    match ctx.stakeholder.settle_unstake(now) {
        Ok(s) => {
            let reward = MintTo {
                mint: ctx.stakable_token,
                to: ctx.user_staking_wallet,
                authority: ctx.owner.key,
                amount: s.minted,
            };
            let withdrawal = Transfer {
                from: ctx.owner_staking_wallet,
                to: ctx.user_staking_wallet,
                authority: ctx.owner.key,
                amount: s.withdrawn,
            };
            ctx.stakeholder = s.record;
            Ok(UnstakeInstructions { reward, withdrawal })
        },
        Err(e) => Err(e),
    }
}

/// Pays the position the reward accrued since the last payment, at slot
/// `now`. The staked amount and the deposit slot stay; `reward` becomes the
/// whole entitlement since the deposit, so it never falls and never exceeds
/// `now - deposit`. On failure nothing has changed.
pub fn claim_reward_at(ctx: &mut ClaimReward, now: u64) -> (done: Result<MintTo, StakingError>)
    ensures
        claim_done(*old(ctx), now, *final(ctx), done),
        final(ctx).stakeholder.reward >= old(ctx).stakeholder.reward,
        done is Ok ==> final(ctx).stakeholder.within_entitlement(now),
{
    if !ctx.owner.key.same_as(&ctx.pool.owner) || !ctx.owner.is_signer {
        return Err(StakingError::Unauthorized);
    }
    match ctx.stakeholder.settle_claim(now) {
        Ok(s) => {
            let reward = MintTo {
                mint: ctx.stakable_token,
                to: ctx.user_staking_wallet,
                authority: ctx.owner.key,
                amount: s.minted,
            };
            ctx.stakeholder = s.record;
            Ok(reward)
        },
        Err(e) => Err(e),
    }
}

/// Deposits `amount` into the position at the slot that the host's clock
/// shows. Without a clock reading nothing changes; with one, the deposit
/// goes as `stake_at` at that slot.
pub fn stake(ctx: &mut Stake, amount: u64) -> (done: Result<StakeInstructions, StakingError>)
    ensures
        (done == Err::<StakeInstructions, StakingError>(StakingError::ClockUnavailable)
            && *final(ctx) == *old(ctx)) || (exists|now: u64| #[trigger]
            stake_done(*old(ctx), amount, now, *final(ctx), done)),
{
    match current_slot() {
        Ok(now) => stake_at(ctx, amount, now),
        Err(_) => Err(StakingError::ClockUnavailable),
    }
}

/// Closes the position at the slot that the host's clock shows. Without a
/// clock reading nothing changes; with one, the withdrawal goes as
/// `unstake_at` at that slot.
pub fn unstake(ctx: &mut Unstake) -> (done: Result<UnstakeInstructions, StakingError>)
    ensures
        (done == Err::<UnstakeInstructions, StakingError>(StakingError::ClockUnavailable)
            && *final(ctx) == *old(ctx)) || (exists|now: u64| #[trigger]
            unstake_done(*old(ctx), now, *final(ctx), done)),
{
    match current_slot() {
        Ok(now) => unstake_at(ctx, now),
        Err(_) => Err(StakingError::ClockUnavailable),
    }
}

/// Pays the position the reward accrued up to the slot that the host's
/// clock shows. Without a clock reading nothing changes; with one, the claim
/// goes as `claim_reward_at` at that slot. Either way the record's reward
/// does not fall.
pub fn claim_reward(ctx: &mut ClaimReward) -> (done: Result<MintTo, StakingError>)
    ensures
        (done == Err::<MintTo, StakingError>(StakingError::ClockUnavailable) && *final(ctx)
            == *old(ctx)) || (exists|now: u64| #[trigger]
            claim_done(*old(ctx), now, *final(ctx), done)),
        final(ctx).stakeholder.reward >= old(ctx).stakeholder.reward,
{
    match current_slot() {
        Ok(now) => claim_reward_at(ctx, now),
        Err(_) => Err(StakingError::ClockUnavailable),
    }
}

} // verus!
