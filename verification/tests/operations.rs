use gc_staking::{
    claim_reward, claim_reward_at, current_slot, initialize, stake, stake_at, unstake,
    unstake_at, ClaimReward, Initialize, MintTo, Party, PoolInfo, Pubkey, Stake,
    StakeInstructions, StakingError, Transfer, Unstake, UnstakeInstructions, UserInfo,
};

fn key(tag: u8) -> Pubkey {
    Pubkey::new([tag; 32])
}

fn custodian() -> Pubkey {
    key(1)
}

fn participant() -> Pubkey {
    key(2)
}

fn asset() -> Pubkey {
    key(3)
}

fn vault() -> Pubkey {
    key(4)
}

fn wallet() -> Pubkey {
    key(5)
}

fn signed(key: Pubkey) -> Party {
    Party { key, is_signer: true }
}

fn named(key: Pubkey) -> Party {
    Party { key, is_signer: false }
}

fn open_pool() -> PoolInfo {
    let mut ctx = Initialize {
        owner: signed(custodian()),
        stake_pool: None,
        stakable_token: asset(),
        owner_staking_wallet: vault(),
    };
    assert_eq!(initialize(&mut ctx, 0, 1000), Ok(()));
    ctx.stake_pool.unwrap()
}

fn stake_ctx(record: UserInfo) -> Stake {
    Stake {
        pool: open_pool(),
        user: signed(participant()),
        owner: named(custodian()),
        stakeholder: record,
        user_staking_wallet: wallet(),
        owner_staking_wallet: vault(),
        stakable_token: asset(),
    }
}

fn unstake_ctx(record: UserInfo) -> Unstake {
    Unstake {
        pool: open_pool(),
        user: named(participant()),
        owner: signed(custodian()),
        stakeholder: record,
        user_staking_wallet: wallet(),
        owner_staking_wallet: vault(),
        stakable_token: asset(),
    }
}

fn claim_ctx(record: UserInfo) -> ClaimReward {
    ClaimReward {
        pool: open_pool(),
        user: named(participant()),
        owner: signed(custodian()),
        stakeholder: record,
        user_staking_wallet: wallet(),
        owner_staking_wallet: vault(),
        stakable_token: asset(),
    }
}

fn reward(amount: u64) -> MintTo {
    MintTo { mint: asset(), to: wallet(), authority: custodian(), amount }
}

fn record(amount: u64, reward: u64, deposit: u64) -> UserInfo {
    UserInfo { amount, reward, deposit }
}

#[test]
fn initialize_fills_the_pool_record() {
    let pool = open_pool();
    assert_eq!(
        pool,
        PoolInfo { owner: custodian(), start_time: 0, end_time: 1000, token: asset() }
    );
}

#[test]
fn initialize_does_not_order_the_window() {
    let mut ctx = Initialize {
        owner: signed(custodian()),
        stake_pool: None,
        stakable_token: asset(),
        owner_staking_wallet: vault(),
    };
    assert_eq!(initialize(&mut ctx, 900, 100), Ok(()));
    let pool = ctx.stake_pool.unwrap();
    assert_eq!((pool.start_time, pool.end_time), (900, 100));
}

#[test]
fn initialize_needs_the_custodian_signature() {
    let mut ctx = Initialize {
        owner: named(custodian()),
        stake_pool: None,
        stakable_token: asset(),
        owner_staking_wallet: vault(),
    };
    let before = ctx;
    assert_eq!(initialize(&mut ctx, 0, 1000), Err(StakingError::Unauthorized));
    assert_eq!(ctx, before);
}

#[test]
fn initialize_refuses_an_existing_record() {
    let existing = open_pool();
    let mut ctx = Initialize {
        owner: signed(key(9)),
        stake_pool: Some(existing),
        stakable_token: key(8),
        owner_staking_wallet: vault(),
    };
    assert_eq!(initialize(&mut ctx, 5, 6), Err(StakingError::AlreadyInitialized));
    assert_eq!(ctx.stake_pool, Some(existing));
}

#[test]
fn scenario_stake_opens_the_position() {
    let mut ctx = stake_ctx(UserInfo::empty());
    let done = stake_at(&mut ctx, 500, 10);
    assert_eq!(
        done,
        Ok(StakeInstructions {
            reward: None,
            deposit: Transfer {
                from: wallet(),
                to: vault(),
                authority: participant(),
                amount: 500
            },
        })
    );
    assert_eq!(ctx.stakeholder, record(500, 0, 10));
}

#[test]
fn scenario_claim_pays_elapsed_slots() {
    let mut ctx = claim_ctx(record(500, 0, 10));
    assert_eq!(claim_reward_at(&mut ctx, 60), Ok(reward(50)));
    assert_eq!(ctx.stakeholder, record(500, 50, 10));
}

#[test]
fn scenario_second_claim_at_same_slot_pays_nothing() {
    let mut ctx = claim_ctx(record(500, 0, 10));
    assert_eq!(claim_reward_at(&mut ctx, 60), Ok(reward(50)));
    assert_eq!(claim_reward_at(&mut ctx, 60), Ok(reward(0)));
    assert_eq!(ctx.stakeholder, record(500, 50, 10));
}

#[test]
fn scenario_unstake_pays_the_rest_and_returns_the_stake() {
    let mut ctx = unstake_ctx(record(500, 50, 10));
    assert_eq!(
        unstake_at(&mut ctx, 110),
        Ok(UnstakeInstructions {
            reward: reward(50),
            withdrawal: Transfer {
                from: vault(),
                to: wallet(),
                authority: custodian(),
                amount: 500
            },
        })
    );
    assert_eq!(ctx.stakeholder, record(0, 0, 0));
}

#[test]
fn scenarios_in_one_run() {
    let mut s = stake_ctx(UserInfo::empty());
    stake_at(&mut s, 500, 10).unwrap();
    let mut c = claim_ctx(s.stakeholder);
    assert_eq!(claim_reward_at(&mut c, 60).unwrap().amount, 50);
    assert_eq!(claim_reward_at(&mut c, 60).unwrap().amount, 0);
    let mut u = unstake_ctx(c.stakeholder);
    let out = unstake_at(&mut u, 110).unwrap();
    assert_eq!(out.reward.amount, 50);
    assert_eq!(out.withdrawal.amount, 500);
    assert_eq!(u.stakeholder, UserInfo::empty());
}

#[test]
fn stake_on_a_live_position_pays_the_reward_first() {
    let mut ctx = stake_ctx(record(500, 50, 10));
    ctx.owner = signed(custodian());
    let done = stake_at(&mut ctx, 200, 70).unwrap();
    assert_eq!(done.reward, Some(reward(10)));
    assert_eq!(done.deposit.amount, 200);
    assert_eq!(ctx.stakeholder, record(700, 0, 70));
}

#[test]
fn stake_on_a_live_position_needs_the_custodian_signature() {
    let mut ctx = stake_ctx(record(500, 50, 10));
    let before = ctx;
    assert_eq!(stake_at(&mut ctx, 200, 70), Err(StakingError::Unauthorized));
    assert_eq!(ctx, before);
}

#[test]
fn stake_needs_the_participant_signature() {
    let mut ctx = stake_ctx(UserInfo::empty());
    ctx.user = named(participant());
    assert_eq!(stake_at(&mut ctx, 500, 10), Err(StakingError::Unauthorized));
    assert_eq!(ctx.stakeholder, UserInfo::empty());
}

#[test]
fn stake_refuses_a_custodian_that_is_not_the_pool_owner() {
    let mut ctx = stake_ctx(UserInfo::empty());
    ctx.owner = signed(key(77));
    assert_eq!(stake_at(&mut ctx, 500, 10), Err(StakingError::Unauthorized));
    assert_eq!(ctx.stakeholder, UserInfo::empty());
}

#[test]
fn stake_of_nothing_is_accepted() {
    let mut ctx = stake_ctx(UserInfo::empty());
    let done = stake_at(&mut ctx, 0, 10).unwrap();
    assert_eq!(done.reward, None);
    assert_eq!(done.deposit.amount, 0);
    assert_eq!(ctx.stakeholder, record(0, 0, 10));
}

#[test]
fn stake_refuses_an_amount_beyond_the_range() {
    let mut ctx = stake_ctx(record(u64::MAX, 0, 10));
    ctx.owner = signed(custodian());
    let before = ctx;
    assert_eq!(stake_at(&mut ctx, 1, 20), Err(StakingError::ArithmeticFailure));
    assert_eq!(ctx, before);
}

#[test]
fn stake_on_a_live_position_refuses_a_slot_before_the_deposit() {
    let mut ctx = stake_ctx(record(500, 0, 10));
    ctx.owner = signed(custodian());
    assert_eq!(stake_at(&mut ctx, 1, 9), Err(StakingError::ArithmeticFailure));
    assert_eq!(ctx.stakeholder, record(500, 0, 10));
}

#[test]
fn claim_on_an_empty_record_is_refused() {
    let mut ctx = claim_ctx(UserInfo::empty());
    assert_eq!(claim_reward_at(&mut ctx, 60), Err(StakingError::NoPosition));
    assert_eq!(ctx.stakeholder, UserInfo::empty());
}

#[test]
fn unstake_on_an_empty_record_is_refused() {
    let mut ctx = unstake_ctx(UserInfo::empty());
    assert_eq!(unstake_at(&mut ctx, 60), Err(StakingError::NoPosition));
    assert_eq!(ctx.stakeholder, UserInfo::empty());
}

#[test]
fn unstake_twice_is_refused_the_second_time() {
    let mut ctx = unstake_ctx(record(500, 50, 10));
    assert!(unstake_at(&mut ctx, 110).is_ok());
    assert_eq!(unstake_at(&mut ctx, 111), Err(StakingError::NoPosition));
}

#[test]
fn claim_before_the_deposit_slot_is_an_arithmetic_failure() {
    let mut ctx = claim_ctx(record(500, 0, 10));
    assert_eq!(claim_reward_at(&mut ctx, 9), Err(StakingError::ArithmeticFailure));
    assert_eq!(ctx.stakeholder, record(500, 0, 10));
}

#[test]
fn claim_with_more_paid_than_accrued_is_an_arithmetic_failure() {
    let mut ctx = claim_ctx(record(500, 50, 10));
    assert_eq!(claim_reward_at(&mut ctx, 59), Err(StakingError::ArithmeticFailure));
    assert_eq!(ctx.stakeholder, record(500, 50, 10));
}

#[test]
fn claim_with_a_zero_deposit_slot_is_an_arithmetic_failure() {
    let mut ctx = claim_ctx(record(500, 0, 0));
    assert_eq!(claim_reward_at(&mut ctx, 60), Err(StakingError::ArithmeticFailure));
}

#[test]
fn unstake_with_a_zero_deposit_slot_is_an_arithmetic_failure() {
    let mut ctx = unstake_ctx(record(500, 0, 0));
    assert_eq!(unstake_at(&mut ctx, 60), Err(StakingError::ArithmeticFailure));
    assert_eq!(ctx.stakeholder, record(500, 0, 0));
}

#[test]
fn claim_needs_the_custodian_signature() {
    let mut ctx = claim_ctx(record(500, 0, 10));
    ctx.owner = named(custodian());
    assert_eq!(claim_reward_at(&mut ctx, 60), Err(StakingError::Unauthorized));
    assert_eq!(ctx.stakeholder, record(500, 0, 10));
}

#[test]
fn claim_refuses_a_custodian_that_is_not_the_pool_owner() {
    let mut ctx = claim_ctx(record(500, 0, 10));
    ctx.owner = signed(participant());
    assert_eq!(claim_reward_at(&mut ctx, 60), Err(StakingError::Unauthorized));
}

#[test]
fn unstake_needs_the_custodian_signature() {
    let mut ctx = unstake_ctx(record(500, 0, 10));
    ctx.owner = named(custodian());
    assert_eq!(unstake_at(&mut ctx, 60), Err(StakingError::Unauthorized));
    assert_eq!(ctx.stakeholder, record(500, 0, 10));
}

#[test]
fn unstake_refuses_a_custodian_that_is_not_the_pool_owner() {
    let mut ctx = unstake_ctx(record(500, 0, 10));
    ctx.owner = signed(key(200));
    assert_eq!(unstake_at(&mut ctx, 60), Err(StakingError::Unauthorized));
}

#[test]
fn authorization_is_checked_before_the_record() {
    let mut ctx = claim_ctx(UserInfo::empty());
    ctx.owner = named(custodian());
    assert_eq!(claim_reward_at(&mut ctx, 60), Err(StakingError::Unauthorized));
}

#[test]
fn conservation_over_stakes_and_unstakes() {
    let mut position = UserInfo::empty();
    let mut into_vault: u128 = 0;
    let mut out_of_vault: u128 = 0;
    let deposits: [(u64, u64); 3] = [(500, 10), (250, 40), (1, 41)];
    for (amount, now) in deposits {
        let mut ctx = stake_ctx(position);
        ctx.owner = signed(custodian());
        let done = stake_at(&mut ctx, amount, now).unwrap();
        into_vault += u128::from(done.deposit.amount);
        position = ctx.stakeholder;
        assert_eq!(u128::from(position.amount), into_vault - out_of_vault);
    }
    assert_eq!(position.amount, 751);
    let mut ctx = unstake_ctx(position);
    let done = unstake_at(&mut ctx, 90).unwrap();
    out_of_vault += u128::from(done.withdrawal.amount);
    position = ctx.stakeholder;
    assert_eq!(u128::from(position.amount), into_vault - out_of_vault);
    let mut ctx = stake_ctx(position);
    let done = stake_at(&mut ctx, 30, 95).unwrap();
    into_vault += u128::from(done.deposit.amount);
    assert_eq!(u128::from(ctx.stakeholder.amount), into_vault - out_of_vault);
    assert_eq!(ctx.stakeholder.amount, 30);
}

#[test]
fn claims_pay_every_slot_once() {
    let mut ctx = claim_ctx(record(500, 0, 10));
    let mut minted: u64 = 0;
    let elapsed: [u64; 4] = [1, 7, 8, 300];
    for t in elapsed {
        minted += claim_reward_at(&mut ctx, 10 + t).unwrap().amount;
        assert_eq!(minted, t);
        assert_eq!(ctx.stakeholder.reward, t);
    }
    assert_eq!(minted, 300);
}

#[test]
fn reward_never_falls_over_claims() {
    let mut ctx = claim_ctx(record(500, 0, 10));
    let slots: [u64; 6] = [12, 12, 11, 30, 5, 31];
    let mut last: u64 = 0;
    for now in slots {
        let _ = claim_reward_at(&mut ctx, now);
        assert!(ctx.stakeholder.reward >= last);
        last = ctx.stakeholder.reward;
    }
    assert_eq!(last, 21);
    assert_eq!((ctx.stakeholder.amount, ctx.stakeholder.deposit), (500, 10));
}

#[test]
fn no_clock_outside_a_running_program() {
    assert_eq!(current_slot(), Err(StakingError::ClockUnavailable));
}

#[test]
fn stake_without_a_clock_changes_nothing() {
    let mut ctx = stake_ctx(UserInfo::empty());
    let before = ctx;
    assert_eq!(stake(&mut ctx, 500), Err(StakingError::ClockUnavailable));
    assert_eq!(ctx, before);
}

#[test]
fn unstake_without_a_clock_changes_nothing() {
    let mut ctx = unstake_ctx(record(500, 50, 10));
    let before = ctx;
    assert_eq!(unstake(&mut ctx), Err(StakingError::ClockUnavailable));
    assert_eq!(ctx, before);
}

#[test]
fn claim_without_a_clock_changes_nothing() {
    let mut ctx = claim_ctx(record(500, 50, 10));
    let before = ctx;
    assert_eq!(claim_reward(&mut ctx), Err(StakingError::ClockUnavailable));
    assert_eq!(ctx, before);
}
