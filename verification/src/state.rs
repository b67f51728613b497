use vstd::prelude::*;
use crate::error::StakingError;
use crate::identity::Pubkey;

verus! {

/// The pool: who the custodian is, which asset can be staked, and the window
/// of slots the pool was opened for. The window is stored and not enforced.
#[derive(Clone, Copy, Debug, PartialEq, Eq)]
pub struct PoolInfo {
    pub owner: Pubkey,
    pub start_time: u64,
    pub end_time: u64,
    pub token: Pubkey,
}

impl PoolInfo {
    /// Bytes of the persisted record: two identities and two slots.
    pub const LEN: usize = 32 + 8 + 8 + 32;
}

/// One staking position. `amount` is what is staked, `deposit` the slot of
/// the last deposit, `reward` what has been paid out since `deposit`.
/// A record with all fields zero holds no position.
#[derive(Clone, Copy, Debug, PartialEq, Eq, Structural)]
pub struct UserInfo {
    pub amount: u64,
    pub reward: u64,
    pub deposit: u64,
}

/// What one operation does to a position: the record afterwards, the reward
/// units to mint, and the staked units that enter and leave the vault.
#[derive(Clone, Copy, Debug, PartialEq, Eq, Structural)]
pub struct Settlement {
    pub record: UserInfo,
    pub minted: u64,
    pub deposited: u64,
    pub withdrawn: u64,
}

impl UserInfo {
    /// Bytes of the persisted record: three 64-bit fields.
    pub const LEN: usize = 8 + 8 + 8;

    /// The record holds a position.
    pub open spec fn is_live(self) -> bool {
        self.amount > 0
    }

    /// The reward still owed at `now` can be computed: a deposit slot is
    /// recorded, it is not in the future, and no more has been paid than has
    /// accrued.
    pub open spec fn accrual_defined(self, now: u64) -> bool {
        self.deposit != 0 && self.deposit <= now && self.reward <= now - self.deposit
    }

    /// Entitlement at `now` less what was paid: one unit per elapsed slot.
    pub open spec fn owed(self, now: u64) -> int {
        (now - self.deposit) - self.reward
    }

    /// The accounting invariant at `now`: a record with a deposit slot has
    /// been paid no more than has accrued since that slot.
    pub open spec fn within_entitlement(self, now: u64) -> bool {
        self.deposit != 0 ==> self.deposit <= now && self.reward <= now - self.deposit
    }

    /// The reward still owed at `now`, or the arithmetic failure.
    pub open spec fn pending(self, now: u64) -> Result<u64, StakingError> {
        if self.accrual_defined(now) {
            Ok(self.owed(now) as u64)
        } else {
            Err(StakingError::ArithmeticFailure)
        }
    }

    /// A deposit of `amount` at `now`. A live position is first paid what
    /// it is owed; then the amount grows and accrual starts afresh at `now`.
    pub open spec fn stake_outcome(self, amount: u64, now: u64) -> Result<
        Settlement,
        StakingError,
    > {
        if self.is_live() && !self.accrual_defined(now) {
            Err(StakingError::ArithmeticFailure)
        } else if self.amount + amount > u64::MAX {
            Err(StakingError::ArithmeticFailure)
        } else {
            Ok(
                Settlement {
                    record: UserInfo {
                        amount: (self.amount + amount) as u64,
                        reward: 0,
                        deposit: now,
                    },
                    minted: if self.is_live() {
                        self.owed(now) as u64
                    } else {
                        0
                    },
                    deposited: amount,
                    withdrawn: 0,
                },
            )
        }
    }

    /// A withdrawal at `now`: the position is paid what it is owed, the whole
    /// amount leaves the vault, and the record is zeroed.
    pub open spec fn unstake_outcome(self, now: u64) -> Result<Settlement, StakingError> {
        if !self.is_live() {
            Err(StakingError::NoPosition)
        } else if !self.accrual_defined(now) {
            Err(StakingError::ArithmeticFailure)
        } else {
            Ok(
                Settlement {
                    record: UserInfo { amount: 0, reward: 0, deposit: 0 },
                    minted: self.owed(now) as u64,
                    deposited: 0,
                    withdrawn: self.amount,
                },
            )
        }
    }

    /// A claim at `now`: the position is paid what it is owed, and `reward`
    /// becomes the whole entitlement since `deposit`.
    pub open spec fn claim_outcome(self, now: u64) -> Result<Settlement, StakingError> {
        if !self.is_live() {
            Err(StakingError::NoPosition)
        } else if !self.accrual_defined(now) {
            Err(StakingError::ArithmeticFailure)
        } else {
            Ok(
                Settlement {
                    record: UserInfo {
                        amount: self.amount,
                        reward: (now - self.deposit) as u64,
                        deposit: self.deposit,
                    },
                    minted: self.owed(now) as u64,
                    deposited: 0,
                    withdrawn: 0,
                },
            )
        }
    }

    /// A record that holds no position.
    pub fn empty() -> (record: UserInfo)
        ensures
            record == (UserInfo { amount: 0, reward: 0, deposit: 0 }),
    {
        UserInfo { amount: 0, reward: 0, deposit: 0 }
    }

    /// The reward accrued since `deposit` and not yet paid, at slot `now`.
    pub fn pending_reward(&self, now: u64) -> (owed: Result<u64, StakingError>)
        ensures
            owed == self.pending(now),
    {
        if self.deposit == 0 || now < self.deposit {
            return Err(StakingError::ArithmeticFailure);
        }
        let elapsed: u64 = now - self.deposit;
        if elapsed < self.reward {
            return Err(StakingError::ArithmeticFailure);
        }
        Ok(elapsed - self.reward)
    }

    /// Works out a deposit of `amount` at slot `now`.
    pub fn settle_stake(&self, amount: u64, now: u64) -> (outcome: Result<Settlement, StakingError>)
        ensures
            outcome == self.stake_outcome(amount, now),
            outcome matches Ok(s) ==> s.record.within_entitlement(now),
    {
        let mut minted: u64 = 0;
        if self.amount > 0 {
            match self.pending_reward(now) {
                Ok(owed) => {
                    minted = owed;
                },
                Err(e) => {
                    return Err(e);
                },
            }
        }
        match self.amount.checked_add(amount) {
            Some(total) => Ok(
                Settlement {
                    record: UserInfo { amount: total, reward: 0, deposit: now },
                    minted,
                    deposited: amount,
                    withdrawn: 0,
                },
            ),
            None => Err(StakingError::ArithmeticFailure),
        }
    }

    /// Works out the withdrawal of the whole position at slot `now`.
    pub fn settle_unstake(&self, now: u64) -> (outcome: Result<Settlement, StakingError>)
        ensures
            outcome == self.unstake_outcome(now),
            outcome matches Ok(s) ==> s.record.within_entitlement(now),
    {
        if self.amount == 0 {
            return Err(StakingError::NoPosition);
        }
        match self.pending_reward(now) {
            Ok(owed) => Ok(
                Settlement {
                    record: UserInfo { amount: 0, reward: 0, deposit: 0 },
                    minted: owed,
                    deposited: 0,
                    withdrawn: self.amount,
                },
            ),
            Err(e) => Err(e),
        }
    }

    /// Works out a claim at slot `now`.
    pub fn settle_claim(&self, now: u64) -> (outcome: Result<Settlement, StakingError>)
        ensures
            outcome == self.claim_outcome(now),
            outcome matches Ok(s) ==> s.record.reward >= self.reward
                && s.record.reward == self.reward + s.minted
                && s.record.within_entitlement(now),
    {
        if self.amount == 0 {
            return Err(StakingError::NoPosition);
        }
        match self.pending_reward(now) {
            Ok(owed) => Ok(
                Settlement {
                    record: UserInfo {
                        amount: self.amount,
                        reward: self.reward + owed,
                        deposit: self.deposit,
                    },
                    minted: owed,
                    deposited: 0,
                    withdrawn: 0,
                },
            ),
            Err(e) => Err(e),
        }
    }
}

} // verus!
