//! A token-staking ledger: participants lock a fungible asset with a
//! custodian and earn one reward unit per elapsed slot per position.
//!
//! The crate holds the accounting rules. Carrying out mints and transfers
//! belongs to the host: every operation hands back the custody instructions
//! that the host must perform, in order, within the same atomic unit of
//! work. If the custody service refuses one of them, the host must drop the
//! record the operation produced and keep the one it had.
//!
//! Each operation on a position comes in two forms: `stake`, `unstake` and
//! `claim_reward` read the slot from the host's clock, and `stake_at`,
//! `unstake_at` and `claim_reward_at` take it as an argument.
//!
//! Design choices:
//!
//! - A position is one record, handed in by the host with each operation.
//!   Positions are not aggregated by participant, and nothing ties a record
//!   to the participant who opened it.
//! - `stake` works on any record, empty or live. A deposit into a live
//!   position first pays the reward owed and then starts accrual afresh.
//! - Every operation on a position checks the custodian it is given against
//!   the owner in the pool record, and asks for the signature of each party
//!   whose authority a mint or transfer will rest on.
//! - The pool's window of slots is stored and never consulted.
//! - A record is worked on through `&mut`: the host must let one operation
//!   at a time reach a given record.
//! - A record whose deposit slot is zero has no defined elapsed time, so a
//!   position opened at slot zero can be neither claimed nor withdrawn.

pub mod clock;
pub mod custody;
pub mod error;
pub mod identity;
pub mod laws;
pub mod operations;
pub mod state;

pub use clock::{current_slot, slot_of_reading};
pub use custody::{MintTo, Transfer};
pub use error::StakingError;
pub use identity::{Party, Pubkey};
pub use operations::{
    claim_reward, claim_reward_at, initialize, stake, stake_at, unstake, unstake_at, ClaimReward,
    Initialize, Stake, StakeInstructions, Unstake, UnstakeInstructions,
};
pub use state::{PoolInfo, Settlement, UserInfo};
