//! The host's clock: the one thing the ledger asks of the runtime itself.

use vstd::prelude::*;
use anchor_lang::solana_program::clock::Clock;
use anchor_lang::solana_program::program_error::ProgramError;
use anchor_lang::solana_program::sysvar::Sysvar;
use crate::error::StakingError;

verus! {

#[verifier::external_type_specification]
#[verifier::external_body]
pub struct ExProgramError(ProgramError);

/// Calls `Sysvar::get` of solana_program's `Clock` and hands on the `slot`
/// field of the clock it returns, or the runtime's error as it came.
/// Trusted, and nothing is claimed of the result: which slot comes back, or
/// whether one does, is the runtime's matter.
#[verifier::external_body]
fn clock_slot() -> (slot: Result<u64, ProgramError>) {
    Clock::get().map(|clock| clock.slot)
}

/// The slot that the host's clock shows. Where the host gives none, as
/// outside a running program, the answer is `ClockUnavailable`.
pub fn current_slot() -> (now: Result<u64, StakingError>)
    ensures
        now matches Err(e) ==> e == StakingError::ClockUnavailable,
{
    slot_of_reading(clock_slot())
}

/// What a reading of the runtime's clock means to the ledger: a slot is
/// taken as it is, and any error of the runtime is `ClockUnavailable`.
pub open spec fn reading_outcome(reading: Result<u64, ProgramError>) -> Result<
    u64,
    StakingError,
> {
    match reading {
        Ok(slot) => Ok(slot),
        Err(_) => Err(StakingError::ClockUnavailable),
    }
}

/// Turns a reading of the runtime's clock into the slot it holds, or into
/// `ClockUnavailable` where the runtime answered with an error.
pub fn slot_of_reading(reading: Result<u64, ProgramError>) -> (now: Result<u64, StakingError>)
    ensures
        now == reading_outcome(reading),
{
    match reading {
        Ok(slot) => Ok(slot),
        Err(_) => Err(StakingError::ClockUnavailable),
    }
}

} // verus!
