use vstd::prelude::*;

verus! {

/// Why an operation was turned down. No operation changes any record when it
/// returns one of these.
#[derive(Clone, Copy, Debug, PartialEq, Eq, Structural)]
pub enum StakingError {
    /// The custodian named is not the pool's owner, or a party whose
    /// authority a mint or transfer needs has not signed.
    Unauthorized,
    /// Elapsed time or a balance cannot be computed: the slot lies before the
    /// deposit, the deposit slot is zero, more reward is recorded than has
    /// accrued, or the staked amount would exceed the integer range.
    ArithmeticFailure,
    /// The record holds no staked amount.
    NoPosition,
    /// The pool record exists already.
    AlreadyInitialized,
    /// The host gave no clock reading.
    ClockUnavailable,
}

} // verus!
