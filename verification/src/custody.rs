use vstd::prelude::*;
use crate::identity::Pubkey;

verus! {

/// An instruction to the custody service: create `amount` units of the asset
/// `mint` in the account `to`, on the authority of `authority`.
#[derive(Clone, Copy, Debug, PartialEq, Eq)]
pub struct MintTo {
    pub mint: Pubkey,
    pub to: Pubkey,
    pub authority: Pubkey,
    pub amount: u64,
}

/// An instruction to the custody service: move `amount` units from the
/// account `from` to the account `to`, on the authority of `authority`.
#[derive(Clone, Copy, Debug, PartialEq, Eq)]
pub struct Transfer {
    pub from: Pubkey,
    pub to: Pubkey,
    pub authority: Pubkey,
    pub amount: u64,
}

} // verus!
