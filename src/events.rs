use vstd::prelude::*;

use crate::state::Address;

verus! {

/// A vault was created.
#[derive(Clone, Copy, Debug, PartialEq, Eq)]
pub struct VaultInitialized {
    pub authority: Address,
    pub asset_mint: Address,
    pub shares_mint: Address,
    pub vault_id: u64,
}

/// Assets came in and shares went out.
#[derive(Clone, Copy, Debug, PartialEq, Eq)]
pub struct Deposit {
    pub caller: Address,
    pub owner: Address,
    pub assets: u64,
    pub shares: u64,
}

/// Shares were burned and assets went out.
#[derive(Clone, Copy, Debug, PartialEq, Eq)]
pub struct Withdraw {
    pub caller: Address,
    pub receiver: Address,
    pub owner: Address,
    pub assets: u64,
    pub shares: u64,
}

/// The cached asset total was overwritten with the custody balance.
#[derive(Clone, Copy, Debug, PartialEq, Eq)]
pub struct VaultSynced {
    pub previous_total: u64,
    pub new_total: u64,
}

/// The pause flag changed.
#[derive(Clone, Copy, Debug, PartialEq, Eq)]
pub struct VaultStatusChanged {
    pub paused: bool,
}

/// Control of the vault passed to another identity.
#[derive(Clone, Copy, Debug, PartialEq, Eq)]
pub struct AuthorityTransferred {
    pub previous_authority: Address,
    pub new_authority: Address,
}

} // verus!
