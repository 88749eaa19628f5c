use vstd::prelude::*;

verus! {

/// A 32-byte account identity (wallet, mint or token account).
pub type Address = [u8; 32];

/// Largest accepted decimal count of the asset.
pub const MAX_DECIMALS: u8 = 9;

/// Smallest accepted deposit, in asset base units.
pub const MIN_DEPOSIT_AMOUNT: u64 = 1000;

/// Persistent state of one vault.
#[derive(Clone, Copy, Debug, PartialEq, Eq)]
pub struct Vault {
    /// Identity allowed to pause, unpause, sync and hand over control.
    pub authority: Address,
    /// The base asset token.
    pub asset_mint: Address,
    /// The shares token.
    pub shares_mint: Address,
    /// The custody account that holds the vault's assets.
    pub asset_vault: Address,
    /// Cached asset total; drifts from custody only until `sync`.
    pub total_assets: u64,
    /// Exponent of the virtual share offset, `9 - asset decimals`; fixed at creation.
    pub decimals_offset: u8,
    /// Seed disambiguator of the vault's derived identity.
    pub bump: u8,
    /// Emergency stop.
    pub paused: bool,
    /// Tells apart several vaults over one asset.
    pub vault_id: u64,
    /// Room for later fields.
    pub reserved: [u8; 64],
}

/// Whether two addresses hold the same bytes.
pub fn same_address(a: &Address, b: &Address) -> (r: bool)
    ensures
        r == (a@ == b@),
{
    let mut i: usize = 0;
    while i < 32
        invariant
            i <= 32,
            forall|j: int| 0 <= j < i ==> a@[j] == b@[j],
        decreases 32 - i,
    {
        if a[i] != b[i] {
            return false;
        }
        i = i + 1;
    }
    assert(a@ =~= b@);
    true
}

} // verus!
