use vstd::prelude::*;

use crate::error::VaultError;
use crate::events::{AuthorityTransferred, Deposit, VaultInitialized, VaultStatusChanged, VaultSynced, Withdraw};
use crate::math::{assets_for_shares, convert_to_assets, convert_to_shares, shares_for_assets, Rounding};
use crate::state::{same_address, Address, Vault, MAX_DECIMALS, MIN_DEPOSIT_AMOUNT};

verus! {

impl Vault {
    /// The offset is the one fixed at creation from the asset's decimals.
    pub open spec fn wf(self) -> bool {
        self.decimals_offset <= MAX_DECIMALS
    }

    /// Shares minted for a deposit of `assets`, or why the deposit is refused.
    pub open spec fn deposit_shares(self, assets: u64, min_shares_out: u64, total_shares: u64) -> Result<u64, VaultError> {
        if self.paused {
            Err(VaultError::VaultPaused)
        } else if assets == 0 {
            Err(VaultError::ZeroAmount)
        } else if assets < MIN_DEPOSIT_AMOUNT {
            Err(VaultError::DepositTooSmall)
        } else {
            match shares_for_assets(assets, self.total_assets, total_shares, self.decimals_offset, Rounding::Floor) {
                Err(e) => Err(e),
                Ok(shares) => if shares < min_shares_out {
                    Err(VaultError::SlippageExceeded)
                } else if self.total_assets + assets > u64::MAX {
                    Err(VaultError::MathOverflow)
                } else {
                    Ok(shares)
                },
            }
        }
    }

    /// Assets owed for minting exactly `shares`, or why the mint is refused.
    pub open spec fn mint_assets(self, shares: u64, max_assets_in: u64, total_shares: u64) -> Result<u64, VaultError> {
        if self.paused {
            Err(VaultError::VaultPaused)
        } else if shares == 0 {
            Err(VaultError::ZeroAmount)
        } else {
            match assets_for_shares(shares, self.total_assets, total_shares, self.decimals_offset, Rounding::Ceiling) {
                Err(e) => Err(e),
                Ok(assets) => if assets > max_assets_in {
                    Err(VaultError::SlippageExceeded)
                } else if self.total_assets + assets > u64::MAX {
                    Err(VaultError::MathOverflow)
                } else {
                    Ok(assets)
                },
            }
        }
    }

    /// Shares burned to withdraw exactly `assets` before the holder's balance is consulted.
    pub open spec fn withdraw_shares_priced(self, assets: u64, max_shares_in: u64, total_shares: u64) -> Result<u64, VaultError> {
        if self.paused {
            Err(VaultError::VaultPaused)
        } else if assets == 0 {
            Err(VaultError::ZeroAmount)
        } else {
            match shares_for_assets(assets, self.total_assets, total_shares, self.decimals_offset, Rounding::Ceiling) {
                Err(e) => Err(e),
                Ok(shares) => if shares > max_shares_in {
                    Err(VaultError::SlippageExceeded)
                } else {
                    Ok(shares)
                },
            }
        }
    }

    /// Shares burned to withdraw exactly `assets`, or why the withdrawal is refused.
    pub open spec fn withdraw_shares(
        self,
        assets: u64,
        max_shares_in: u64,
        total_shares: u64,
        owner_shares: u64,
    ) -> Result<u64, VaultError> {
        match self.withdraw_shares_priced(assets, max_shares_in, total_shares) {
            Err(e) => Err(e),
            Ok(shares) => if owner_shares < shares {
                Err(VaultError::InsufficientShares)
            } else if assets > self.total_assets {
                Err(VaultError::InsufficientAssets)
            } else {
                Ok(shares)
            },
        }
    }

    /// Assets paid out for `shares` before the holder's balance is consulted.
    pub open spec fn redeem_assets_priced(self, shares: u64, min_assets_out: u64, total_shares: u64) -> Result<u64, VaultError> {
        match assets_for_shares(shares, self.total_assets, total_shares, self.decimals_offset, Rounding::Floor) {
            Err(e) => Err(e),
            Ok(assets) => if assets < min_assets_out {
                Err(VaultError::SlippageExceeded)
            } else if assets > self.total_assets {
                Err(VaultError::InsufficientAssets)
            } else {
                Ok(assets)
            },
        }
    }

    /// Assets paid out for redeeming `shares`, or why the redemption is refused.
    pub open spec fn redeem_assets(
        self,
        shares: u64,
        min_assets_out: u64,
        total_shares: u64,
        owner_shares: u64,
    ) -> Result<u64, VaultError> {
        if self.paused {
            Err(VaultError::VaultPaused)
        } else if shares == 0 {
            Err(VaultError::ZeroAmount)
        } else if owner_shares < shares {
            Err(VaultError::InsufficientShares)
        } else {
            self.redeem_assets_priced(shares, min_assets_out, total_shares)
        }
    }

    /// The vault with `delta` more cached assets.
    pub open spec fn credited(self, delta: u64) -> Vault {
        Vault { total_assets: (self.total_assets + delta) as u64, ..self }
    }

    /// The vault with `delta` fewer cached assets.
    pub open spec fn debited(self, delta: u64) -> Vault {
        Vault { total_assets: (self.total_assets - delta) as u64, ..self }
    }

    /// Result of `pause` by `caller`.
    pub open spec fn pause_outcome(self, caller: Address) -> Result<Vault, VaultError> {
        if caller@ != self.authority@ {
            Err(VaultError::Unauthorized)
        } else if self.paused {
            Err(VaultError::VaultPaused)
        } else {
            Ok(Vault { paused: true, ..self })
        }
    }

    /// Result of `unpause` by `caller`.
    pub open spec fn unpause_outcome(self, caller: Address) -> Result<Vault, VaultError> {
        if caller@ != self.authority@ {
            Err(VaultError::Unauthorized)
        } else if !self.paused {
            Err(VaultError::VaultPaused)
        } else {
            Ok(Vault { paused: false, ..self })
        }
    }

    /// Result of `sync` by `caller` against a custody balance of `actual_balance`.
    pub open spec fn sync_outcome(self, caller: Address, actual_balance: u64) -> Result<Vault, VaultError> {
        if caller@ != self.authority@ {
            Err(VaultError::Unauthorized)
        } else {
            Ok(Vault { total_assets: actual_balance, ..self })
        }
    }

    /// Creates the state of a new vault over an asset with `asset_decimals` decimals.
    /// Fails with `InvalidAssetDecimals` when the asset has more than nine.
    pub fn initialize(
        authority: Address,
        asset_mint: Address,
        shares_mint: Address,
        asset_vault: Address,
        asset_decimals: u8,
        bump: u8,
        vault_id: u64,
    ) -> (r: Result<(Vault, VaultInitialized), VaultError>)
        ensures
            asset_decimals <= MAX_DECIMALS <==> r is Ok,
            match r {
                Ok((v, ev)) => v.wf() && v.authority == authority && v.asset_mint == asset_mint
                    && v.shares_mint == shares_mint && v.asset_vault == asset_vault && v.total_assets == 0
                    && v.decimals_offset == MAX_DECIMALS - asset_decimals && v.bump == bump && !v.paused
                    && v.vault_id == vault_id && (forall|i: int| 0 <= i < 64 ==> v.reserved[i] == 0)
                    && ev == (VaultInitialized { authority, asset_mint, shares_mint, vault_id }),
                Err(e) => asset_decimals > MAX_DECIMALS && e == VaultError::InvalidAssetDecimals,
            },
    {
        if asset_decimals > MAX_DECIMALS {
            return Err(VaultError::InvalidAssetDecimals);
        }
        let v = Vault {
            authority,
            asset_mint,
            shares_mint,
            asset_vault,
            total_assets: 0,
            decimals_offset: MAX_DECIMALS - asset_decimals,
            bump,
            paused: false,
            vault_id,
            reserved: [0u8; 64],
        };
        Ok((v, VaultInitialized { authority, asset_mint, shares_mint, vault_id }))
    }

    /// Prices a deposit and runs all its checks without changing the vault.
    pub fn check_deposit(&self, assets: u64, min_shares_out: u64, total_shares: u64) -> (r: Result<u64, VaultError>)
        ensures
            r == self.deposit_shares(assets, min_shares_out, total_shares),
    {
        if self.paused {
            return Err(VaultError::VaultPaused);
        }
        if assets == 0 {
            return Err(VaultError::ZeroAmount);
        }
        if assets < MIN_DEPOSIT_AMOUNT {
            return Err(VaultError::DepositTooSmall);
        }
        let shares = convert_to_shares(assets, self.total_assets, total_shares, self.decimals_offset, Rounding::Floor)?;
        if shares < min_shares_out {
            return Err(VaultError::SlippageExceeded);
        }
        if self.total_assets > u64::MAX - assets {
            return Err(VaultError::MathOverflow);
        }
        Ok(shares)
    }

    /// Prices a mint of exactly `shares` and runs all its checks without changing the vault.
    pub fn check_mint(&self, shares: u64, max_assets_in: u64, total_shares: u64) -> (r: Result<u64, VaultError>)
        ensures
            r == self.mint_assets(shares, max_assets_in, total_shares),
    {
        if self.paused {
            return Err(VaultError::VaultPaused);
        }
        if shares == 0 {
            return Err(VaultError::ZeroAmount);
        }
        let assets = convert_to_assets(shares, self.total_assets, total_shares, self.decimals_offset, Rounding::Ceiling)?;
        if assets > max_assets_in {
            return Err(VaultError::SlippageExceeded);
        }
        if self.total_assets > u64::MAX - assets {
            return Err(VaultError::MathOverflow);
        }
        Ok(assets)
    }

    /// Prices a withdrawal of exactly `assets` and checks it against the slippage bound.
    pub fn price_withdraw(&self, assets: u64, max_shares_in: u64, total_shares: u64) -> (r: Result<u64, VaultError>)
        ensures
            r == self.withdraw_shares_priced(assets, max_shares_in, total_shares),
    {
        if self.paused {
            return Err(VaultError::VaultPaused);
        }
        if assets == 0 {
            return Err(VaultError::ZeroAmount);
        }
        let shares = convert_to_shares(assets, self.total_assets, total_shares, self.decimals_offset, Rounding::Ceiling)?;
        if shares > max_shares_in {
            return Err(VaultError::SlippageExceeded);
        }
        Ok(shares)
    }

    /// Prices a redemption of `shares` and checks it against the slippage bound and the cached total.
    pub fn price_redeem(&self, shares: u64, min_assets_out: u64, total_shares: u64) -> (r: Result<u64, VaultError>)
        ensures
            r == self.redeem_assets_priced(shares, min_assets_out, total_shares),
    {
        let assets = convert_to_assets(shares, self.total_assets, total_shares, self.decimals_offset, Rounding::Floor)?;
        if assets < min_assets_out {
            return Err(VaultError::SlippageExceeded);
        }
        if assets > self.total_assets {
            return Err(VaultError::InsufficientAssets);
        }
        Ok(assets)
    }

    /// Takes in `assets` for `user` and mints the shares they are worth, rounded down.
    /// `total_shares` is the shares supply before the operation. On failure nothing changes.
    pub fn deposit(&mut self, user: Address, assets: u64, min_shares_out: u64, total_shares: u64) -> (r: Result<Deposit, VaultError>)
        ensures
            match old(self).deposit_shares(assets, min_shares_out, total_shares) {
                Ok(shares) => *final(self) == old(self).credited(assets)
                    && r == Ok::<Deposit, VaultError>((Deposit { caller: user, owner: user, assets, shares })),
                Err(e) => *final(self) == *old(self) && r == Err::<Deposit, VaultError>(e),
            },
    {
        let shares = self.check_deposit(assets, min_shares_out, total_shares)?;
        self.total_assets = self.total_assets + assets;
        Ok(Deposit { caller: user, owner: user, assets, shares })
    }

    /// Mints exactly `shares` for `user` against the assets they cost, rounded up.
    /// On failure nothing changes.
    pub fn mint(&mut self, user: Address, shares: u64, max_assets_in: u64, total_shares: u64) -> (r: Result<Deposit, VaultError>)
        ensures
            match old(self).mint_assets(shares, max_assets_in, total_shares) {
                Ok(assets) => *final(self) == old(self).credited(assets)
                    && r == Ok::<Deposit, VaultError>((Deposit { caller: user, owner: user, assets, shares })),
                Err(e) => *final(self) == *old(self) && r == Err::<Deposit, VaultError>(e),
            },
    {
        let assets = self.check_mint(shares, max_assets_in, total_shares)?;
        self.total_assets = self.total_assets + assets;
        Ok(Deposit { caller: user, owner: user, assets, shares })
    }

    /// Pays out exactly `assets` to `user`, burning the shares they cost, rounded up.
    /// `owner_shares` is the user's share balance. On failure nothing changes.
    pub fn withdraw(
        &mut self,
        user: Address,
        assets: u64,
        max_shares_in: u64,
        total_shares: u64,
        owner_shares: u64,
    ) -> (r: Result<Withdraw, VaultError>)
        ensures
            match old(self).withdraw_shares(assets, max_shares_in, total_shares, owner_shares) {
                Ok(shares) => *final(self) == old(self).debited(assets) && r == Ok::<Withdraw, VaultError>(
                    (Withdraw { caller: user, receiver: user, owner: user, assets, shares }),
                ),
                Err(e) => *final(self) == *old(self) && r == Err::<Withdraw, VaultError>(e),
            },
    {
        let shares = self.price_withdraw(assets, max_shares_in, total_shares)?;
        if owner_shares < shares {
            return Err(VaultError::InsufficientShares);
        }
        if assets > self.total_assets {
            return Err(VaultError::InsufficientAssets);
        }
        self.total_assets = self.total_assets - assets;
        Ok(Withdraw { caller: user, receiver: user, owner: user, assets, shares })
    }

    /// Burns `shares` of `user` and pays out the assets they are worth, rounded down.
    /// On failure nothing changes.
    pub fn redeem(
        &mut self,
        user: Address,
        shares: u64,
        min_assets_out: u64,
        total_shares: u64,
        owner_shares: u64,
    ) -> (r: Result<Withdraw, VaultError>)
        ensures
            match old(self).redeem_assets(shares, min_assets_out, total_shares, owner_shares) {
                Ok(assets) => *final(self) == old(self).debited(assets) && r == Ok::<Withdraw, VaultError>(
                    (Withdraw { caller: user, receiver: user, owner: user, assets, shares }),
                ),
                Err(e) => *final(self) == *old(self) && r == Err::<Withdraw, VaultError>(e),
            },
    {
        if self.paused {
            return Err(VaultError::VaultPaused);
        }
        if shares == 0 {
            return Err(VaultError::ZeroAmount);
        }
        if owner_shares < shares {
            return Err(VaultError::InsufficientShares);
        }
        let assets = self.price_redeem(shares, min_assets_out, total_shares)?;
        self.total_assets = self.total_assets - assets;
        Ok(Withdraw { caller: user, receiver: user, owner: user, assets, shares })
    }

    /// Stops deposits, mints, withdrawals and redemptions. Authority only; fails with
    /// `VaultPaused` when already paused.
    pub fn pause(&mut self, caller: &Address) -> (r: Result<VaultStatusChanged, VaultError>)
        ensures
            match old(self).pause_outcome(*caller) {
                Ok(v) => *final(self) == v && r == Ok::<VaultStatusChanged, VaultError>((VaultStatusChanged { paused: true })),
                Err(e) => *final(self) == *old(self) && r == Err::<VaultStatusChanged, VaultError>(e),
            },
    {
        if !same_address(caller, &self.authority) {
            return Err(VaultError::Unauthorized);
        }
        if self.paused {
            return Err(VaultError::VaultPaused);
        }
        self.paused = true;
        Ok(VaultStatusChanged { paused: true })
    }

    /// Resumes operations. Authority only; fails with `VaultPaused` when not paused.
    pub fn unpause(&mut self, caller: &Address) -> (r: Result<VaultStatusChanged, VaultError>)
        ensures
            match old(self).unpause_outcome(*caller) {
                Ok(v) => *final(self) == v && r == Ok::<VaultStatusChanged, VaultError>((VaultStatusChanged { paused: false })),
                Err(e) => *final(self) == *old(self) && r == Err::<VaultStatusChanged, VaultError>(e),
            },
    {
        if !same_address(caller, &self.authority) {
            return Err(VaultError::Unauthorized);
        }
        if !self.paused {
            return Err(VaultError::VaultPaused);
        }
        self.paused = false;
        Ok(VaultStatusChanged { paused: false })
    }

    /// Hands control to `new_authority` in one step. Authority only.
    pub fn transfer_authority(&mut self, caller: &Address, new_authority: Address) -> (r: Result<AuthorityTransferred, VaultError>)
        ensures
            caller@ == old(self).authority@ ==> *final(self) == (Vault { authority: new_authority, ..*old(self) })
                && r == Ok::<AuthorityTransferred, VaultError>(
                (AuthorityTransferred { previous_authority: old(self).authority, new_authority }),
            ),
            caller@ != old(self).authority@ ==> *final(self) == *old(self)
                && r == Err::<AuthorityTransferred, VaultError>(VaultError::Unauthorized),
    {
        if !same_address(caller, &self.authority) {
            return Err(VaultError::Unauthorized);
        }
        let previous_authority = self.authority;
        self.authority = new_authority;
        Ok(AuthorityTransferred { previous_authority, new_authority })
    }

    /// Overwrites the cached total with the custody balance `actual_balance`. Authority only.
    pub fn sync(&mut self, caller: &Address, actual_balance: u64) -> (r: Result<VaultSynced, VaultError>)
        ensures
            match old(self).sync_outcome(*caller, actual_balance) {
                Ok(v) => *final(self) == v && r == Ok::<VaultSynced, VaultError>(
                    (VaultSynced { previous_total: old(self).total_assets, new_total: actual_balance }),
                ),
                Err(e) => *final(self) == *old(self) && r == Err::<VaultSynced, VaultError>(e),
            },
    {
        if !same_address(caller, &self.authority) {
            return Err(VaultError::Unauthorized);
        }
        let previous_total = self.total_assets;
        self.total_assets = actual_balance;
        Ok(VaultSynced { previous_total, new_total: actual_balance })
    }

    /// Shares a deposit of `assets` would mint now (rounded down).
    pub fn preview_deposit(&self, assets: u64, total_shares: u64) -> (r: Result<u64, VaultError>)
        ensures
            r == shares_for_assets(assets, self.total_assets, total_shares, self.decimals_offset, Rounding::Floor),
    {
        convert_to_shares(assets, self.total_assets, total_shares, self.decimals_offset, Rounding::Floor)
    }

    /// Assets a mint of `shares` would cost now (rounded up).
    pub fn preview_mint(&self, shares: u64, total_shares: u64) -> (r: Result<u64, VaultError>)
        ensures
            r == assets_for_shares(shares, self.total_assets, total_shares, self.decimals_offset, Rounding::Ceiling),
    {
        convert_to_assets(shares, self.total_assets, total_shares, self.decimals_offset, Rounding::Ceiling)
    }

    /// Shares a withdrawal of `assets` would burn now (rounded up).
    pub fn preview_withdraw(&self, assets: u64, total_shares: u64) -> (r: Result<u64, VaultError>)
        ensures
            r == shares_for_assets(assets, self.total_assets, total_shares, self.decimals_offset, Rounding::Ceiling),
    {
        convert_to_shares(assets, self.total_assets, total_shares, self.decimals_offset, Rounding::Ceiling)
    }

    /// Assets a redemption of `shares` would pay now (rounded down).
    pub fn preview_redeem(&self, shares: u64, total_shares: u64) -> (r: Result<u64, VaultError>)
        ensures
            r == assets_for_shares(shares, self.total_assets, total_shares, self.decimals_offset, Rounding::Floor),
    {
        convert_to_assets(shares, self.total_assets, total_shares, self.decimals_offset, Rounding::Floor)
    }

    /// `assets` expressed in shares at the current rate, rounded down.
    pub fn convert_to_shares_view(&self, assets: u64, total_shares: u64) -> (r: Result<u64, VaultError>)
        ensures
            r == shares_for_assets(assets, self.total_assets, total_shares, self.decimals_offset, Rounding::Floor),
    {
        convert_to_shares(assets, self.total_assets, total_shares, self.decimals_offset, Rounding::Floor)
    }

    /// `shares` expressed in assets at the current rate, rounded down.
    pub fn convert_to_assets_view(&self, shares: u64, total_shares: u64) -> (r: Result<u64, VaultError>)
        ensures
            r == assets_for_shares(shares, self.total_assets, total_shares, self.decimals_offset, Rounding::Floor),
    {
        convert_to_assets(shares, self.total_assets, total_shares, self.decimals_offset, Rounding::Floor)
    }

    /// The cached asset total.
    pub fn get_total_assets(&self) -> (r: u64)
        ensures
            r == self.total_assets,
    {
        self.total_assets
    }

    /// Largest depositable amount: unbounded unless paused.
    pub fn max_deposit(&self) -> (r: u64)
        ensures
            r == (if self.paused { 0 } else { u64::MAX }),
    {
        if self.paused {
            0
        } else {
            u64::MAX
        }
    }

    /// Largest mintable share amount: unbounded unless paused.
    pub fn max_mint(&self) -> (r: u64)
        ensures
            r == (if self.paused { 0 } else { u64::MAX }),
    {
        if self.paused {
            0
        } else {
            u64::MAX
        }
    }

    /// Largest withdrawable amount for a holder of `owner_shares`: what they redeem for,
    /// capped at the cached total; zero when paused.
    pub fn max_withdraw(&self, total_shares: u64, owner_shares: u64) -> (r: Result<u64, VaultError>)
        ensures
            self.paused ==> r == Ok::<u64, VaultError>(0),
            !self.paused ==> match assets_for_shares(
                owner_shares,
                self.total_assets,
                total_shares,
                self.decimals_offset,
                Rounding::Floor,
            ) {
                Ok(a) => r == Ok::<u64, VaultError>(if a < self.total_assets { a } else { self.total_assets }),
                Err(e) => r == Err::<u64, VaultError>(e),
            },
    {
        if self.paused {
            return Ok(0);
        }
        let max_assets = convert_to_assets(owner_shares, self.total_assets, total_shares, self.decimals_offset, Rounding::Floor)?;
        if max_assets < self.total_assets {
            Ok(max_assets)
        } else {
            Ok(self.total_assets)
        }
    }

    /// Largest redeemable share amount: the holder's balance, zero when paused.
    pub fn max_redeem(&self, owner_shares: u64) -> (r: u64)
        ensures
            r == (if self.paused { 0 } else { owner_shares }),
    {
        if self.paused {
            0
        } else {
            owner_shares
        }
    }
}

/// Pausing twice in a row fails the second time with `VaultPaused`; so does unpausing twice.
pub proof fn lemma_pause_is_edge_triggered(v: Vault, caller: Address)
    ensures
        match v.pause_outcome(caller) {
            Ok(v2) => v2.pause_outcome(caller) == Err::<Vault, VaultError>(VaultError::VaultPaused),
            Err(_) => true,
        },
        match v.unpause_outcome(caller) {
            Ok(v2) => v2.unpause_outcome(caller) == Err::<Vault, VaultError>(VaultError::VaultPaused),
            Err(_) => true,
        },
{
}

/// With no transfer in between, a second sync against the same custody balance leaves
/// the vault, and so its cached total, as the first left it.
pub proof fn lemma_sync_idempotent(v: Vault, caller: Address, actual_balance: u64)
    ensures
        match v.sync_outcome(caller, actual_balance) {
            Ok(v2) => v2.sync_outcome(caller, actual_balance) == Ok::<Vault, VaultError>(v2)
                && v2.total_assets == actual_balance,
            Err(_) => true,
        },
{
}

} // verus!
