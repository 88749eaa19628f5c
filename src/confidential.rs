use vstd::prelude::*;

use crate::error::VaultError;
use crate::events::{Deposit, VaultInitialized, Withdraw};
use crate::state::{Address, Vault, MAX_DECIMALS};

verus! {

/// Byte length of an authenticated-encryption balance ciphertext.
pub const AE_CIPHERTEXT_LEN: usize = 36;

/// Most fold-ins an account may hold pending before it must apply them.
pub const DEFAULT_MAXIMUM_PENDING_BALANCE_CREDIT_COUNTER: u64 = 65536;

/// The proofs that confidential operations consume.
#[derive(Clone, Copy, Debug, PartialEq, Eq, Structural)]
pub enum ProofKind {
    PubkeyValidity,
    CiphertextCommitmentEquality,
    BatchedRangeU64,
}

/// A reference to a proof context that outside infrastructure has already checked.
/// The vault reads only what the context says of itself; it never checks a proof.
#[derive(Clone, Copy, Debug, PartialEq, Eq, Structural)]
pub struct ProofContext {
    pub kind: ProofKind,
    pub verified: bool,
}

/// Whether `ctx` stands for a verified proof of kind `kind`.
pub open spec fn proof_accepted(ctx: ProofContext, kind: ProofKind) -> bool {
    ctx.verified && ctx.kind == kind
}

/// A vault whose shares are held as hidden balances.
#[derive(Clone, Copy, Debug, PartialEq, Eq)]
pub struct ConfidentialVault {
    pub vault: Vault,
    /// Compliance key embedded at creation; never changes.
    pub auditor_elgamal_pubkey: Option<[u8; 32]>,
    /// Identity in charge of the shares token's confidential extension.
    pub confidential_authority: Address,
}

/// A holder's shares account, in its confidential phases.
#[derive(Clone, Debug)]
pub struct ConfidentialAccount {
    pub owner: Address,
    /// Set once the holder has proven their encryption key.
    pub configured: bool,
    /// Fold-ins into the pending balance not applied yet.
    pub pending_balance_credit_counter: u64,
    /// Bound on `pending_balance_credit_counter`.
    pub maximum_pending_balance_credit_counter: u64,
    /// The holder's own encryption of the available balance.
    pub decryptable_available_balance: Vec<u8>,
}

/// The mathematical state of a `ConfidentialAccount`.
pub ghost struct AccountState {
    pub owner: Address,
    pub configured: bool,
    pub pending_balance_credit_counter: u64,
    pub maximum_pending_balance_credit_counter: u64,
    pub decryptable_available_balance: Seq<u8>,
}

impl View for ConfidentialAccount {
    type V = AccountState;

    open spec fn view(&self) -> AccountState {
        AccountState {
            owner: self.owner,
            configured: self.configured,
            pending_balance_credit_counter: self.pending_balance_credit_counter,
            maximum_pending_balance_credit_counter: self.maximum_pending_balance_credit_counter,
            decryptable_available_balance: self.decryptable_available_balance@,
        }
    }
}

impl AccountState {
    /// A configured account's counter never passes its bound, and its balance
    /// ciphertext has the proper length.
    pub open spec fn wf(self) -> bool {
        self.configured ==> self.pending_balance_credit_counter <= self.maximum_pending_balance_credit_counter
            && self.decryptable_available_balance.len() == AE_CIPHERTEXT_LEN
    }

    /// Why the account cannot take one more fold-in, if it cannot.
    pub open spec fn fold_in_refusal(self) -> Option<VaultError> {
        if !self.configured {
            Some(VaultError::AccountNotConfigured)
        } else if self.pending_balance_credit_counter >= self.maximum_pending_balance_credit_counter {
            Some(VaultError::PendingBalanceNotApplied)
        } else {
            None
        }
    }

    /// The account after one more fold-in.
    pub open spec fn folded_in(self) -> AccountState {
        AccountState { pending_balance_credit_counter: (self.pending_balance_credit_counter + 1) as u64, ..self }
    }

    /// The account with a new available-balance ciphertext.
    pub open spec fn with_available(self, ciphertext: Seq<u8>) -> AccountState {
        AccountState { decryptable_available_balance: ciphertext, ..self }
    }

    /// Result of `configure_account`.
    pub open spec fn configure_outcome(
        self,
        decryptable_zero_balance: Seq<u8>,
        proof_instruction_offset: i8,
        proof_context: Option<ProofContext>,
    ) -> Result<AccountState, VaultError> {
        if self.configured {
            Err(VaultError::Unauthorized)
        } else if decryptable_zero_balance.len() != AE_CIPHERTEXT_LEN {
            Err(VaultError::InvalidCiphertext)
        } else if match proof_context {
            Some(ctx) => !proof_accepted(ctx, ProofKind::PubkeyValidity),
            None => proof_instruction_offset == 0,
        } {
            Err(VaultError::InvalidProof)
        } else {
            Ok(
                AccountState {
                    configured: true,
                    pending_balance_credit_counter: 0,
                    maximum_pending_balance_credit_counter: DEFAULT_MAXIMUM_PENDING_BALANCE_CREDIT_COUNTER,
                    decryptable_available_balance: decryptable_zero_balance,
                    ..self
                },
            )
        }
    }

    /// Result of `apply_pending`.
    pub open spec fn apply_pending_outcome(
        self,
        new_decryptable_available_balance: Seq<u8>,
        expected_pending_balance_credit_counter: u64,
    ) -> Result<AccountState, VaultError> {
        if new_decryptable_available_balance.len() != AE_CIPHERTEXT_LEN {
            Err(VaultError::InvalidCiphertext)
        } else if !self.configured {
            Err(VaultError::AccountNotConfigured)
        } else if expected_pending_balance_credit_counter != self.pending_balance_credit_counter {
            Err(VaultError::PendingBalanceNotApplied)
        } else {
            Ok(
                AccountState {
                    pending_balance_credit_counter: 0,
                    decryptable_available_balance: new_decryptable_available_balance,
                    ..self
                },
            )
        }
    }
}

impl ConfidentialAccount {
    /// A fresh, unconfigured account of `owner`.
    pub fn new(owner: Address) -> (r: ConfidentialAccount)
        ensures
            r@ == (AccountState {
                owner,
                configured: false,
                pending_balance_credit_counter: 0,
                maximum_pending_balance_credit_counter: 0,
                decryptable_available_balance: Seq::<u8>::empty(),
            }),
            r@.wf(),
    {
        let r = ConfidentialAccount {
            owner,
            configured: false,
            pending_balance_credit_counter: 0,
            maximum_pending_balance_credit_counter: 0,
            decryptable_available_balance: Vec::new(),
        };
        assert(r.decryptable_available_balance@ =~= Seq::<u8>::empty());
        r
    }

    /// Configures the account for confidential balances: moves it from Unconfigured to
    /// Configured with nothing pending. The key-validity proof is either in the same
    /// request at `proof_instruction_offset` (which must be non-zero) or referenced by
    /// `proof_context`. An account already configured is refused with `Unauthorized`.
    pub fn configure_account(
        &mut self,
        decryptable_zero_balance: &Vec<u8>,
        proof_instruction_offset: i8,
        proof_context: Option<ProofContext>,
    ) -> (r: Result<(), VaultError>)
        ensures
            match old(self)@.configure_outcome(decryptable_zero_balance@, proof_instruction_offset, proof_context) {
                Ok(a) => r is Ok && final(self)@ == a,
                Err(e) => r == Err::<(), VaultError>(e) && final(self)@ == old(self)@,
            },
            old(self)@.wf() ==> final(self)@.wf(),
    {
        if self.configured {
            return Err(VaultError::Unauthorized);
        }
        if decryptable_zero_balance.len() != AE_CIPHERTEXT_LEN {
            return Err(VaultError::InvalidCiphertext);
        }
        match proof_context {
            Some(ctx) => {
                if !(ctx.verified && ctx.kind == ProofKind::PubkeyValidity) {
                    return Err(VaultError::InvalidProof);
                }
            },
            None => {
                if proof_instruction_offset == 0 {
                    return Err(VaultError::InvalidProof);
                }
            },
        }
        self.configured = true;
        self.pending_balance_credit_counter = 0;
        self.maximum_pending_balance_credit_counter = DEFAULT_MAXIMUM_PENDING_BALANCE_CREDIT_COUNTER;
        self.decryptable_available_balance = decryptable_zero_balance.clone();
        Ok(())
    }

    /// Folds every pending credit into the available balance. The caller states how many
    /// fold-ins they have accounted for; a stale count is refused with
    /// `PendingBalanceNotApplied` and nothing changes.
    pub fn apply_pending(
        &mut self,
        new_decryptable_available_balance: &Vec<u8>,
        expected_pending_balance_credit_counter: u64,
    ) -> (r: Result<(), VaultError>)
        ensures
            match old(self)@.apply_pending_outcome(
                new_decryptable_available_balance@,
                expected_pending_balance_credit_counter,
            ) {
                Ok(a) => r is Ok && final(self)@ == a,
                Err(e) => r == Err::<(), VaultError>(e) && final(self)@ == old(self)@,
            },
            expected_pending_balance_credit_counter != old(self).pending_balance_credit_counter ==> r is Err
                && final(self)@ == old(self)@,
            old(self)@.wf() ==> final(self)@.wf(),
    {
        if new_decryptable_available_balance.len() != AE_CIPHERTEXT_LEN {
            return Err(VaultError::InvalidCiphertext);
        }
        if !self.configured {
            return Err(VaultError::AccountNotConfigured);
        }
        if expected_pending_balance_credit_counter != self.pending_balance_credit_counter {
            return Err(VaultError::PendingBalanceNotApplied);
        }
        self.pending_balance_credit_counter = 0;
        self.decryptable_available_balance = new_decryptable_available_balance.clone();
        Ok(())
    }

    /// Whether one more fold-in is accepted; `None` when it is.
    fn check_fold_in(&self) -> (r: Option<VaultError>)
        ensures
            r == self@.fold_in_refusal(),
    {
        if !self.configured {
            Some(VaultError::AccountNotConfigured)
        } else if self.pending_balance_credit_counter >= self.maximum_pending_balance_credit_counter {
            Some(VaultError::PendingBalanceNotApplied)
        } else {
            None
        }
    }
}

/// Why a confidential exit is refused on account of its ciphertext, the account or
/// its proofs, if it is.
pub open spec fn exit_refusal(
    account: AccountState,
    new_decryptable_available_balance: Seq<u8>,
    equality_proof: ProofContext,
    range_proof: ProofContext,
) -> Option<VaultError> {
    if new_decryptable_available_balance.len() != AE_CIPHERTEXT_LEN {
        Some(VaultError::InvalidCiphertext)
    } else if !account.configured {
        Some(VaultError::AccountNotConfigured)
    } else if !proof_accepted(equality_proof, ProofKind::CiphertextCommitmentEquality) || !proof_accepted(
        range_proof,
        ProofKind::BatchedRangeU64,
    ) {
        Some(VaultError::InvalidProof)
    } else {
        None
    }
}

fn check_exit(
    account: &ConfidentialAccount,
    new_decryptable_available_balance: &Vec<u8>,
    equality_proof: ProofContext,
    range_proof: ProofContext,
) -> (r: Option<VaultError>)
    ensures
        r == exit_refusal(account@, new_decryptable_available_balance@, equality_proof, range_proof),
{
    if new_decryptable_available_balance.len() != AE_CIPHERTEXT_LEN {
        Some(VaultError::InvalidCiphertext)
    } else if !account.configured {
        Some(VaultError::AccountNotConfigured)
    } else if !(equality_proof.verified && equality_proof.kind == ProofKind::CiphertextCommitmentEquality)
        || !(range_proof.verified && range_proof.kind == ProofKind::BatchedRangeU64) {
        Some(VaultError::InvalidProof)
    } else {
        None
    }
}

impl ConfidentialVault {
    /// Assets paid out for a confidential redemption of `shares`, before the account is consulted.
    pub open spec fn redeem_assets(self, shares: u64, min_assets_out: u64, total_shares: u64) -> Result<u64, VaultError> {
        if self.vault.paused {
            Err(VaultError::VaultPaused)
        } else if shares == 0 {
            Err(VaultError::ZeroAmount)
        } else {
            self.vault.redeem_assets_priced(shares, min_assets_out, total_shares)
        }
    }

    /// Shares burned for a confidential withdrawal of `assets`, before the account is consulted.
    pub open spec fn withdraw_shares(self, assets: u64, max_shares_in: u64, total_shares: u64) -> Result<u64, VaultError> {
        match self.vault.withdraw_shares_priced(assets, max_shares_in, total_shares) {
            Err(e) => Err(e),
            Ok(shares) => if assets > self.vault.total_assets {
                Err(VaultError::InsufficientAssets)
            } else {
                Ok(shares)
            },
        }
    }

    /// Creates a confidential vault; fails with `InvalidAssetDecimals` when the asset has
    /// more than nine decimals. The auditor key is fixed from here on.
    pub fn initialize(
        authority: Address,
        asset_mint: Address,
        shares_mint: Address,
        asset_vault: Address,
        asset_decimals: u8,
        bump: u8,
        vault_id: u64,
        auditor_elgamal_pubkey: Option<[u8; 32]>,
        confidential_authority: Address,
    ) -> (r: Result<(ConfidentialVault, VaultInitialized), VaultError>)
        ensures
            asset_decimals <= MAX_DECIMALS <==> r is Ok,
            match r {
                Ok((cv, ev)) => cv.vault.wf() && cv.vault.authority == authority && cv.vault.asset_mint == asset_mint
                    && cv.vault.shares_mint == shares_mint && cv.vault.asset_vault == asset_vault
                    && cv.vault.total_assets == 0 && cv.vault.decimals_offset == MAX_DECIMALS - asset_decimals
                    && cv.vault.bump == bump && !cv.vault.paused && cv.vault.vault_id == vault_id
                    && cv.auditor_elgamal_pubkey == auditor_elgamal_pubkey
                    && cv.confidential_authority == confidential_authority
                    && (forall|i: int| 0 <= i < 64 ==> cv.vault.reserved[i] == 0)
                    && ev == (VaultInitialized { authority, asset_mint, shares_mint, vault_id }),
                Err(e) => asset_decimals > MAX_DECIMALS && e == VaultError::InvalidAssetDecimals,
            },
    {
        let (vault, ev) = Vault::initialize(authority, asset_mint, shares_mint, asset_vault, asset_decimals, bump, vault_id)?;
        Ok((ConfidentialVault { vault, auditor_elgamal_pubkey, confidential_authority }, ev))
    }

    /// Takes in `assets` and folds the shares they are worth (rounded down) into the
    /// holder's pending confidential balance. The account must be configured and below
    /// its pending-credit bound. On failure neither vault nor account changes.
    pub fn deposit(
        &mut self,
        account: &mut ConfidentialAccount,
        assets: u64,
        min_shares_out: u64,
        total_shares: u64,
    ) -> (r: Result<Deposit, VaultError>)
        ensures
            final(self).auditor_elgamal_pubkey == old(self).auditor_elgamal_pubkey,
            final(self).confidential_authority == old(self).confidential_authority,
            match old(self).vault.deposit_shares(assets, min_shares_out, total_shares) {
                Err(e) => r == Err::<Deposit, VaultError>(e) && *final(self) == *old(self) && final(account)@ == old(account)@,
                Ok(shares) => match old(account)@.fold_in_refusal() {
                    Some(e) => r == Err::<Deposit, VaultError>(e) && *final(self) == *old(self)
                        && final(account)@ == old(account)@,
                    None => final(self).vault == old(self).vault.credited(assets)
                        && final(account)@ == old(account)@.folded_in() && r == Ok::<Deposit, VaultError>(
                        (Deposit { caller: old(account).owner, owner: old(account).owner, assets, shares }),
                    ),
                },
            },
    {
        let shares = self.vault.check_deposit(assets, min_shares_out, total_shares)?;
        if let Some(e) = account.check_fold_in() {
            return Err(e);
        }
        self.vault.total_assets = self.vault.total_assets + assets;
        account.pending_balance_credit_counter = account.pending_balance_credit_counter + 1;
        Ok(Deposit { caller: account.owner, owner: account.owner, assets, shares })
    }

    /// Mints exactly `shares` into the holder's pending confidential balance against the
    /// assets they cost (rounded up). On failure neither vault nor account changes.
    pub fn mint(
        &mut self,
        account: &mut ConfidentialAccount,
        shares: u64,
        max_assets_in: u64,
        total_shares: u64,
    ) -> (r: Result<Deposit, VaultError>)
        ensures
            final(self).auditor_elgamal_pubkey == old(self).auditor_elgamal_pubkey,
            final(self).confidential_authority == old(self).confidential_authority,
            match old(self).vault.mint_assets(shares, max_assets_in, total_shares) {
                Err(e) => r == Err::<Deposit, VaultError>(e) && *final(self) == *old(self) && final(account)@ == old(account)@,
                Ok(assets) => match old(account)@.fold_in_refusal() {
                    Some(e) => r == Err::<Deposit, VaultError>(e) && *final(self) == *old(self)
                        && final(account)@ == old(account)@,
                    None => final(self).vault == old(self).vault.credited(assets)
                        && final(account)@ == old(account)@.folded_in() && r == Ok::<Deposit, VaultError>(
                        (Deposit { caller: old(account).owner, owner: old(account).owner, assets, shares }),
                    ),
                },
            },
    {
        let assets = self.vault.check_mint(shares, max_assets_in, total_shares)?;
        if let Some(e) = account.check_fold_in() {
            return Err(e);
        }
        self.vault.total_assets = self.vault.total_assets + assets;
        account.pending_balance_credit_counter = account.pending_balance_credit_counter + 1;
        Ok(Deposit { caller: account.owner, owner: account.owner, assets, shares })
    }

    /// Pays out exactly `assets`, debiting the shares they cost (rounded up) from the
    /// holder's available confidential balance. The two proof references stand for the
    /// debited amount; the vault trusts them and never decrypts. The account's balance
    /// ciphertext becomes `new_decryptable_available_balance`. On failure nothing changes.
    pub fn withdraw(
        &mut self,
        account: &mut ConfidentialAccount,
        assets: u64,
        max_shares_in: u64,
        total_shares: u64,
        new_decryptable_available_balance: &Vec<u8>,
        equality_proof: ProofContext,
        range_proof: ProofContext,
    ) -> (r: Result<Withdraw, VaultError>)
        ensures
            final(self).auditor_elgamal_pubkey == old(self).auditor_elgamal_pubkey,
            final(self).confidential_authority == old(self).confidential_authority,
            match old(self).withdraw_shares(assets, max_shares_in, total_shares) {
                Err(e) => r == Err::<Withdraw, VaultError>(e) && *final(self) == *old(self) && final(account)@ == old(account)@,
                Ok(shares) => match exit_refusal(old(account)@, new_decryptable_available_balance@, equality_proof, range_proof) {
                    Some(e) => r == Err::<Withdraw, VaultError>(e) && *final(self) == *old(self)
                        && final(account)@ == old(account)@,
                    None => final(self).vault == old(self).vault.debited(assets)
                        && final(account)@ == old(account)@.with_available(new_decryptable_available_balance@)
                        && r == Ok::<Withdraw, VaultError>(
                        (Withdraw { caller: old(account).owner, receiver: old(account).owner, owner: old(account).owner, assets, shares }),
                    ),
                },
            },
    {
        let shares = self.vault.price_withdraw(assets, max_shares_in, total_shares)?;
        if assets > self.vault.total_assets {
            return Err(VaultError::InsufficientAssets);
        }
        if let Some(e) = check_exit(account, new_decryptable_available_balance, equality_proof, range_proof) {
            return Err(e);
        }
        self.vault.total_assets = self.vault.total_assets - assets;
        account.decryptable_available_balance = new_decryptable_available_balance.clone();
        Ok(Withdraw { caller: account.owner, receiver: account.owner, owner: account.owner, assets, shares })
    }

    /// Debits `shares` from the holder's available confidential balance and pays out the
    /// assets they are worth (rounded down), on the strength of the two proof references.
    /// On failure nothing changes.
    pub fn redeem(
        &mut self,
        account: &mut ConfidentialAccount,
        shares: u64,
        min_assets_out: u64,
        total_shares: u64,
        new_decryptable_available_balance: &Vec<u8>,
        equality_proof: ProofContext,
        range_proof: ProofContext,
    ) -> (r: Result<Withdraw, VaultError>)
        ensures
            final(self).auditor_elgamal_pubkey == old(self).auditor_elgamal_pubkey,
            final(self).confidential_authority == old(self).confidential_authority,
            match old(self).redeem_assets(shares, min_assets_out, total_shares) {
                Err(e) => r == Err::<Withdraw, VaultError>(e) && *final(self) == *old(self) && final(account)@ == old(account)@,
                Ok(assets) => match exit_refusal(old(account)@, new_decryptable_available_balance@, equality_proof, range_proof) {
                    Some(e) => r == Err::<Withdraw, VaultError>(e) && *final(self) == *old(self)
                        && final(account)@ == old(account)@,
                    None => final(self).vault == old(self).vault.debited(assets)
                        && final(account)@ == old(account)@.with_available(new_decryptable_available_balance@)
                        && r == Ok::<Withdraw, VaultError>(
                        (Withdraw { caller: old(account).owner, receiver: old(account).owner, owner: old(account).owner, assets, shares }),
                    ),
                },
            },
    {
        if self.vault.paused {
            return Err(VaultError::VaultPaused);
        }
        if shares == 0 {
            return Err(VaultError::ZeroAmount);
        }
        let assets = self.vault.price_redeem(shares, min_assets_out, total_shares)?;
        if let Some(e) = check_exit(account, new_decryptable_available_balance, equality_proof, range_proof) {
            return Err(e);
        }
        self.vault.total_assets = self.vault.total_assets - assets;
        account.decryptable_available_balance = new_decryptable_available_balance.clone();
        Ok(Withdraw { caller: account.owner, receiver: account.owner, owner: account.owner, assets, shares })
    }
}

} // verus!
