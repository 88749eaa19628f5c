use svs::confidential::{ConfidentialAccount, ConfidentialVault, ProofContext, ProofKind};
use svs::error::VaultError;

const ADMIN: [u8; 32] = [7u8; 32];
const USER: [u8; 32] = [9u8; 32];

fn verified(kind: ProofKind) -> ProofContext {
    ProofContext { kind, verified: true }
}

fn new_vault() -> ConfidentialVault {
    let (cv, _) = ConfidentialVault::initialize(ADMIN, [1u8; 32], [2u8; 32], [3u8; 32], 6, 255, 0, Some([5u8; 32]), ADMIN)
        .unwrap();
    cv
}

fn configured_account() -> ConfidentialAccount {
    let mut a = ConfidentialAccount::new(USER);
    a.configure_account(&vec![0u8; 36], -1, None).unwrap();
    a
}

#[test]
fn configure_account_transitions_once() {
    let mut a = ConfidentialAccount::new(USER);
    assert!(!a.configured);
    assert_eq!(a.configure_account(&vec![0u8; 36], -1, None), Ok(()));
    assert!(a.configured);
    assert_eq!(a.pending_balance_credit_counter, 0);
    assert_eq!(a.configure_account(&vec![0u8; 36], -1, None), Err(VaultError::Unauthorized));
}

#[test]
fn configure_account_proof_errors() {
    let mut a = ConfidentialAccount::new(USER);
    assert_eq!(a.configure_account(&vec![0u8; 35], -1, None), Err(VaultError::InvalidCiphertext));
    assert_eq!(a.configure_account(&vec![0u8; 36], 0, None), Err(VaultError::InvalidProof));
    let unverified = ProofContext { kind: ProofKind::PubkeyValidity, verified: false };
    assert_eq!(a.configure_account(&vec![0u8; 36], 0, Some(unverified)), Err(VaultError::InvalidProof));
    let wrong_kind = verified(ProofKind::BatchedRangeU64);
    assert_eq!(a.configure_account(&vec![0u8; 36], -1, Some(wrong_kind)), Err(VaultError::InvalidProof));
    assert!(!a.configured);
    assert_eq!(a.configure_account(&vec![0u8; 36], 0, Some(verified(ProofKind::PubkeyValidity))), Ok(()));
}

#[test]
fn deposit_folds_into_pending() {
    let mut cv = new_vault();
    let mut a = configured_account();
    let ev = cv.deposit(&mut a, 1_000_000, 0, 0).unwrap();
    assert_eq!(ev.shares, 1_000_000_000);
    assert_eq!(a.pending_balance_credit_counter, 1);
    assert_eq!(cv.vault.total_assets, 1_000_000);
    let ev2 = cv.mint(&mut a, 1000, u64::MAX, 1_000_000_000).unwrap();
    assert_eq!(ev2.assets, 1);
    assert_eq!(a.pending_balance_credit_counter, 2);
}

#[test]
fn deposit_needs_configured_account() {
    let mut cv = new_vault();
    let mut a = ConfidentialAccount::new(USER);
    assert_eq!(cv.deposit(&mut a, 1_000_000, 0, 0), Err(VaultError::AccountNotConfigured));
    assert_eq!(cv.vault.total_assets, 0);
}

#[test]
fn apply_pending_with_matching_counter() {
    let mut cv = new_vault();
    let mut a = configured_account();
    cv.deposit(&mut a, 5000, 0, 0).unwrap();
    cv.deposit(&mut a, 5000, 0, 5_000_000).unwrap();
    assert_eq!(a.apply_pending(&vec![1u8; 36], 2), Ok(()));
    assert_eq!(a.pending_balance_credit_counter, 0);
    assert_eq!(a.decryptable_available_balance, vec![1u8; 36]);
}

#[test]
fn apply_pending_stale_counter_fails_without_change() {
    let mut cv = new_vault();
    let mut a = configured_account();
    cv.deposit(&mut a, 5000, 0, 0).unwrap();
    cv.deposit(&mut a, 5000, 0, 5_000_000).unwrap();
    assert_eq!(a.apply_pending(&vec![1u8; 36], 1), Err(VaultError::PendingBalanceNotApplied));
    assert_eq!(a.pending_balance_credit_counter, 2);
    assert_eq!(a.decryptable_available_balance, vec![0u8; 36]);
    assert_eq!(a.apply_pending(&vec![1u8; 3], 2), Err(VaultError::InvalidCiphertext));
    let mut fresh = ConfidentialAccount::new(USER);
    assert_eq!(fresh.apply_pending(&vec![1u8; 36], 0), Err(VaultError::AccountNotConfigured));
}

#[test]
fn pending_credit_bound_forces_apply() {
    let mut cv = new_vault();
    let mut a = configured_account();
    a.pending_balance_credit_counter = a.maximum_pending_balance_credit_counter;
    assert_eq!(cv.deposit(&mut a, 5000, 0, 0), Err(VaultError::PendingBalanceNotApplied));
}

#[test]
fn confidential_redeem_and_withdraw() {
    let mut cv = new_vault();
    let mut a = configured_account();
    cv.deposit(&mut a, 1_000_000, 0, 0).unwrap();
    let eq = verified(ProofKind::CiphertextCommitmentEquality);
    let range = verified(ProofKind::BatchedRangeU64);
    let ev = cv.redeem(&mut a, 1_000_000, 0, 1_000_000_000, &vec![3u8; 36], eq, range).unwrap();
    // 1_000_000 * 1_000_001 / 1_000_001_000
    assert_eq!(ev.assets, 1000);
    assert_eq!(cv.vault.total_assets, 999_000);
    assert_eq!(a.decryptable_available_balance, vec![3u8; 36]);
    let ev2 = cv.withdraw(&mut a, 1000, u64::MAX, 999_000_000, &vec![4u8; 36], eq, range).unwrap();
    assert_eq!(ev2.shares, 1_000_000);
    assert_eq!(cv.vault.total_assets, 998_000);
}

#[test]
fn confidential_exit_errors() {
    let mut cv = new_vault();
    let mut a = configured_account();
    cv.deposit(&mut a, 1_000_000, 0, 0).unwrap();
    let eq = verified(ProofKind::CiphertextCommitmentEquality);
    let range = verified(ProofKind::BatchedRangeU64);
    let bad = ProofContext { kind: ProofKind::BatchedRangeU64, verified: false };
    assert_eq!(cv.redeem(&mut a, 1000, 0, 1_000_000_000, &vec![3u8; 36], eq, bad), Err(VaultError::InvalidProof));
    assert_eq!(cv.redeem(&mut a, 1000, 0, 1_000_000_000, &vec![3u8; 36], range, range), Err(VaultError::InvalidProof));
    assert_eq!(cv.redeem(&mut a, 1000, 0, 1_000_000_000, &vec![3u8; 2], eq, range), Err(VaultError::InvalidCiphertext));
    assert_eq!(cv.redeem(&mut a, 0, 0, 1_000_000_000, &vec![3u8; 36], eq, range), Err(VaultError::ZeroAmount));
    assert_eq!(cv.withdraw(&mut a, 2_000_000, u64::MAX, 1_000_000_000, &vec![3u8; 36], eq, range), Err(VaultError::InsufficientAssets));
    let mut other = ConfidentialAccount::new(USER);
    assert_eq!(cv.redeem(&mut other, 1000, 0, 1_000_000_000, &vec![3u8; 36], eq, range), Err(VaultError::AccountNotConfigured));
    cv.vault.pause(&ADMIN).unwrap();
    assert_eq!(cv.redeem(&mut a, 1000, 0, 1_000_000_000, &vec![3u8; 36], eq, range), Err(VaultError::VaultPaused));
    assert_eq!(cv.vault.total_assets, 1_000_000);
    assert_eq!(a.decryptable_available_balance, vec![0u8; 36]);
}

#[test]
fn confidential_vault_keeps_auditor_key() {
    let cv = new_vault();
    assert_eq!(cv.auditor_elgamal_pubkey, Some([5u8; 32]));
    assert_eq!(cv.vault.decimals_offset, 3);
}
