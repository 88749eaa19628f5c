use svs::error::VaultError;
use svs::events::{Deposit, VaultStatusChanged, VaultSynced};
use svs::state::Vault;

const ADMIN: [u8; 32] = [7u8; 32];
const USER: [u8; 32] = [9u8; 32];

fn vault_with(total_assets: u64, asset_decimals: u8) -> Vault {
    let (mut v, _) = Vault::initialize(ADMIN, [1u8; 32], [2u8; 32], [3u8; 32], asset_decimals, 255, 0).unwrap();
    v.total_assets = total_assets;
    v
}

#[test]
fn initialize_sets_offset_from_decimals() {
    let (v, ev) = Vault::initialize(ADMIN, [1u8; 32], [2u8; 32], [3u8; 32], 6, 254, 42).unwrap();
    assert_eq!(v.decimals_offset, 3);
    assert_eq!(v.total_assets, 0);
    assert!(!v.paused);
    assert_eq!(v.vault_id, 42);
    assert_eq!(ev.vault_id, 42);
    assert_eq!(ev.authority, ADMIN);
}

#[test]
fn initialize_refuses_too_many_decimals() {
    let r = Vault::initialize(ADMIN, [1u8; 32], [2u8; 32], [3u8; 32], 10, 254, 0);
    assert_eq!(r.err(), Some(VaultError::InvalidAssetDecimals));
}

#[test]
fn deposit_into_proportional_vault() {
    let mut v = vault_with(1_000_000, 6);
    let ev = v.deposit(USER, 100_000, 0, 1_000_000).unwrap();
    assert_eq!(ev, Deposit { caller: USER, owner: USER, assets: 100_000, shares: 100_099 });
    assert_eq!(v.total_assets, 1_100_000);
}

#[test]
fn deposit_into_empty_vault() {
    let mut v = vault_with(0, 6);
    let ev = v.deposit(USER, 1_000_000, 0, 0).unwrap();
    assert_eq!(ev.shares, 1_000_000_000);
    assert_eq!(v.total_assets, 1_000_000);
}

#[test]
fn deposit_errors() {
    let mut v = vault_with(0, 6);
    assert_eq!(v.deposit(USER, 0, 0, 0), Err(VaultError::ZeroAmount));
    assert_eq!(v.deposit(USER, 999, 0, 0), Err(VaultError::DepositTooSmall));
    assert_eq!(v.deposit(USER, 1000, 1_000_001, 0), Err(VaultError::SlippageExceeded));
    assert_eq!(v.total_assets, 0);
    v.total_assets = u64::MAX - 1;
    assert_eq!(v.deposit(USER, 1000, 0, u64::MAX / 2), Err(VaultError::MathOverflow));
    v.paused = true;
    assert_eq!(v.deposit(USER, 1000, 0, 0), Err(VaultError::VaultPaused));
}

#[test]
fn mint_charges_rounded_up() {
    let mut v = vault_with(1000, 6);
    let ev = v.mint(USER, 100, u64::MAX, 1000).unwrap();
    // 100 * 1001 / 2000, rounded up
    assert_eq!(ev.assets, 51);
    assert_eq!(v.total_assets, 1051);
    assert_eq!(v.mint(USER, 100, 50, 1000), Err(VaultError::SlippageExceeded));
    assert_eq!(v.mint(USER, 0, 50, 1000), Err(VaultError::ZeroAmount));
}

#[test]
fn withdraw_burns_rounded_up() {
    let mut v = vault_with(1000, 6);
    // 100 * 2000 / 1001, rounded up
    let ev = v.withdraw(USER, 100, u64::MAX, 1000, 1000).unwrap();
    assert_eq!(ev.shares, 200);
    assert_eq!(v.total_assets, 900);
    assert_eq!(v.withdraw(USER, 100, 150, 1000, 1000), Err(VaultError::SlippageExceeded));
    assert_eq!(v.withdraw(USER, 100, u64::MAX, 1000, 10), Err(VaultError::InsufficientShares));
    assert_eq!(v.withdraw(USER, 901, u64::MAX, 0, u64::MAX), Err(VaultError::InsufficientAssets));
    assert_eq!(v.total_assets, 900);
}

#[test]
fn redeem_pays_rounded_down() {
    let mut v = vault_with(1000, 6);
    // 100 * 1001 / 2000, rounded down
    let ev = v.redeem(USER, 100, 0, 1000, 500).unwrap();
    assert_eq!(ev.assets, 50);
    assert_eq!(v.total_assets, 950);
    assert_eq!(v.redeem(USER, 100, 0, 1000, 99), Err(VaultError::InsufficientShares));
    assert_eq!(v.redeem(USER, 100, 51, 1000, 500), Err(VaultError::SlippageExceeded));
    assert_eq!(v.redeem(USER, 0, 0, 1000, 500), Err(VaultError::ZeroAmount));
}

#[test]
fn redeem_beyond_cached_total_is_refused() {
    let mut v = vault_with(10, 9);
    // 100 * 11 / 2, more than the 10 cached assets
    assert_eq!(v.redeem(USER, 100, 0, 1, 100), Err(VaultError::InsufficientAssets));
}

#[test]
fn pause_twice_fails_second_time() {
    let mut v = vault_with(0, 6);
    assert_eq!(v.pause(&ADMIN), Ok(VaultStatusChanged { paused: true }));
    assert_eq!(v.pause(&ADMIN), Err(VaultError::VaultPaused));
    assert!(v.paused);
    assert_eq!(v.unpause(&ADMIN), Ok(VaultStatusChanged { paused: false }));
    assert_eq!(v.unpause(&ADMIN), Err(VaultError::VaultPaused));
    assert!(!v.paused);
}

#[test]
fn admin_operations_need_authority() {
    let mut v = vault_with(0, 6);
    assert_eq!(v.pause(&USER), Err(VaultError::Unauthorized));
    assert_eq!(v.sync(&USER, 5), Err(VaultError::Unauthorized));
    assert_eq!(v.transfer_authority(&USER, USER), Err(VaultError::Unauthorized));
    let ev = v.transfer_authority(&ADMIN, USER).unwrap();
    assert_eq!(ev.previous_authority, ADMIN);
    assert_eq!(v.authority, USER);
    assert_eq!(v.pause(&ADMIN), Err(VaultError::Unauthorized));
}

#[test]
fn sync_twice_keeps_total() {
    let mut v = vault_with(100, 6);
    assert_eq!(v.sync(&ADMIN, 5000), Ok(VaultSynced { previous_total: 100, new_total: 5000 }));
    assert_eq!(v.sync(&ADMIN, 5000), Ok(VaultSynced { previous_total: 5000, new_total: 5000 }));
    assert_eq!(v.total_assets, 5000);
}

#[test]
fn views_follow_rounding_policy() {
    let v = vault_with(1000, 6);
    assert_eq!(v.preview_deposit(100, 1000), Ok(199));
    assert_eq!(v.preview_withdraw(100, 1000), Ok(200));
    assert_eq!(v.preview_redeem(100, 1000), Ok(50));
    assert_eq!(v.preview_mint(100, 1000), Ok(51));
    assert_eq!(v.convert_to_shares_view(100, 1000), Ok(199));
    assert_eq!(v.convert_to_assets_view(100, 1000), Ok(50));
    assert_eq!(v.get_total_assets(), 1000);
}

#[test]
fn max_views_respect_pause() {
    let mut v = vault_with(1000, 6);
    assert_eq!(v.max_deposit(), u64::MAX);
    assert_eq!(v.max_mint(), u64::MAX);
    assert_eq!(v.max_redeem(77), 77);
    assert_eq!(v.max_withdraw(1000, 100), Ok(50));
    assert_eq!(v.max_withdraw(0, u64::MAX / 2), Ok(1000));
    v.paused = true;
    assert_eq!(v.max_deposit(), 0);
    assert_eq!(v.max_mint(), 0);
    assert_eq!(v.max_redeem(77), 0);
    assert_eq!(v.max_withdraw(1000, 100), Ok(0));
}

#[test]
fn initialize_accepts_up_to_nine_decimals() {
    for d in 0..=9u8 {
        let (v, _) = Vault::initialize(ADMIN, [1u8; 32], [2u8; 32], [3u8; 32], d, 1, 5).unwrap();
        assert_eq!(v.decimals_offset, 9 - d);
        assert_eq!(v.reserved, [0u8; 64]);
    }
}
