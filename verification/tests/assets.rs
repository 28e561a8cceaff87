//! The asset registry.
use globe_wallet::{AssetInfo, DataKey, Effect, Entry, Event, GlobeWallet, WalletError};
use soroban_sdk::testutils::{Address as _, EnvTestConfig, Ledger as _};
use soroban_sdk::{Address, Env, String};

fn host() -> Env {
    Env::new_with_config(EnvTestConfig { capture_snapshot_at_drop: false })
}

fn setup() -> (Env, Address, GlobeWallet) {
    let env = host();
    let mut wallet = GlobeWallet::new(Address::generate(&env));
    let admin = Address::generate(&env);
    assert_eq!(wallet.initialize(admin.clone()), Ok(()));
    (env, admin, wallet)
}

fn xlm(env: &Env) -> AssetInfo {
    AssetInfo { code: String::from_str(env, "XLM"), issuer: None }
}

fn usdc(env: &Env) -> AssetInfo {
    AssetInfo { code: String::from_str(env, "USDC"), issuer: Some(Address::generate(env)) }
}

fn issued(env: &Env, code: &str) -> AssetInfo {
    AssetInfo { code: String::from_str(env, code), issuer: Some(Address::generate(env)) }
}

fn make_code(env: &Env, n: u32) -> String {
    String::from_str(env, &format!("A{:02}", n))
}

fn fill_to_max(env: &Env, wallet: &mut GlobeWallet, user: &Address) {
    for i in 0..GlobeWallet::MAX_ASSETS {
        let asset = AssetInfo { code: make_code(env, i), issuer: Some(Address::generate(env)) };
        assert_eq!(wallet.add_asset(user.clone(), asset), Ok(()));
    }
}

#[test]
fn test_add_and_get_assets() {
    let (env, _admin, mut wallet) = setup();
    let user = Address::generate(&env);
    assert_eq!(wallet.add_asset(user.clone(), xlm(&env)), Ok(()));
    assert_eq!(wallet.add_asset(user.clone(), usdc(&env)), Ok(()));
    let assets = wallet.get_assets(user);
    assert_eq!(assets.len(), 2);
    assert_eq!(assets[0].code, String::from_str(&env, "XLM"));
}

#[test]
fn test_add_duplicate_asset_fails() {
    let (env, _admin, mut wallet) = setup();
    let user = Address::generate(&env);
    assert_eq!(wallet.add_asset(user.clone(), xlm(&env)), Ok(()));
    assert_eq!(wallet.add_asset(user, xlm(&env)), Err(WalletError::AssetAlreadyAdded));
}

#[test]
fn test_remove_asset() {
    let (env, _admin, mut wallet) = setup();
    let user = Address::generate(&env);
    assert_eq!(wallet.add_asset(user.clone(), xlm(&env)), Ok(()));
    assert_eq!(wallet.add_asset(user.clone(), usdc(&env)), Ok(()));
    assert_eq!(wallet.remove_asset(user.clone(), String::from_str(&env, "XLM")), Ok(()));
    let assets = wallet.get_assets(user);
    assert_eq!(assets.len(), 1);
    assert_eq!(assets[0].code, String::from_str(&env, "USDC"));
}

#[test]
fn test_remove_nonexistent_asset_fails() {
    let (env, _admin, mut wallet) = setup();
    let user = Address::generate(&env);
    assert_eq!(
        wallet.remove_asset(user, String::from_str(&env, "XLM")),
        Err(WalletError::AssetNotFound)
    );
}

#[test]
fn test_max_assets_limit() {
    let (env, _admin, mut wallet) = setup();
    let user = Address::generate(&env);
    let mut assets: Vec<AssetInfo> = Vec::new();
    for i in 0..GlobeWallet::MAX_ASSETS {
        let code = String::from_str(&env, &format!("ASSET{}", i));
        assets.push(AssetInfo { code, issuer: None });
    }
    wallet.restore(Entry::UserAssets { user: user.clone(), assets });
    let extra = AssetInfo { code: String::from_str(&env, "EXTRA"), issuer: None };
    assert_eq!(wallet.add_asset(user.clone(), extra), Err(WalletError::AssetLimitExceeded));
    assert_eq!(wallet.get_assets(user).len(), 50);
}

#[test]
fn test_migrate_user_assets_trims_excess() {
    let (env, admin, mut wallet) = setup();
    let user = Address::generate(&env);
    let mut assets: Vec<AssetInfo> = Vec::new();
    for i in 0..GlobeWallet::MAX_ASSETS + 10 {
        let code = String::from_str(&env, &format!("ASSET{}", i));
        assets.push(AssetInfo { code, issuer: None });
    }
    wallet.restore(Entry::UserAssets { user: user.clone(), assets });
    assert_eq!(wallet.migrate_user_assets(admin, user.clone()), Ok(10));
    let assets = wallet.get_assets(user);
    assert_eq!(assets.len(), GlobeWallet::MAX_ASSETS as usize);
}

#[test]
fn test_migrate_user_assets_within_limit_does_nothing() {
    let (env, admin, mut wallet) = setup();
    let user = Address::generate(&env);
    let mut assets: Vec<AssetInfo> = Vec::new();
    for i in 0..3 {
        let code = String::from_str(&env, &format!("ASSET{}", i));
        assets.push(AssetInfo { code, issuer: None });
    }
    wallet.restore(Entry::UserAssets { user: user.clone(), assets });
    assert_eq!(wallet.migrate_user_assets(admin, user.clone()), Ok(0));
    let assets = wallet.get_assets(user);
    assert_eq!(assets.len(), 3);
}

#[test]
fn test_migrate_user_assets_requires_admin() {
    let (env, _admin, mut wallet) = setup();
    let user = Address::generate(&env);
    let non_admin = Address::generate(&env);
    assert_eq!(
        wallet.migrate_user_assets(non_admin, user),
        Err(WalletError::Unauthorized)
    );
}

#[test]
fn test_native_code_with_issuer_is_contradictory_and_rejected() {
    let (env, _admin, mut wallet) = setup();
    let user = Address::generate(&env);
    let bogus = AssetInfo {
        code: String::from_str(&env, "XLM"),
        issuer: Some(Address::generate(&env)),
    };
    assert_eq!(wallet.add_asset(user, bogus), Err(WalletError::InvalidAssetInfo));
}

#[test]
fn test_non_native_code_without_issuer_is_underspecified_and_rejected() {
    let (env, _admin, mut wallet) = setup();
    let user = Address::generate(&env);
    let ambiguous = AssetInfo { code: String::from_str(&env, "USDC"), issuer: None };
    assert_eq!(wallet.add_asset(user, ambiguous), Err(WalletError::InvalidAssetInfo));
}

#[test]
fn test_user_assets_ttl_extension_after_long_idle_period() {
    let (env, _admin, mut wallet) = setup();
    let user = Address::generate(&env);
    assert_eq!(wallet.add_asset(user.clone(), xlm(&env)), Ok(()));
    let _ = wallet.take_effects();
    assert_eq!(wallet.add_asset(user.clone(), usdc(&env)), Ok(()));

    // Carry the writes out on a ledger, in any contract's storage.
    let storage = env.register_stellar_asset_contract_v2(user.clone()).address();
    let mut codes: soroban_sdk::Vec<String> = soroban_sdk::Vec::new(&env);
    for asset in wallet.get_assets(user.clone()) {
        codes.push_back(asset.code);
    }
    for effect in wallet.take_effects() {
        env.as_contract(&storage, || match &effect {
            Effect::Store(DataKey::UserAssets(owner)) => {
                env.storage().persistent().set(owner, &codes)
            }
            Effect::ExtendTtl { key: DataKey::UserAssets(owner), threshold, extend_to } => {
                env.storage().persistent().extend_ttl(owner, *threshold, *extend_to)
            }
            _ => {}
        });
    }

    env.ledger().with_mut(|l| l.sequence_number += 50_000);

    let kept: soroban_sdk::Vec<String> =
        env.as_contract(&storage, || env.storage().persistent().get(&user).unwrap());
    assert_eq!(kept.len(), 2);
    assert_eq!(kept.get(0).unwrap(), String::from_str(&env, "XLM"));
    let assets = wallet.get_assets(user);
    assert_eq!(assets.len(), 2);
    assert_eq!(assets[0].code, String::from_str(&env, "XLM"));
}

#[test]
fn asset_changes_are_stored_kept_alive_and_published() {
    let (env, _admin, mut wallet) = setup();
    let user = Address::generate(&env);
    let code = String::from_str(&env, "XLM");
    let _ = wallet.take_effects();
    assert_eq!(wallet.add_asset(user.clone(), xlm(&env)), Ok(()));
    assert_eq!(
        wallet.take_effects(),
        vec![
            Effect::RequireAuth(user.clone()),
            Effect::Store(DataKey::UserAssets(user.clone())),
            Effect::ExtendTtl {
                key: DataKey::UserAssets(user.clone()),
                threshold: 120_960,
                extend_to: 518_400,
            },
            Effect::Publish(Event::AssetAdded { user: user.clone(), asset_code: code.clone() }),
        ]
    );
    assert_eq!(wallet.remove_asset(user.clone(), code.clone()), Ok(()));
    assert_eq!(
        wallet.take_effects(),
        vec![
            Effect::RequireAuth(user.clone()),
            Effect::Store(DataKey::UserAssets(user.clone())),
            Effect::ExtendTtl {
                key: DataKey::UserAssets(user.clone()),
                threshold: 120_960,
                extend_to: 518_400,
            },
            Effect::Publish(Event::AssetRemoved { user, asset_code: code }),
        ]
    );
}

#[test]
fn removal_undoes_registration() {
    let (env, _admin, mut wallet) = setup();
    let user = Address::generate(&env);
    assert_eq!(wallet.add_asset(user.clone(), usdc(&env)), Ok(()));
    let before = wallet.get_assets(user.clone());
    let euro = issued(&env, "EURC");
    assert_eq!(wallet.add_asset(user.clone(), euro.clone()), Ok(()));
    assert_eq!(wallet.get_assets(user.clone()), vec![before[0].clone(), euro.clone()]);
    assert_eq!(wallet.remove_asset(user.clone(), euro.code.clone()), Ok(()));
    assert_eq!(wallet.get_assets(user.clone()), before);
    assert_eq!(
        wallet.remove_asset(user.clone(), euro.code.clone()),
        Err(WalletError::AssetNotFound)
    );
    assert_eq!(wallet.add_asset(user, euro), Ok(()));
}

#[test]
fn one_code_is_registered_once_whoever_issues_it() {
    let (env, _admin, mut wallet) = setup();
    let user = Address::generate(&env);
    assert_eq!(wallet.add_asset(user.clone(), usdc(&env)), Ok(()));
    assert_eq!(wallet.add_asset(user, usdc(&env)), Err(WalletError::AssetAlreadyAdded));
}

#[test]
fn full_registry_takes_an_asset_again_after_a_removal() {
    let (env, _admin, mut wallet) = setup();
    let user = Address::generate(&env);
    fill_to_max(&env, &mut wallet, &user);
    // The bound comes before everything else that speaks against an asset.
    let contradictory = AssetInfo { code: String::from_str(&env, "USDC"), issuer: None };
    assert_eq!(
        wallet.add_asset(user.clone(), contradictory.clone()),
        Err(WalletError::AssetLimitExceeded)
    );
    assert_eq!(
        wallet.add_asset(user.clone(), issued(&env, "A07")),
        Err(WalletError::AssetLimitExceeded)
    );
    assert_eq!(
        wallet.add_asset(user.clone(), xlm(&env)),
        Err(WalletError::AssetLimitExceeded)
    );
    assert_eq!(wallet.remove_asset(user.clone(), make_code(&env, 7)), Ok(()));
    assert_eq!(
        wallet.add_asset(user.clone(), contradictory),
        Err(WalletError::InvalidAssetInfo)
    );
    assert_eq!(wallet.add_asset(user.clone(), xlm(&env)), Ok(()));
    let assets = wallet.get_assets(user);
    assert_eq!(assets.len(), 50);
    assert_eq!(assets[6].code, make_code(&env, 6));
    assert_eq!(assets[7].code, make_code(&env, 8));
    assert_eq!(assets[49], xlm(&env));
}

#[test]
fn users_have_registries_of_their_own() {
    let (env, _admin, mut wallet) = setup();
    let user = Address::generate(&env);
    let other = Address::generate(&env);
    assert_eq!(wallet.add_asset(user.clone(), xlm(&env)), Ok(()));
    assert_eq!(wallet.get_assets(other.clone()), vec![]);
    assert_eq!(wallet.add_asset(other.clone(), xlm(&env)), Ok(()));
    assert_eq!(wallet.remove_asset(user.clone(), String::from_str(&env, "XLM")), Ok(()));
    assert_eq!(wallet.get_assets(user), vec![]);
    assert_eq!(wallet.get_assets(other), vec![xlm(&env)]);
}

#[test]
fn migration_keeps_the_first_and_is_published() {
    let (env, admin, mut wallet) = setup();
    let user = Address::generate(&env);
    let list: Vec<AssetInfo> = (0..52)
        .map(|i| AssetInfo { code: make_code(&env, i), issuer: None })
        .collect();
    wallet.restore(Entry::UserAssets { user: user.clone(), assets: list.clone() });
    let _ = wallet.take_effects();
    assert_eq!(wallet.migrate_user_assets(admin.clone(), user.clone()), Ok(2));
    assert_eq!(wallet.get_assets(user.clone()), list[..50].to_vec());
    assert_eq!(
        wallet.take_effects(),
        vec![
            Effect::RequireAuth(admin.clone()),
            Effect::Store(DataKey::UserAssets(user.clone())),
            Effect::ExtendTtl {
                key: DataKey::UserAssets(user.clone()),
                threshold: 120_960,
                extend_to: 518_400,
            },
            Effect::Publish(Event::UserAssetsMigrated { user: user.clone(), removed: 2 }),
        ]
    );
    // A second time there is nothing to trim, and nothing to write.
    assert_eq!(wallet.migrate_user_assets(admin.clone(), user), Ok(0));
    assert_eq!(wallet.take_effects(), vec![Effect::RequireAuth(admin)]);
}

#[test]
fn exactly_the_native_code_is_native() {
    let env = host();
    assert!(xlm(&env).is_consistent());
    assert!(usdc(&env).is_consistent());
    for code in ["", "X", "XL", "XLMM", "xlm", "XML", "LMX"] {
        let code = String::from_str(&env, code);
        assert!(!AssetInfo { code: code.clone(), issuer: None }.is_consistent());
        assert!(AssetInfo { code, issuer: Some(Address::generate(&env)) }.is_consistent());
    }
}

#[test]
fn codes_are_compared_across_hosts() {
    let (env, _admin, mut wallet) = setup();
    let elsewhere = host();
    let user = Address::generate(&env);
    assert_eq!(wallet.add_asset(user.clone(), xlm(&env)), Ok(()));
    assert_eq!(
        wallet.add_asset(user.clone(), xlm(&elsewhere)),
        Err(WalletError::AssetAlreadyAdded)
    );
    assert_eq!(wallet.remove_asset(user.clone(), String::from_str(&elsewhere, "XLM")), Ok(()));
    assert_eq!(wallet.get_assets(user), vec![]);
}
