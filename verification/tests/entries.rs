//! Entries, errors and events.
use globe_wallet::table::Table;
use globe_wallet::types::{
    DAILY_SPENT_TTL_EXTEND_TO, DAILY_SPENT_TTL_THRESHOLD, LEDGERS_PER_DAY,
    PERSISTENT_TTL_EXTEND_TO, PERSISTENT_TTL_THRESHOLD, SECONDS_PER_DAY,
};
use globe_wallet::{
    AssetInfo, Entry, Event, GlobeWallet, Ledger, RecoveryConfig, RecoveryProposal, SpendRecord,
    UpgradeProposal, WalletError,
};
use soroban_sdk::testutils::{Address as _, EnvTestConfig};
use soroban_sdk::{Address, BytesN, Env, String, Symbol};

fn host() -> Env {
    Env::new_with_config(EnvTestConfig { capture_snapshot_at_drop: false })
}

#[test]
fn restored_entries_are_read_back() {
    let env = host();
    let mut wallet = GlobeWallet::new(Address::generate(&env));
    let admin = Address::generate(&env);
    let candidate = Address::generate(&env);
    let user = Address::generate(&env);
    let code = String::from_str(&env, "USDC");
    let hash = BytesN::from_array(&env, &[2u8; 32]);
    let asset = AssetInfo { code: code.clone(), issuer: Some(admin.clone()) };

    wallet.restore(Entry::Admin(admin.clone()));
    wallet.restore(Entry::PendingAdmin { current: admin.clone(), candidate: candidate.clone() });
    wallet.restore(Entry::PendingUpgrade(UpgradeProposal {
        wasm_hash: hash.clone(),
        proposed_by: admin.clone(),
        ready_at: 12,
    }));
    wallet.restore(Entry::UserAssets { user: user.clone(), assets: vec![asset.clone()] });
    wallet.restore(Entry::SpendLimit {
        user: user.clone(),
        asset_code: code.clone(),
        limit: 70,
    });
    wallet.restore(Entry::DailySpent {
        user: user.clone(),
        asset_code: code.clone(),
        record: SpendRecord { amount: 60, day: 3 },
    });
    wallet.restore(Entry::Guardians(vec![admin.clone(), user.clone()]));
    wallet.restore(Entry::RecoveryConfig(RecoveryConfig { threshold: 2, delay_in_ledgers: 9 }));
    wallet.restore(Entry::RecoveryProposal {
        new_admin: candidate.clone(),
        approvals: vec![user.clone()],
        ready_at: Some(77),
    });
    wallet.restore(Entry::GuardianMembership(vec![(admin.clone(), true), (user.clone(), false)]));

    // Taking entries over leaves nothing to do.
    assert_eq!(wallet.take_effects(), vec![]);
    assert_eq!(wallet.admin(), admin);
    assert_eq!(wallet.pending_admin(&admin), Some(candidate.clone()));
    assert_eq!(
        wallet.pending_upgrade(),
        Some(&UpgradeProposal { wasm_hash: hash, proposed_by: admin.clone(), ready_at: 12 })
    );
    assert_eq!(wallet.get_assets(user.clone()), vec![asset]);
    assert_eq!(wallet.get_spend_limit(user.clone(), code.clone()), 70);
    assert_eq!(
        wallet.daily_spent(user.clone(), code.clone()),
        Some(SpendRecord { amount: 60, day: 3 })
    );
    let guardians: Vec<Address> = wallet.guardians().iter().collect();
    assert_eq!(guardians, vec![admin.clone(), user.clone()]);
    assert_eq!(
        wallet.recovery_config(),
        Some(RecoveryConfig { threshold: 2, delay_in_ledgers: 9 })
    );
    let mut approvals = soroban_sdk::Vec::new(&env);
    approvals.push_back(user.clone());
    assert_eq!(
        wallet.recovery_proposal(),
        Some(RecoveryProposal { new_admin: candidate, approvals, ready_at: Some(77) })
    );
    let index = wallet.guardian_index().unwrap();
    assert_eq!(index.len(), 2);
    assert_eq!(index.get(admin), Some(true));
    assert_eq!(index.get(user.clone()), Some(false));
    // A flag that is not set makes no guardian.
    assert_eq!(
        wallet.approve_recovery(Ledger { sequence: 0, timestamp: 0 }, user),
        Err(WalletError::Unauthorized)
    );
}

#[test]
fn later_entries_replace_earlier_ones() {
    let env = host();
    let mut wallet = GlobeWallet::new(Address::generate(&env));
    let user = Address::generate(&env);
    let other = Address::generate(&env);
    let code = String::from_str(&env, "XLM");
    wallet.restore(Entry::GuardianMembership(vec![(user.clone(), true), (user.clone(), false)]));
    assert_eq!(wallet.guardian_index().unwrap().get(user.clone()), Some(false));
    for limit in [5, 6] {
        wallet.restore(Entry::SpendLimit { user: user.clone(), asset_code: code.clone(), limit });
    }
    assert_eq!(wallet.get_spend_limit(user.clone(), code.clone()), 6);
    assert_eq!(wallet.get_spend_limit(other.clone(), code), 0);
    wallet.restore(Entry::Guardians(vec![user]));
    wallet.restore(Entry::Guardians(vec![other.clone()]));
    let guardians: Vec<Address> = wallet.guardians().iter().collect();
    assert_eq!(guardians, vec![other]);
}

#[test]
fn new_wallet_has_no_entries() {
    let env = host();
    let wallet = GlobeWallet::new(Address::generate(&env));
    let user = Address::generate(&env);
    let code = String::from_str(&env, "XLM");
    assert_eq!(wallet.pending_admin(&user), None);
    assert_eq!(wallet.pending_upgrade(), None);
    assert_eq!(wallet.guardians().len(), 0);
    assert!(wallet.guardian_index().is_none());
    assert_eq!(wallet.recovery_config(), None);
    assert_eq!(wallet.recovery_proposal(), None);
    assert_eq!(wallet.get_assets(user.clone()), vec![]);
    assert_eq!(wallet.get_spend_limit(user.clone(), code.clone()), 0);
    assert_eq!(wallet.daily_spent(user, code), None);
}

#[test]
fn table_keeps_one_value_per_key() {
    let env = host();
    let a = Address::generate(&env);
    let b = Address::generate(&env);
    let mut table: Table<Address, u32> = Table::new();
    assert_eq!(table.get(&a), None);
    table.insert(a.clone(), 1);
    table.insert(b.clone(), 2);
    table.insert(a.clone(), 3);
    assert_eq!(table.get(&a), Some(&3));
    assert_eq!(table.get(&b), Some(&2));
    assert_eq!(table.take(&a), Some(3));
    assert_eq!(table.take(&a), None);
    assert_eq!(table.get(&a), None);
    assert_eq!(table.get(&b), Some(&2));
}

#[test]
fn error_codes() {
    let codes = [
        (WalletError::AlreadyInitialized, 1001),
        (WalletError::NotInitialized, 1002),
        (WalletError::Unauthorized, 1003),
        (WalletError::AssetAlreadyAdded, 1004),
        (WalletError::AssetNotFound, 1005),
        (WalletError::InvalidSpendLimit, 1006),
        (WalletError::SpendLimitExceeded, 1007),
        (WalletError::NoAssetsProvided, 1008),
        (WalletError::NoPendingAdmin, 9),
        (WalletError::SpendOverflow, 10),
        (WalletError::AssetLimitExceeded, 11),
        (WalletError::MaxAssetsReached, 12),
        (WalletError::UpgradeAlreadyPending, 13),
        (WalletError::UpgradeNotPending, 14),
        (WalletError::UpgradeHashMismatch, 15),
        (WalletError::UpgradeNotReady, 16),
        (WalletError::UpgradeFailed, 17),
        (WalletError::GuardianAlreadyAdded, 18),
        (WalletError::GuardianNotFound, 19),
        (WalletError::InvalidRecoveryThreshold, 20),
        (WalletError::NotEnoughGuardians, 21),
        (WalletError::RecoveryNotConfigured, 22),
        (WalletError::RecoveryAlreadyPending, 23),
        (WalletError::NoPendingRecovery, 24),
        (WalletError::AlreadyApproved, 25),
        (WalletError::ApprovalNotFound, 26),
        (WalletError::RecoveryNotReady, 27),
        (WalletError::RecoveryNotQuorate, 28),
        (WalletError::InvalidAssetInfo, 29),
    ];
    for (error, code) in codes {
        assert_eq!(error.code(), code);
    }
}

#[test]
fn event_topics() {
    let env = host();
    let a = Address::generate(&env);
    let code = String::from_str(&env, "XLM");
    let hash = BytesN::from_array(&env, &[0u8; 32]);
    let topics = [
        (Event::Initialized { admin: a.clone() }, "initialized"),
        (
            Event::AdminProposed { current: a.clone(), candidate: a.clone() },
            "admin_proposed",
        ),
        (
            Event::AdminTransferred { old_admin: a.clone(), new_admin: a.clone() },
            "admin_transferred",
        ),
        (Event::AdminTransferCancelled { current: a.clone() }, "admin_transfer_cancelled"),
        (
            Event::UpgradeProposed { proposer: a.clone(), wasm_hash: hash.clone(), ready_at: 0 },
            "upgrade_proposed",
        ),
        (
            Event::UpgradeExecuted { executor: a.clone(), wasm_hash: hash },
            "upgrade_executed",
        ),
        (Event::GuardianAdded { guardian: a.clone() }, "guardian_added"),
        (Event::GuardianRemoved { guardian: a.clone() }, "guardian_removed"),
        (
            Event::RecoveryConfigSet { threshold: 2, delay_in_ledgers: 1 },
            "recovery_config_set",
        ),
        (
            Event::RecoveryInitiated { guardian: a.clone(), new_admin: a.clone() },
            "recovery_initiated",
        ),
        (
            Event::RecoveryQuorumReached { new_admin: a.clone(), ready_at: 0 },
            "recovery_quorum_reached",
        ),
        (Event::RecoveryApproved { guardian: a.clone() }, "recovery_approved"),
        (Event::RecoveryApprovalRevoked { guardian: a.clone() }, "recovery_approval_revoked"),
        (Event::RecoveryCancelled { admin: a.clone() }, "recovery_cancelled"),
        (Event::AssetAdded { user: a.clone(), asset_code: code.clone() }, "asset_added"),
        (Event::AssetRemoved { user: a.clone(), asset_code: code.clone() }, "asset_removed"),
        (
            Event::SpendLimitSet { user: a.clone(), asset_code: code.clone(), limit: 0 },
            "spend_limit_set",
        ),
        (
            Event::SpendRecorded {
                user: a.clone(),
                asset_code: code,
                amount: 0,
                total: 0,
                limit: 0,
            },
            "spend_recorded",
        ),
        (Event::UserAssetsMigrated { user: a, removed: 0 }, "user_assets_migrated"),
    ];
    for (event, topic) in topics {
        assert_eq!(event.topic(), topic);
        assert_eq!(Symbol::new(&env, event.topic()).to_string(), topic);
    }
}

#[test]
fn lifetimes_outlast_the_day() {
    assert_eq!(SECONDS_PER_DAY, 86_400);
    assert_eq!(u64::from(LEDGERS_PER_DAY) * 5, SECONDS_PER_DAY);
    assert_eq!(DAILY_SPENT_TTL_THRESHOLD, LEDGERS_PER_DAY);
    assert_eq!(DAILY_SPENT_TTL_EXTEND_TO, 2 * LEDGERS_PER_DAY);
    assert_eq!(PERSISTENT_TTL_THRESHOLD, 7 * LEDGERS_PER_DAY);
    assert_eq!(PERSISTENT_TTL_EXTEND_TO, 30 * LEDGERS_PER_DAY);
}
