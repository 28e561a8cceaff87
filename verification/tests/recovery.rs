//! Guardians, and recovery of the admin role.
use globe_wallet::{
    DataKey, Effect, Entry, Event, GlobeWallet, Ledger, RecoveryConfig, RecoveryProposal,
    WalletError,
};
use soroban_sdk::testutils::{Address as _, EnvTestConfig};
use soroban_sdk::{Address, Env};

const START: Ledger = Ledger { sequence: 0, timestamp: 0 };

fn at(sequence: u32) -> Ledger {
    Ledger { sequence, timestamp: 0 }
}

fn host() -> Env {
    Env::new_with_config(EnvTestConfig { capture_snapshot_at_drop: false })
}

fn setup() -> (Env, Address, GlobeWallet) {
    let env = host();
    let mut wallet = GlobeWallet::new(Address::generate(&env));
    let admin = Address::generate(&env);
    assert_eq!(wallet.initialize(admin.clone()), Ok(()));
    (env, admin, wallet)
}

fn setup_with_guardians(n: u32) -> (Env, Address, Vec<Address>, GlobeWallet) {
    let (env, admin, mut wallet) = setup();
    let mut guardians: Vec<Address> = Vec::new();
    for _ in 0..n {
        let g = Address::generate(&env);
        assert_eq!(wallet.add_guardian(admin.clone(), g.clone()), Ok(()));
        guardians.push(g);
    }
    (env, admin, guardians, wallet)
}

fn listed(wallet: &GlobeWallet) -> Vec<Address> {
    wallet.guardians().iter().collect()
}

fn approvals(wallet: &GlobeWallet) -> Vec<Address> {
    wallet.recovery_proposal().unwrap().approvals.iter().collect()
}

#[test]
fn test_add_and_list_guardians() {
    let (_env, _admin, guardians, wallet) = setup_with_guardians(3);
    let stored = wallet.guardians();
    assert_eq!(stored.len(), 3);
    for i in 0..3 {
        assert_eq!(stored.get(i).unwrap(), guardians[i as usize]);
    }
}

#[test]
fn test_add_duplicate_guardian_fails() {
    let (_env, admin, guardians, mut wallet) = setup_with_guardians(1);
    assert_eq!(
        wallet.add_guardian(admin, guardians[0].clone()),
        Err(WalletError::GuardianAlreadyAdded)
    );
}

#[test]
fn test_non_admin_cannot_add_guardian() {
    let (env, _admin, _guardians, mut wallet) = setup_with_guardians(1);
    let stranger = Address::generate(&env);
    let candidate = Address::generate(&env);
    assert_eq!(wallet.add_guardian(stranger, candidate), Err(WalletError::Unauthorized));
}

#[test]
fn test_remove_guardian_below_threshold_fails() {
    let (_env, admin, guardians, mut wallet) = setup_with_guardians(3);
    assert_eq!(wallet.set_recovery_config(admin.clone(), 3u32, 10u32), Ok(()));
    assert_eq!(
        wallet.remove_guardian(admin, guardians[0].clone()),
        Err(WalletError::NotEnoughGuardians)
    );
}

#[test]
fn test_removed_guardian_cannot_initiate_recovery() {
    let (env, admin, guardians, mut wallet) = setup_with_guardians(4);
    assert_eq!(wallet.set_recovery_config(admin.clone(), 2u32, 10u32), Ok(()));
    let removed = guardians[0].clone();
    assert_eq!(wallet.remove_guardian(admin, removed.clone()), Ok(()));
    assert_eq!(
        wallet.initiate_recovery(removed, Address::generate(&env)),
        Err(WalletError::Unauthorized)
    );
}

#[test]
fn test_set_recovery_config_requires_min_guardians() {
    let (_env, admin, _guardians, mut wallet) = setup_with_guardians(2);
    assert_eq!(
        wallet.set_recovery_config(admin, 2u32, 10u32),
        Err(WalletError::NotEnoughGuardians)
    );
}

#[test]
fn test_set_recovery_config_rejects_single_guardian_threshold() {
    let (_env, admin, _guardians, mut wallet) = setup_with_guardians(3);
    assert_eq!(
        wallet.set_recovery_config(admin, 1u32, 10u32),
        Err(WalletError::InvalidRecoveryThreshold)
    );
}

#[test]
fn test_set_recovery_config_rejects_threshold_above_guardian_count() {
    let (_env, admin, _guardians, mut wallet) = setup_with_guardians(3);
    assert_eq!(
        wallet.set_recovery_config(admin, 4u32, 10u32),
        Err(WalletError::NotEnoughGuardians)
    );
}

#[test]
fn test_recovery_happy_path_2_of_3() {
    let (env, admin, guardians, mut wallet) = setup_with_guardians(3);
    assert_eq!(wallet.set_recovery_config(admin, 2u32, 10u32), Ok(()));
    let new_admin = Address::generate(&env);

    assert_eq!(wallet.initiate_recovery(guardians[0].clone(), new_admin.clone()), Ok(()));
    // One approval is no quorum.
    assert_eq!(wallet.execute_recovery(START), Err(WalletError::RecoveryNotQuorate));

    assert_eq!(wallet.approve_recovery(START, guardians[1].clone()), Ok(()));
    // The quorum stands, the timelock runs.
    assert_eq!(wallet.execute_recovery(START), Err(WalletError::RecoveryNotReady));

    assert_eq!(wallet.execute_recovery(at(10)), Ok(()));
    assert_eq!(wallet.admin(), new_admin);
    assert!(wallet.recovery_proposal().is_none());
}

#[test]
fn test_recovery_rejects_non_guardian() {
    let (env, admin, _guardians, mut wallet) = setup_with_guardians(3);
    assert_eq!(wallet.set_recovery_config(admin, 2u32, 10u32), Ok(()));
    let stranger = Address::generate(&env);
    let new_admin = Address::generate(&env);
    assert_eq!(wallet.initiate_recovery(stranger, new_admin), Err(WalletError::Unauthorized));
}

#[test]
fn test_admin_can_cancel_recovery_even_after_quorum() {
    let (env, admin, guardians, mut wallet) = setup_with_guardians(3);
    assert_eq!(wallet.set_recovery_config(admin.clone(), 2u32, 10u32), Ok(()));
    let new_admin = Address::generate(&env);

    assert_eq!(wallet.initiate_recovery(guardians[0].clone(), new_admin), Ok(()));
    assert_eq!(wallet.approve_recovery(START, guardians[1].clone()), Ok(()));
    assert_eq!(wallet.cancel_recovery(admin.clone()), Ok(()));

    assert!(wallet.recovery_proposal().is_none());
    assert_eq!(wallet.execute_recovery(at(100)), Err(WalletError::NoPendingRecovery));
    assert_eq!(wallet.admin(), admin);
}

#[test]
fn test_revoking_approval_below_threshold_resets_timelock() {
    let (env, admin, guardians, mut wallet) = setup_with_guardians(3);
    assert_eq!(wallet.set_recovery_config(admin, 2u32, 10u32), Ok(()));
    let new_admin = Address::generate(&env);

    assert_eq!(wallet.initiate_recovery(guardians[0].clone(), new_admin.clone()), Ok(()));
    assert_eq!(wallet.approve_recovery(START, guardians[1].clone()), Ok(()));

    // Revoked just as the timelock would have elapsed.
    assert_eq!(wallet.revoke_recovery_approval(guardians[1].clone()), Ok(()));
    assert_eq!(wallet.execute_recovery(at(10)), Err(WalletError::RecoveryNotQuorate));

    // A new quorum waits for the whole delay again.
    assert_eq!(wallet.approve_recovery(at(10), guardians[1].clone()), Ok(()));
    assert_eq!(wallet.execute_recovery(at(10)), Err(WalletError::RecoveryNotReady));
    assert_eq!(wallet.execute_recovery(at(20)), Ok(()));
    assert_eq!(wallet.admin(), new_admin);
}

#[test]
fn test_double_approval_rejected() {
    let (env, admin, guardians, mut wallet) = setup_with_guardians(3);
    assert_eq!(wallet.set_recovery_config(admin, 2u32, 10u32), Ok(()));
    let new_admin = Address::generate(&env);
    assert_eq!(wallet.initiate_recovery(guardians[0].clone(), new_admin), Ok(()));
    assert_eq!(
        wallet.approve_recovery(START, guardians[0].clone()),
        Err(WalletError::AlreadyApproved)
    );
}

#[test]
fn test_cannot_initiate_second_recovery_while_one_pending() {
    let (env, admin, guardians, mut wallet) = setup_with_guardians(3);
    assert_eq!(wallet.set_recovery_config(admin, 2u32, 10u32), Ok(()));
    let new_admin_a = Address::generate(&env);
    let new_admin_b = Address::generate(&env);
    assert_eq!(wallet.initiate_recovery(guardians[0].clone(), new_admin_a), Ok(()));
    assert_eq!(
        wallet.initiate_recovery(guardians[1].clone(), new_admin_b),
        Err(WalletError::RecoveryAlreadyPending)
    );
}

#[test]
fn test_recovery_clears_any_in_flight_normal_admin_transfer() {
    let (env, admin, guardians, mut wallet) = setup_with_guardians(3);
    assert_eq!(wallet.set_recovery_config(admin.clone(), 2u32, 10u32), Ok(()));
    let normal_candidate = Address::generate(&env);
    let recovery_admin = Address::generate(&env);

    assert_eq!(wallet.propose_admin(admin, normal_candidate.clone()), Ok(()));

    assert_eq!(wallet.initiate_recovery(guardians[0].clone(), recovery_admin.clone()), Ok(()));
    assert_eq!(wallet.approve_recovery(START, guardians[1].clone()), Ok(()));
    assert_eq!(wallet.execute_recovery(at(10)), Ok(()));

    assert_eq!(wallet.admin(), recovery_admin);
    assert_eq!(wallet.accept_admin(normal_candidate), Err(WalletError::NoPendingAdmin));
}

#[test]
fn guardian_removal_undoes_addition() {
    let (env, admin, guardians, mut wallet) = setup_with_guardians(2);
    let third = Address::generate(&env);
    assert_eq!(wallet.add_guardian(admin.clone(), third.clone()), Ok(()));
    assert_eq!(
        listed(&wallet),
        vec![guardians[0].clone(), guardians[1].clone(), third.clone()]
    );
    assert_eq!(wallet.remove_guardian(admin.clone(), third.clone()), Ok(()));
    assert_eq!(listed(&wallet), guardians);
    assert_eq!(
        wallet.remove_guardian(admin.clone(), third.clone()),
        Err(WalletError::GuardianNotFound)
    );
    let index = wallet.guardian_index().unwrap();
    assert_eq!(index.len(), 2);
    assert_eq!(index.get(guardians[0].clone()), Some(true));
    assert_eq!(index.get(guardians[1].clone()), Some(true));
    assert_eq!(index.get(third.clone()), None);
    assert_eq!(wallet.add_guardian(admin, third), Ok(()));
}

#[test]
fn removal_keeps_the_order_of_the_others() {
    let (_env, admin, guardians, mut wallet) = setup_with_guardians(4);
    assert_eq!(wallet.remove_guardian(admin, guardians[1].clone()), Ok(()));
    assert_eq!(
        listed(&wallet),
        vec![guardians[0].clone(), guardians[2].clone(), guardians[3].clone()]
    );
}

#[test]
fn guardian_changes_are_stored_and_published() {
    let (env, admin, mut wallet) = setup();
    let first = Address::generate(&env);
    let second = Address::generate(&env);
    let _ = wallet.take_effects();
    // The first lookup builds the index.
    assert_eq!(wallet.add_guardian(admin.clone(), first.clone()), Ok(()));
    assert_eq!(
        wallet.take_effects(),
        vec![
            Effect::RequireAuth(admin.clone()),
            Effect::Store(DataKey::GuardianMembership),
            Effect::Store(DataKey::Guardians),
            Effect::Store(DataKey::GuardianMembership),
            Effect::Publish(Event::GuardianAdded { guardian: first.clone() }),
        ]
    );
    assert_eq!(wallet.add_guardian(admin.clone(), second.clone()), Ok(()));
    assert_eq!(
        wallet.take_effects(),
        vec![
            Effect::RequireAuth(admin.clone()),
            Effect::Store(DataKey::Guardians),
            Effect::Store(DataKey::GuardianMembership),
            Effect::Publish(Event::GuardianAdded { guardian: second }),
        ]
    );
    assert_eq!(wallet.remove_guardian(admin.clone(), first.clone()), Ok(()));
    assert_eq!(
        wallet.take_effects(),
        vec![
            Effect::RequireAuth(admin),
            Effect::Store(DataKey::Guardians),
            Effect::Store(DataKey::GuardianMembership),
            Effect::Publish(Event::GuardianRemoved { guardian: first }),
        ]
    );
}

#[test]
fn wallet_without_an_index_builds_it_from_the_list() {
    let env = host();
    let admin = Address::generate(&env);
    let guardians: Vec<Address> = (0..3).map(|_| Address::generate(&env)).collect();
    let mut wallet = GlobeWallet::new(Address::generate(&env));
    wallet.restore(Entry::Admin(admin.clone()));
    wallet.restore(Entry::Guardians(guardians.clone()));
    wallet.restore(Entry::RecoveryConfig(RecoveryConfig { threshold: 2, delay_in_ledgers: 1 }));
    assert!(wallet.guardian_index().is_none());

    let new_admin = Address::generate(&env);
    assert_eq!(wallet.initiate_recovery(guardians[2].clone(), new_admin.clone()), Ok(()));
    assert_eq!(
        wallet.take_effects(),
        vec![
            Effect::RequireAuth(guardians[2].clone()),
            Effect::Store(DataKey::GuardianMembership),
            Effect::Store(DataKey::RecoveryProposal),
            Effect::Publish(Event::RecoveryInitiated {
                guardian: guardians[2].clone(),
                new_admin,
            }),
        ]
    );
    let index = wallet.guardian_index().unwrap();
    assert_eq!(index.len(), 3);
    for guardian in guardians.iter() {
        assert_eq!(index.get(guardian.clone()), Some(true));
    }
    assert_eq!(
        wallet.add_guardian(admin, guardians[0].clone()),
        Err(WalletError::GuardianAlreadyAdded)
    );
}

#[test]
fn refused_stranger_leaves_the_entries_as_they_were() {
    let env = host();
    let guardians: Vec<Address> = (0..3).map(|_| Address::generate(&env)).collect();
    let stranger = Address::generate(&env);
    let mut wallet = GlobeWallet::new(Address::generate(&env));
    wallet.restore(Entry::Guardians(guardians.clone()));
    assert_eq!(
        wallet.initiate_recovery(stranger.clone(), stranger.clone()),
        Err(WalletError::Unauthorized)
    );
    assert_eq!(
        wallet.take_effects(),
        vec![
            Effect::RequireAuth(stranger),
            Effect::Store(DataKey::GuardianMembership),
        ]
    );
    assert_eq!(listed(&wallet), guardians);
    assert!(wallet.recovery_proposal().is_none());
}

#[test]
fn removing_from_a_wallet_without_an_index() {
    let env = host();
    let admin = Address::generate(&env);
    let guardians: Vec<Address> = (0..2).map(|_| Address::generate(&env)).collect();
    let mut wallet = GlobeWallet::new(Address::generate(&env));
    wallet.restore(Entry::Admin(admin.clone()));
    wallet.restore(Entry::Guardians(guardians.clone()));
    assert_eq!(wallet.remove_guardian(admin.clone(), guardians[0].clone()), Ok(()));
    assert_eq!(
        wallet.take_effects(),
        vec![
            Effect::RequireAuth(admin),
            Effect::Store(DataKey::Guardians),
            Effect::Store(DataKey::GuardianMembership),
            Effect::Store(DataKey::GuardianMembership),
            Effect::Publish(Event::GuardianRemoved { guardian: guardians[0].clone() }),
        ]
    );
    assert_eq!(listed(&wallet), vec![guardians[1].clone()]);
    assert_eq!(wallet.guardian_index().unwrap().len(), 1);
}

#[test]
fn recovery_must_be_configured() {
    let (env, admin, guardians, mut wallet) = setup_with_guardians(3);
    let new_admin = Address::generate(&env);
    let unset = Err(WalletError::RecoveryNotConfigured);
    assert_eq!(wallet.recovery_config(), None);
    assert_eq!(wallet.initiate_recovery(guardians[0].clone(), new_admin), unset);
    assert_eq!(wallet.approve_recovery(START, guardians[0].clone()), unset);
    assert_eq!(wallet.revoke_recovery_approval(guardians[0].clone()), unset);
    assert_eq!(wallet.execute_recovery(START), unset);

    let _ = wallet.take_effects();
    assert_eq!(wallet.set_recovery_config(admin.clone(), 3, 7), Ok(()));
    assert_eq!(
        wallet.recovery_config(),
        Some(RecoveryConfig { threshold: 3, delay_in_ledgers: 7 })
    );
    assert_eq!(
        wallet.take_effects(),
        vec![
            Effect::RequireAuth(admin),
            Effect::Store(DataKey::RecoveryConfig),
            Effect::Publish(Event::RecoveryConfigSet { threshold: 3, delay_in_ledgers: 7 }),
        ]
    );
}

#[test]
fn without_a_recovery_there_is_nothing_to_do() {
    let (_env, admin, guardians, mut wallet) = setup_with_guardians(3);
    assert_eq!(wallet.set_recovery_config(admin.clone(), 2, 10), Ok(()));
    let nothing = Err(WalletError::NoPendingRecovery);
    assert_eq!(wallet.approve_recovery(START, guardians[0].clone()), nothing);
    assert_eq!(wallet.revoke_recovery_approval(guardians[0].clone()), nothing);
    assert_eq!(wallet.execute_recovery(START), nothing);
    assert_eq!(wallet.cancel_recovery(admin), nothing);
}

#[test]
fn quorum_starts_the_timelock_once() {
    let (env, admin, guardians, mut wallet) = setup_with_guardians(4);
    assert_eq!(wallet.set_recovery_config(admin, 3, 10), Ok(()));
    let new_admin = Address::generate(&env);
    assert_eq!(wallet.initiate_recovery(guardians[0].clone(), new_admin.clone()), Ok(()));
    assert_eq!(approvals(&wallet), vec![guardians[0].clone()]);
    assert_eq!(wallet.approve_recovery(at(1), guardians[1].clone()), Ok(()));
    assert_eq!(wallet.recovery_proposal().unwrap().ready_at, None);
    let _ = wallet.take_effects();

    assert_eq!(wallet.approve_recovery(at(2), guardians[2].clone()), Ok(()));
    assert_eq!(wallet.recovery_proposal().unwrap().ready_at, Some(12));
    assert_eq!(
        wallet.take_effects(),
        vec![
            Effect::RequireAuth(guardians[2].clone()),
            Effect::Publish(Event::RecoveryQuorumReached {
                new_admin: new_admin.clone(),
                ready_at: 12,
            }),
            Effect::Store(DataKey::RecoveryProposal),
            Effect::Publish(Event::RecoveryApproved { guardian: guardians[2].clone() }),
        ]
    );

    // One more approval does not move it.
    assert_eq!(wallet.approve_recovery(at(5), guardians[3].clone()), Ok(()));
    assert_eq!(wallet.recovery_proposal().unwrap().ready_at, Some(12));
    assert_eq!(
        wallet.take_effects(),
        vec![
            Effect::RequireAuth(guardians[3].clone()),
            Effect::Store(DataKey::RecoveryProposal),
            Effect::Publish(Event::RecoveryApproved { guardian: guardians[3].clone() }),
        ]
    );

    // A revocation that keeps the quorum keeps the timelock, too.
    assert_eq!(wallet.revoke_recovery_approval(guardians[0].clone()), Ok(()));
    assert_eq!(wallet.recovery_proposal().unwrap().ready_at, Some(12));
    assert_eq!(
        approvals(&wallet),
        vec![guardians[1].clone(), guardians[2].clone(), guardians[3].clone()]
    );
    assert_eq!(
        wallet.take_effects(),
        vec![
            Effect::RequireAuth(guardians[0].clone()),
            Effect::Store(DataKey::RecoveryProposal),
            Effect::Publish(Event::RecoveryApprovalRevoked { guardian: guardians[0].clone() }),
        ]
    );
    assert_eq!(wallet.execute_recovery(at(11)), Err(WalletError::RecoveryNotReady));
    assert_eq!(wallet.execute_recovery(at(12)), Ok(()));
    assert_eq!(wallet.admin(), new_admin);
}

#[test]
fn revocation_undoes_approval() {
    let (env, admin, guardians, mut wallet) = setup_with_guardians(3);
    assert_eq!(wallet.set_recovery_config(admin, 2, 10), Ok(()));
    let new_admin = Address::generate(&env);
    assert_eq!(wallet.initiate_recovery(guardians[0].clone(), new_admin.clone()), Ok(()));
    assert_eq!(
        wallet.revoke_recovery_approval(guardians[1].clone()),
        Err(WalletError::ApprovalNotFound)
    );
    let before = wallet.recovery_proposal();
    assert_eq!(wallet.approve_recovery(at(3), guardians[1].clone()), Ok(()));
    assert_eq!(wallet.revoke_recovery_approval(guardians[1].clone()), Ok(()));
    assert_eq!(wallet.recovery_proposal(), before);
    let mut expected = soroban_sdk::Vec::new(&env);
    expected.push_back(guardians[0].clone());
    assert_eq!(
        wallet.recovery_proposal(),
        Some(RecoveryProposal { new_admin, approvals: expected, ready_at: None })
    );
}

#[test]
fn executed_recovery_demands_nobody_and_is_published_as_a_transfer() {
    let (env, admin, guardians, mut wallet) = setup_with_guardians(3);
    assert_eq!(wallet.set_recovery_config(admin.clone(), 2, 0), Ok(()));
    let new_admin = Address::generate(&env);
    assert_eq!(wallet.initiate_recovery(guardians[0].clone(), new_admin.clone()), Ok(()));
    assert_eq!(wallet.approve_recovery(at(9), guardians[1].clone()), Ok(()));
    let _ = wallet.take_effects();
    assert_eq!(wallet.execute_recovery(at(9)), Ok(()));
    assert_eq!(
        wallet.take_effects(),
        vec![
            Effect::Remove(DataKey::PendingAdmin(admin.clone())),
            Effect::Store(DataKey::Admin),
            Effect::Remove(DataKey::RecoveryProposal),
            Effect::Publish(Event::AdminTransferred { old_admin: admin, new_admin }),
        ]
    );
    assert_eq!(wallet.execute_recovery(at(9)), Err(WalletError::NoPendingRecovery));
}

#[test]
fn raised_threshold_needs_more_approvals() {
    let (env, admin, guardians, mut wallet) = setup_with_guardians(3);
    assert_eq!(wallet.set_recovery_config(admin.clone(), 2, 5), Ok(()));
    let new_admin = Address::generate(&env);
    assert_eq!(wallet.initiate_recovery(guardians[0].clone(), new_admin), Ok(()));
    assert_eq!(wallet.approve_recovery(at(1), guardians[1].clone()), Ok(()));
    assert_eq!(wallet.set_recovery_config(admin, 3, 5), Ok(()));
    assert_eq!(wallet.recovery_proposal().unwrap().ready_at, Some(6));
    assert_eq!(wallet.execute_recovery(at(100)), Err(WalletError::RecoveryNotQuorate));
    assert_eq!(wallet.approve_recovery(at(101), guardians[2].clone()), Ok(()));
    assert_eq!(wallet.recovery_proposal().unwrap().ready_at, Some(6));
    assert_eq!(wallet.execute_recovery(at(101)), Ok(()));
}

#[test]
fn recovery_of_a_wallet_without_an_admin() {
    let env = host();
    let guardians: Vec<Address> = (0..3).map(|_| Address::generate(&env)).collect();
    let mut wallet = GlobeWallet::new(Address::generate(&env));
    wallet.restore(Entry::Guardians(guardians.clone()));
    wallet.restore(Entry::RecoveryConfig(RecoveryConfig { threshold: 2, delay_in_ledgers: 1 }));
    wallet.restore(Entry::RecoveryProposal {
        new_admin: guardians[2].clone(),
        approvals: vec![guardians[0].clone(), guardians[1].clone()],
        ready_at: Some(4),
    });
    assert_eq!(wallet.execute_recovery(at(3)), Err(WalletError::RecoveryNotReady));
    assert_eq!(wallet.execute_recovery(at(4)), Err(WalletError::NotInitialized));
}

#[test]
fn quorum_without_a_timelock_is_not_enough() {
    let env = host();
    let guardians: Vec<Address> = (0..3).map(|_| Address::generate(&env)).collect();
    let mut wallet = GlobeWallet::new(Address::generate(&env));
    wallet.restore(Entry::Admin(guardians[0].clone()));
    wallet.restore(Entry::RecoveryConfig(RecoveryConfig { threshold: 2, delay_in_ledgers: 1 }));
    wallet.restore(Entry::RecoveryProposal {
        new_admin: guardians[2].clone(),
        approvals: vec![guardians[0].clone(), guardians[1].clone()],
        ready_at: None,
    });
    assert_eq!(wallet.execute_recovery(at(9)), Err(WalletError::RecoveryNotQuorate));
}

#[test]
fn only_the_admin_cancels_a_recovery() {
    let (env, admin, guardians, mut wallet) = setup_with_guardians(3);
    assert_eq!(wallet.set_recovery_config(admin.clone(), 2, 10), Ok(()));
    let new_admin = Address::generate(&env);
    assert_eq!(wallet.initiate_recovery(guardians[0].clone(), new_admin.clone()), Ok(()));
    assert_eq!(wallet.cancel_recovery(new_admin), Err(WalletError::Unauthorized));
    assert_eq!(wallet.cancel_recovery(guardians[0].clone()), Err(WalletError::Unauthorized));
    assert!(wallet.recovery_proposal().is_some());
    let _ = wallet.take_effects();
    assert_eq!(wallet.cancel_recovery(admin.clone()), Ok(()));
    assert_eq!(
        wallet.take_effects(),
        vec![
            Effect::RequireAuth(admin.clone()),
            Effect::Remove(DataKey::RecoveryProposal),
            Effect::Publish(Event::RecoveryCancelled { admin }),
        ]
    );
}

#[test]
fn revoking_needs_an_approval_but_no_guardian() {
    let (env, admin, guardians, mut wallet) = setup_with_guardians(4);
    assert_eq!(wallet.set_recovery_config(admin.clone(), 2, 10), Ok(()));
    let new_admin = Address::generate(&env);
    assert_eq!(wallet.initiate_recovery(guardians[0].clone(), new_admin), Ok(()));
    assert_eq!(wallet.remove_guardian(admin, guardians[0].clone()), Ok(()));
    assert_eq!(
        wallet.approve_recovery(START, guardians[0].clone()),
        Err(WalletError::Unauthorized)
    );
    assert_eq!(wallet.revoke_recovery_approval(guardians[0].clone()), Ok(()));
    assert_eq!(approvals(&wallet), vec![]);
}

#[test]
fn recovery_delay_stops_at_the_last_ledger() {
    let (env, admin, guardians, mut wallet) = setup_with_guardians(3);
    assert_eq!(wallet.set_recovery_config(admin, 2, u32::MAX), Ok(()));
    let new_admin = Address::generate(&env);
    assert_eq!(wallet.initiate_recovery(guardians[0].clone(), new_admin), Ok(()));
    assert_eq!(wallet.approve_recovery(at(5), guardians[1].clone()), Ok(()));
    assert_eq!(wallet.recovery_proposal().unwrap().ready_at, Some(u32::MAX));
    assert_eq!(wallet.execute_recovery(at(u32::MAX - 1)), Err(WalletError::RecoveryNotReady));
    assert_eq!(wallet.execute_recovery(at(u32::MAX)), Ok(()));
}

#[test]
fn guardians_may_come_from_another_host() {
    let (env, admin, mut wallet) = setup();
    let elsewhere = host();
    // The generators of both hosts give the same addresses: take later ones.
    for _ in 0..5 {
        let _ = Address::generate(&elsewhere);
    }
    let far: Vec<Address> = (0..3).map(|_| Address::generate(&elsewhere)).collect();
    for guardian in far.iter() {
        assert_eq!(wallet.add_guardian(admin.clone(), guardian.clone()), Ok(()));
    }
    let near: Vec<Address> = far
        .iter()
        .map(|guardian| {
            let strkey = guardian.to_string().to_string();
            Address::from_str(&env, strkey.as_str())
        })
        .collect();
    assert_eq!(listed(&wallet), near);
    assert_eq!(
        wallet.add_guardian(admin.clone(), near[1].clone()),
        Err(WalletError::GuardianAlreadyAdded)
    );
    assert_eq!(wallet.remove_guardian(admin, near[1].clone()), Ok(()));
    assert_eq!(listed(&wallet), vec![far[0].clone(), far[2].clone()]);
    assert_eq!(wallet.guardian_index().unwrap().len(), 2);
}
