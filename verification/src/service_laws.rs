//! For each request: exactly when it is served, what it is refused with, which
//! entries it changes, and what it has done on the ledger. Everything is said in
//! terms of the entries themselves.
use soroban_sdk::{Address, BytesN};
use vstd::prelude::*;

use crate::effect::{Effect, Event};
use crate::error::WalletError;
use crate::host;
use crate::model::{self, WalletView};
use crate::table::AssetKey;
use crate::types::{
    AssetInfo, DataKey, Entry, Ledger, RecoveryConfig, RecoveryProposal, RecoveryView,
};

verus! {

// What the answers and the common parts of the requests are.

/// A request that nothing speaks against is answered with success, any other
/// with what speaks against it.
pub proof fn law_answer_is_the_refusal(error: WalletError)
    ensures
        model::answer(None) == Ok::<(), WalletError>(()),
        model::answer(Some(error)) == Err::<(), WalletError>(error),
{
}

/// A new wallet has no entries, and nothing is to be done.
pub proof fn law_new_wallet_has_no_entries()
    ensures
        ({
            let wallet = WalletView::blank();
            &&& wallet.admin is None
            &&& wallet.pending_upgrade is None
            &&& wallet.guardians.len() == 0
            &&& wallet.membership is None
            &&& wallet.recovery_config is None
            &&& wallet.recovery is None
            &&& wallet.effects.len() == 0
            &&& forall|who: Address| !wallet.pending_admins.contains_key(who)
            &&& forall|who: Address| !wallet.assets.contains_key(who)
            &&& forall|key: AssetKey| !wallet.limits.contains_key(key)
            &&& forall|key: AssetKey| !wallet.spent.contains_key(key)
        }),
{
}

/// Demanding an authorization changes no entry and adds just that demand.
pub proof fn law_demand_changes_no_entry(wallet: WalletView, who: Address)
    ensures
        wallet.demand(who) == (WalletView { effects: wallet.demand(who).effects, ..wallet }),
        wallet.demand(who).effects == wallet.effects + seq![Effect::RequireAuth(who)],
{
}

/// What an index has to say of a list of guardians: each of them, and nobody
/// else, is in it.
pub open spec fn indexes(index: Map<Address, bool>, guardians: Seq<Address>) -> bool {
    forall|who: Address|
        {
            &&& #[trigger] index.contains_key(who) <==> exists|i: int|
                0 <= i < guardians.len() && guardians[i] == who
            &&& index.contains_key(who) ==> index[who]
        }
}

/// An index that is there is left alone. A missing one is built from the list,
/// and stored.
pub proof fn law_index_is_built_once(wallet: WalletView)
    ensures
        ({
            let after = wallet.indexed();
            &&& wallet.membership is Some ==> after == wallet
            &&& wallet.membership is None ==> {
                &&& after.membership is Some
                &&& indexes(after.membership->0, wallet.guardians)
                &&& after.effects == wallet.effects + seq![
                    Effect::Store(DataKey::GuardianMembership),
                ]
                &&& after == (WalletView {
                    membership: after.membership,
                    effects: after.effects,
                    ..wallet
                })
            }
        }),
{
}

/// Somebody is a guardian by the index if there is one, and by the list
/// otherwise.
pub proof fn law_who_is_a_guardian(wallet: WalletView, who: Address)
    ensures
        wallet.membership is Some ==> (wallet.is_guardian(who) <==> (
        wallet.membership->0.contains_key(who) && wallet.membership->0[who])),
        wallet.membership is None ==> (wallet.is_guardian(who) <==> exists|i: int|
            0 <= i < wallet.guardians.len() && wallet.guardians[i] == who),
{
}

// The admin role.

/// The first initialization is served, whatever else is there, and makes the
/// admin; any other is refused.
pub proof fn law_initialization(wallet: WalletView, admin: Address)
    ensures
        wallet.initialize_refusal() is None <==> wallet.admin is None,
        wallet.admin is Some ==> wallet.initialize_refusal() == Some(
            WalletError::AlreadyInitialized,
        ),
        ({
            let after = wallet.initialized(admin);
            &&& after.admin == Some(admin)
            &&& after == (WalletView { admin: after.admin, effects: after.effects, ..wallet })
            &&& after.effects == wallet.effects + seq![
                Effect::Store(DataKey::Admin),
                Effect::Publish(Event::Initialized { admin }),
            ]
        }),
{
}

/// Exactly the admin may act as the admin, in every state of the wallet.
pub proof fn law_exactly_the_admin_is_admin(wallet: WalletView, caller: Address)
    ensures
        wallet.admin_refusal(caller) is None <==> wallet.admin == Some(caller),
        wallet.admin is None ==> wallet.admin_refusal(caller) == Some(WalletError::NotInitialized),
        wallet.admin is Some && wallet.admin != Some(caller) ==> wallet.admin_refusal(caller)
            == Some(WalletError::Unauthorized),
{
}

/// A proposal makes the candidate the one whom this admin has pending, and
/// changes nothing else.
pub proof fn law_admin_proposal(
    wallet: WalletView,
    current: Address,
    candidate: Address,
    other: Address,
)
    ensures
        ({
            let after = wallet.admin_proposed(current, candidate);
            &&& after.pending_admins.contains_key(current)
            &&& after.pending_admins[current] == candidate
            &&& other != current ==> after.pending_admins.get(other) == wallet.pending_admins.get(
                other,
            )
            &&& after == (WalletView {
                pending_admins: after.pending_admins,
                effects: after.effects,
                ..wallet
            })
            &&& after.effects == wallet.effects + seq![
                Effect::RequireAuth(current),
                Effect::Store(DataKey::PendingAdmin(current)),
                Effect::Publish(Event::AdminProposed { current, candidate }),
            ]
        }),
{
}

/// Exactly the candidate whom the present admin has pending can accept.
pub proof fn law_exactly_the_candidate_accepts(wallet: WalletView, candidate: Address)
    ensures
        wallet.accept_refusal(candidate) is None <==> (wallet.admin is Some
            && wallet.pending_admins.contains_key(wallet.admin->0)
            && wallet.pending_admins[wallet.admin->0] == candidate),
        wallet.admin is None ==> wallet.accept_refusal(candidate) == Some(
            WalletError::NotInitialized,
        ),
        wallet.admin is Some && !wallet.pending_admins.contains_key(wallet.admin->0)
            ==> wallet.accept_refusal(candidate) == Some(WalletError::NoPendingAdmin),
        wallet.admin is Some && wallet.pending_admins.contains_key(wallet.admin->0)
            && wallet.pending_admins[wallet.admin->0] != candidate ==> wallet.accept_refusal(
            candidate,
        ) == Some(WalletError::Unauthorized),
{
}

/// Accepting makes the candidate the admin and takes the proposal away, and
/// changes nothing else.
pub proof fn law_admin_acceptance(
    wallet: WalletView,
    old_admin: Address,
    candidate: Address,
    other: Address,
)
    requires
        wallet.admin == Some(old_admin),
    ensures
        ({
            let after = wallet.admin_accepted(candidate);
            &&& after.admin == Some(candidate)
            &&& !after.pending_admins.contains_key(old_admin)
            &&& other != old_admin ==> after.pending_admins.get(other) == wallet.pending_admins.get(
                other,
            )
            &&& after == (WalletView {
                admin: after.admin,
                pending_admins: after.pending_admins,
                effects: after.effects,
                ..wallet
            })
            &&& after.effects == wallet.effects + seq![
                Effect::RequireAuth(candidate),
                Effect::Store(DataKey::Admin),
                Effect::Remove(DataKey::PendingAdmin(old_admin)),
                Effect::Publish(Event::AdminTransferred { old_admin, new_admin: candidate }),
            ]
        }),
{
}

/// Cancelling takes the proposal away, if there is one, and changes nothing
/// else.
pub proof fn law_admin_cancellation(wallet: WalletView, current: Address, other: Address)
    ensures
        ({
            let after = wallet.admin_transfer_cancelled(current);
            &&& !after.pending_admins.contains_key(current)
            &&& other != current ==> after.pending_admins.get(other) == wallet.pending_admins.get(
                other,
            )
            &&& after == (WalletView {
                pending_admins: after.pending_admins,
                effects: after.effects,
                ..wallet
            })
            &&& after.effects == wallet.effects + seq![
                Effect::RequireAuth(current),
                Effect::Remove(DataKey::PendingAdmin(current)),
                Effect::Publish(Event::AdminTransferCancelled { current }),
            ]
        }),
{
}

// Upgrades.

/// The admin can queue an upgrade whenever none is pending, in every other state
/// of the wallet.
pub proof fn law_upgrade_can_be_queued_unless_one_is(wallet: WalletView, proposer: Address)
    ensures
        wallet.propose_upgrade_refusal(proposer) is None <==> (wallet.admin == Some(proposer)
            && wallet.pending_upgrade is None),
        wallet.admin is None ==> wallet.propose_upgrade_refusal(proposer) == Some(
            WalletError::NotInitialized,
        ),
        wallet.admin is Some && wallet.admin != Some(proposer) ==> wallet.propose_upgrade_refusal(
            proposer,
        ) == Some(WalletError::Unauthorized),
        wallet.admin == Some(proposer) && wallet.pending_upgrade is Some
            ==> wallet.propose_upgrade_refusal(proposer) == Some(
            WalletError::UpgradeAlreadyPending,
        ),
{
}

/// A queued upgrade is the one that was proposed, ready after its delay; nothing
/// else changes.
pub proof fn law_upgrade_proposal(
    wallet: WalletView,
    ledger: Ledger,
    proposer: Address,
    wasm_hash: BytesN<32>,
    delay_in_ledgers: u32,
)
    ensures
        ({
            let after = wallet.upgrade_proposed(ledger, proposer, wasm_hash, delay_in_ledgers);
            let ready_at = after.pending_upgrade->0.ready_at;
            &&& after.pending_upgrade is Some
            &&& after.pending_upgrade->0.wasm_hash == wasm_hash
            &&& after.pending_upgrade->0.proposed_by == proposer
            &&& ledger.sequence + delay_in_ledgers <= u32::MAX ==> ready_at == ledger.sequence
                + delay_in_ledgers
            &&& ledger.sequence + delay_in_ledgers > u32::MAX ==> ready_at == u32::MAX
            &&& after == (WalletView {
                pending_upgrade: after.pending_upgrade,
                effects: after.effects,
                ..wallet
            })
            &&& after.effects == wallet.effects + seq![
                Effect::RequireAuth(proposer),
                Effect::Store(DataKey::PendingUpgrade),
                Effect::Publish(Event::UpgradeProposed { proposer, wasm_hash, ready_at }),
            ]
        }),
{
}

/// The admin can execute a pending upgrade with its hash from its ledger on, in
/// every other state of the wallet.
pub proof fn law_ripe_upgrade_can_be_executed(
    wallet: WalletView,
    ledger: Ledger,
    executor: Address,
    wasm_hash: BytesN<32>,
)
    ensures
        ({
            let refusal = wallet.execute_upgrade_refusal(ledger, executor, wasm_hash);
            let pending = wallet.pending_upgrade;
            let is_admin = wallet.admin == Some(executor);
            &&& refusal is None <==> {
                &&& is_admin
                &&& pending is Some
                &&& pending->0.wasm_hash == wasm_hash
                &&& ledger.sequence >= pending->0.ready_at
            }
            &&& wallet.admin is None ==> refusal == Some(WalletError::NotInitialized)
            &&& wallet.admin is Some && !is_admin ==> refusal == Some(WalletError::Unauthorized)
            &&& is_admin && pending is None ==> refusal == Some(WalletError::UpgradeNotPending)
            &&& is_admin && pending is Some && pending->0.wasm_hash != wasm_hash ==> refusal
                == Some(WalletError::UpgradeHashMismatch)
            &&& is_admin && pending is Some && pending->0.wasm_hash == wasm_hash && ledger.sequence
                < pending->0.ready_at ==> refusal == Some(WalletError::UpgradeNotReady)
        }),
{
}

/// An executed upgrade replaces the code by the one of this hash and is no
/// longer pending; nothing else changes.
pub proof fn law_upgrade_execution(wallet: WalletView, executor: Address, wasm_hash: BytesN<32>)
    ensures
        ({
            let after = wallet.upgrade_executed(executor, wasm_hash);
            &&& after.pending_upgrade is None
            &&& after == (WalletView {
                pending_upgrade: after.pending_upgrade,
                effects: after.effects,
                ..wallet
            })
            &&& after.effects == wallet.effects + seq![
                Effect::RequireAuth(executor),
                Effect::ReplaceWasm(wasm_hash),
                Effect::Remove(DataKey::PendingUpgrade),
                Effect::Publish(Event::UpgradeExecuted { executor, wasm_hash }),
            ]
        }),
{
}

// Guardians.

/// The admin can add everybody who is not a guardian yet, in every other state
/// of the wallet.
pub proof fn law_admin_can_add_any_new_guardian(
    wallet: WalletView,
    admin: Address,
    guardian: Address,
)
    ensures
        ({
            let refusal = wallet.add_guardian_refusal(admin, guardian);
            let is_admin = wallet.admin == Some(admin);
            let known = match wallet.membership {
                Some(index) => index.contains_key(guardian) && index[guardian],
                None => wallet.guardians.contains(guardian),
            };
            &&& refusal is None <==> is_admin && !known
            &&& wallet.admin is None ==> refusal == Some(WalletError::NotInitialized)
            &&& wallet.admin is Some && !is_admin ==> refusal == Some(WalletError::Unauthorized)
            &&& is_admin && known ==> refusal == Some(WalletError::GuardianAlreadyAdded)
        }),
{
}

/// An added guardian comes last in the list and is in the index; everybody else
/// stays where they are, and nothing else changes.
pub proof fn law_guardian_addition(wallet: WalletView, admin: Address, guardian: Address)
    ensures
        ({
            let after = wallet.guardian_added(admin, guardian);
            &&& after.guardians.len() == wallet.guardians.len() + 1
            &&& after.guardians[wallet.guardians.len() as int] == guardian
            &&& forall|i: int|
                0 <= i < wallet.guardians.len() ==> after.guardians[i] == wallet.guardians[i]
            &&& after.membership is Some
            &&& after.membership->0.contains_key(guardian)
            &&& after.membership->0[guardian]
            &&& wallet.membership is Some ==> forall|who: Address|
                who != guardian ==> #[trigger] after.membership->0.get(who)
                    == wallet.membership->0.get(who)
            &&& wallet.membership is None ==> indexes(after.membership->0, after.guardians)
            &&& after == (WalletView {
                guardians: after.guardians,
                membership: after.membership,
                effects: after.effects,
                ..wallet
            })
            &&& after.effects == wallet.effects + seq![Effect::RequireAuth(admin)] + (
            if wallet.membership is None {
                seq![Effect::Store(DataKey::GuardianMembership)]
            } else {
                seq![]
            }) + seq![
                Effect::Store(DataKey::Guardians),
                Effect::Store(DataKey::GuardianMembership),
                Effect::Publish(Event::GuardianAdded { guardian }),
            ]
        }),
{
    let after = wallet.guardian_added(admin, guardian);
    assert(after.guardians[wallet.guardians.len() as int] == guardian);
    if wallet.membership is None {
        model::lemma_index_of_push(wallet.guardians, guardian);
        assert(after.membership->0 == model::index_of(after.guardians));
    }
}

/// A guardian who is not added changes no entry: at most the index, which is
/// needed to tell, is built.
pub proof fn law_guardian_not_added(wallet: WalletView, admin: Address)
    ensures
        ({
            let after = wallet.guardian_not_added(admin);
            &&& wallet.admin != Some(admin) || wallet.membership is Some ==> after == (WalletView {
                effects: wallet.effects + seq![Effect::RequireAuth(admin)],
                ..wallet
            })
            &&& wallet.admin == Some(admin) && wallet.membership is None ==> {
                &&& after.membership is Some
                &&& indexes(after.membership->0, wallet.guardians)
                &&& after == (WalletView {
                    membership: after.membership,
                    effects: wallet.effects + seq![
                        Effect::RequireAuth(admin),
                        Effect::Store(DataKey::GuardianMembership),
                    ],
                    ..wallet
                })
            }
        }),
{
}

/// The admin can remove every guardian, as long as a configured threshold can
/// still be reached by those who remain, in every other state of the wallet.
pub proof fn law_admin_can_remove_any_spare_guardian(
    wallet: WalletView,
    admin: Address,
    guardian: Address,
)
    ensures
        ({
            let refusal = wallet.remove_guardian_refusal(admin, guardian);
            let is_admin = wallet.admin == Some(admin);
            let listed = exists|i: int|
                0 <= i < wallet.guardians.len() && wallet.guardians[i] == guardian;
            let remaining = wallet.guardians.filter(|who: Address| who != guardian).len();
            let enough = wallet.recovery_config is None || remaining
                >= wallet.recovery_config->0.threshold;
            &&& refusal is None <==> is_admin && listed && enough
            &&& wallet.admin is None ==> refusal == Some(WalletError::NotInitialized)
            &&& wallet.admin is Some && !is_admin ==> refusal == Some(WalletError::Unauthorized)
            &&& is_admin && !listed ==> refusal == Some(WalletError::GuardianNotFound)
            &&& is_admin && listed && !enough ==> refusal == Some(WalletError::NotEnoughGuardians)
            &&& wallet.guardians.no_duplicates() && listed ==> remaining == wallet.guardians.len()
                - 1
        }),
{
    assert((|who: Address| who != guardian) =~= model::other_than(guardian));
    crate::soundness::lemma_without(wallet.guardians, guardian);
}

/// What is left of a list when everything equal to `item` is taken out is what
/// is left of its front, and the last unless that is `item`: all others stay, in
/// their order.
pub proof fn law_taking_out_keeps_the_others(list: Seq<Address>, item: Address, last: Address)
    ensures
        model::without(Seq::empty(), item) == Seq::<Address>::empty(),
        model::without(list.push(last), item) == (if last == item {
            model::without(list, item)
        } else {
            model::without(list, item).push(last)
        }),
        list.no_duplicates() ==> forall|i: int|
            0 <= i < list.len() && list[i] == item ==> model::without(list, item) == list.remove(i),
{
    reveal(Seq::filter);
    assert(list.push(last).drop_last() =~= list);
    if list.no_duplicates() {
        assert forall|i: int| 0 <= i < list.len() && list[i] == item implies model::without(
            list,
            item,
        ) == list.remove(i) by {
            lemma_without_is_removal(list, i);
        }
    }
}

/// Taking out an item that occurs once is removing it at its position.
pub proof fn lemma_without_is_removal(list: Seq<Address>, i: int)
    requires
        list.no_duplicates(),
        0 <= i < list.len(),
    ensures
        model::without(list, list[i]) == list.remove(i),
    decreases list.len(),
{
    reveal(Seq::filter);
    let item = list[i];
    let init = list.drop_last();
    crate::soundness::lemma_without(init, item);
    if i == list.len() - 1 {
        assert(!init.contains(item)) by {
            if init.contains(item) {
                assert(list[init.index_of(item)] == list[i]);
            }
        }
        assert(list.remove(i) =~= init);
    } else {
        lemma_without_is_removal(init, i);
        assert(list.last() != item);
        assert(list.remove(i) =~= init.remove(i).push(list.last()));
    }
}

/// A removed guardian is neither in the list nor in the index any more; everybody
/// else stays, in their order, and nothing else changes.
pub proof fn law_guardian_removal(wallet: WalletView, admin: Address, guardian: Address)
    ensures
        ({
            let after = wallet.guardian_removed(admin, guardian);
            &&& after.guardians == wallet.guardians.filter(|who: Address| who != guardian)
            &&& after.membership is Some
            &&& !after.membership->0.contains_key(guardian)
            &&& wallet.membership is Some ==> forall|who: Address|
                who != guardian ==> #[trigger] after.membership->0.get(who)
                    == wallet.membership->0.get(who)
            &&& wallet.membership is None ==> indexes(after.membership->0, after.guardians)
            &&& after == (WalletView {
                guardians: after.guardians,
                membership: after.membership,
                effects: after.effects,
                ..wallet
            })
            &&& after.effects == wallet.effects + seq![
                Effect::RequireAuth(admin),
                Effect::Store(DataKey::Guardians),
            ] + (if wallet.membership is None {
                seq![Effect::Store(DataKey::GuardianMembership)]
            } else {
                seq![]
            }) + seq![
                Effect::Store(DataKey::GuardianMembership),
                Effect::Publish(Event::GuardianRemoved { guardian }),
            ]
        }),
{
    assert((|who: Address| who != guardian) =~= model::other_than(guardian));
    crate::soundness::lemma_without(wallet.guardians, guardian);
    let after = wallet.guardian_removed(admin, guardian);
    if wallet.membership is None {
        assert(!after.guardians.contains(guardian));
        assert(after.membership->0 =~= model::index_of(after.guardians));
    }
}

// Recovery of the admin role.

/// The admin can set every threshold from two up to the number of guardians, if
/// there are at least three of them, in every other state of the wallet: also
/// where something is configured already, or a recovery is pending.
pub proof fn law_admin_can_set_any_reachable_threshold(
    wallet: WalletView,
    admin: Address,
    threshold: u32,
)
    ensures
        ({
            let refusal = wallet.set_recovery_config_refusal(admin, threshold);
            let is_admin = wallet.admin == Some(admin);
            let count = wallet.guardians.len();
            &&& refusal is None <==> is_admin && 2 <= threshold <= count && 3 <= count
            &&& wallet.admin is None ==> refusal == Some(WalletError::NotInitialized)
            &&& wallet.admin is Some && !is_admin ==> refusal == Some(WalletError::Unauthorized)
            &&& is_admin && threshold < 2 ==> refusal == Some(WalletError::InvalidRecoveryThreshold)
            &&& is_admin && 2 <= threshold && (count < 3 || count < threshold) ==> refusal == Some(
                WalletError::NotEnoughGuardians,
            )
        }),
{
}

/// The threshold and the delay that were asked for are in force afterwards,
/// whatever was configured before; nothing else changes.
pub proof fn law_configuration_is_what_was_asked_for(
    wallet: WalletView,
    admin: Address,
    threshold: u32,
    delay_in_ledgers: u32,
)
    ensures
        ({
            let after = wallet.recovery_configured(admin, threshold, delay_in_ledgers);
            &&& after.recovery_config is Some
            &&& after.recovery_config->0.threshold == threshold
            &&& after.recovery_config->0.delay_in_ledgers == delay_in_ledgers
            &&& after == (WalletView {
                recovery_config: after.recovery_config,
                effects: after.effects,
                ..wallet
            })
            &&& after.effects == wallet.effects + seq![
                Effect::RequireAuth(admin),
                Effect::Store(DataKey::RecoveryConfig),
                Effect::Publish(Event::RecoveryConfigSet { threshold, delay_in_ledgers }),
            ]
        }),
{
}

/// A later configuration replaces an earlier one as if that had never been.
pub proof fn law_later_configuration_counts(
    wallet: WalletView,
    admin: Address,
    first: RecoveryConfig,
    second: RecoveryConfig,
)
    ensures
        wallet.recovery_configured(
            admin,
            first.threshold,
            first.delay_in_ledgers,
        ).recovery_configured(admin, second.threshold, second.delay_in_ledgers).recovery_config
            == Some(second),
{
}

/// Every guardian can initiate a recovery, once one is configured and while none
/// is pending, in every other state of the wallet.
pub proof fn law_every_guardian_can_initiate(wallet: WalletView, guardian: Address)
    ensures
        ({
            let refusal = wallet.initiate_refusal(guardian);
            let known = match wallet.membership {
                Some(index) => index.contains_key(guardian) && index[guardian],
                None => wallet.guardians.contains(guardian),
            };
            &&& refusal is None <==> known && wallet.recovery_config is Some
                && wallet.recovery is None
            &&& !known ==> refusal == Some(WalletError::Unauthorized)
            &&& known && wallet.recovery_config is None ==> refusal == Some(
                WalletError::RecoveryNotConfigured,
            )
            &&& known && wallet.recovery_config is Some && wallet.recovery is Some ==> refusal
                == Some(WalletError::RecoveryAlreadyPending)
        }),
{
}

/// An initiated recovery is pending for the new admin who was named, with the
/// initiator's approval and no timelock; nothing else changes.
pub proof fn law_recovery_initiation(wallet: WalletView, guardian: Address, new_admin: Address)
    ensures
        ({
            let after = wallet.recovery_initiated(guardian, new_admin);
            &&& after.recovery is Some
            &&& after.recovery->0.new_admin == new_admin
            &&& after.recovery->0.approvals.len() == 1
            &&& after.recovery->0.approvals[0] == guardian
            &&& after.recovery->0.ready_at is None
            &&& after == (WalletView {
                recovery: after.recovery,
                membership: wallet.indexed().membership,
                effects: after.effects,
                ..wallet
            })
            &&& after.effects == wallet.demand(guardian).indexed().effects + seq![
                Effect::Store(DataKey::RecoveryProposal),
                Effect::Publish(Event::RecoveryInitiated { guardian, new_admin }),
            ]
        }),
{
}

/// Every guardian who has not approved the pending recovery can approve it, in
/// every other state of the wallet.
pub proof fn law_every_guardian_can_approve_once(wallet: WalletView, guardian: Address)
    ensures
        ({
            let refusal = wallet.approve_refusal(guardian);
            let known = match wallet.membership {
                Some(index) => index.contains_key(guardian) && index[guardian],
                None => wallet.guardians.contains(guardian),
            };
            let configured = wallet.recovery_config is Some;
            let pending = wallet.recovery is Some;
            let approved = wallet.recovery->0.approvals.contains(guardian);
            &&& refusal is None <==> known && configured && pending && !approved
            &&& !known ==> refusal == Some(WalletError::Unauthorized)
            &&& known && !configured ==> refusal == Some(WalletError::RecoveryNotConfigured)
            &&& known && configured && !pending ==> refusal == Some(WalletError::NoPendingRecovery)
            &&& known && configured && pending && approved ==> refusal == Some(
                WalletError::AlreadyApproved,
            )
        }),
{
}

/// An approval is added to those there are. If it makes the quorum and no
/// timelock runs, one starts that takes the whole delay; otherwise the timelock
/// stays as it is. Nothing else changes.
pub proof fn law_recovery_approval(wallet: WalletView, ledger: Ledger, guardian: Address)
    requires
        wallet.recovery is Some,
        wallet.recovery_config is Some,
    ensures
        ({
            let after = wallet.recovery_approved(ledger, guardian);
            let before = wallet.recovery->0;
            let config = wallet.recovery_config->0;
            let starts = before.ready_at is None && before.approvals.len() + 1 >= config.threshold;
            let ends = ledger.sequence + config.delay_in_ledgers;
            &&& after.recovery is Some
            &&& after.recovery->0.new_admin == before.new_admin
            &&& after.recovery->0.approvals.len() == before.approvals.len() + 1
            &&& after.recovery->0.approvals[before.approvals.len() as int] == guardian
            &&& forall|i: int|
                0 <= i < before.approvals.len() ==> after.recovery->0.approvals[i]
                    == before.approvals[i]
            &&& !starts ==> after.recovery->0.ready_at == before.ready_at
            &&& starts ==> after.recovery->0.ready_at is Some
            &&& starts && ends <= u32::MAX ==> after.recovery->0.ready_at->0 == ends
            &&& starts && ends > u32::MAX ==> after.recovery->0.ready_at->0 == u32::MAX
            &&& after == (WalletView {
                recovery: after.recovery,
                membership: wallet.indexed().membership,
                effects: after.effects,
                ..wallet
            })
            &&& after.effects == wallet.demand(guardian).indexed().effects + (if starts {
                seq![
                    Effect::Publish(
                        Event::RecoveryQuorumReached {
                            new_admin: before.new_admin,
                            ready_at: after.recovery->0.ready_at->0,
                        },
                    ),
                ]
            } else {
                seq![]
            }) + seq![
                Effect::Store(DataKey::RecoveryProposal),
                Effect::Publish(Event::RecoveryApproved { guardian }),
            ]
        }),
{
}

/// Everybody who has approved the pending recovery can revoke, wherever in the
/// list the approval stands, whether or not there is a quorum, and whether or
/// not they still are a guardian.
pub proof fn law_every_approver_can_revoke(wallet: WalletView, guardian: Address)
    ensures
        ({
            let refusal = wallet.revoke_refusal(guardian);
            let configured = wallet.recovery_config is Some;
            let pending = wallet.recovery is Some;
            let approved = exists|i: int|
                0 <= i < wallet.recovery->0.approvals.len() && wallet.recovery->0.approvals[i]
                    == guardian;
            &&& refusal is None <==> configured && pending && approved
            &&& !configured ==> refusal == Some(WalletError::RecoveryNotConfigured)
            &&& configured && !pending ==> refusal == Some(WalletError::NoPendingRecovery)
            &&& configured && pending && !approved ==> refusal == Some(
                WalletError::ApprovalNotFound,
            )
        }),
{
}

/// A revocation takes out the approvals of this guardian and leaves all others,
/// in their order. The timelock runs on if those still make the quorum, and is
/// cleared otherwise. Nothing else changes.
pub proof fn law_recovery_revocation(wallet: WalletView, guardian: Address)
    requires
        wallet.recovery is Some,
        wallet.recovery_config is Some,
    ensures
        ({
            let after = wallet.approval_revoked(guardian);
            let before = wallet.recovery->0;
            let quorum = after.recovery->0.approvals.len() >= wallet.recovery_config->0.threshold;
            &&& after.recovery is Some
            &&& after.recovery->0.new_admin == before.new_admin
            &&& after.recovery->0.approvals == before.approvals.filter(
                |who: Address| who != guardian,
            )
            &&& quorum ==> after.recovery->0.ready_at == before.ready_at
            &&& !quorum ==> after.recovery->0.ready_at is None
            &&& after == (WalletView {
                recovery: after.recovery,
                effects: after.effects,
                ..wallet
            })
            &&& after.effects == wallet.effects + seq![
                Effect::RequireAuth(guardian),
                Effect::Store(DataKey::RecoveryProposal),
                Effect::Publish(Event::RecoveryApprovalRevoked { guardian }),
            ]
        }),
{
    assert((|who: Address| who != guardian) =~= model::other_than(guardian));
}

/// A recovery can be executed as soon as its quorum stands and its timelock has
/// elapsed, in every other state of the wallet.
pub proof fn law_ripe_recovery_can_be_executed(wallet: WalletView, ledger: Ledger)
    ensures
        ({
            let refusal = wallet.execute_recovery_refusal(ledger);
            let configured = wallet.recovery_config is Some;
            let pending = wallet.recovery is Some;
            let quorum = wallet.recovery->0.approvals.len() >= wallet.recovery_config->0.threshold
                && wallet.recovery->0.ready_at is Some;
            let ripe = ledger.sequence >= wallet.recovery->0.ready_at->0;
            &&& refusal is None <==> configured && pending && quorum && ripe && wallet.admin is Some
            &&& !configured ==> refusal == Some(WalletError::RecoveryNotConfigured)
            &&& configured && !pending ==> refusal == Some(WalletError::NoPendingRecovery)
            &&& configured && pending && !quorum ==> refusal == Some(
                WalletError::RecoveryNotQuorate,
            )
            &&& configured && pending && quorum && !ripe ==> refusal == Some(
                WalletError::RecoveryNotReady,
            )
            &&& configured && pending && quorum && ripe && wallet.admin is None ==> refusal == Some(
                WalletError::NotInitialized,
            )
        }),
{
}

/// An executed recovery makes the one it names the admin, is no longer pending,
/// and takes the old admin's candidate away; nothing else changes.
pub proof fn law_recovery_execution(
    wallet: WalletView,
    old_admin: Address,
    other: Address,
)
    requires
        wallet.admin == Some(old_admin),
        wallet.recovery is Some,
    ensures
        ({
            let after = wallet.recovery_executed();
            let new_admin = wallet.recovery->0.new_admin;
            &&& after.admin == Some(new_admin)
            &&& after.recovery is None
            &&& !after.pending_admins.contains_key(old_admin)
            &&& other != old_admin ==> after.pending_admins.get(other) == wallet.pending_admins.get(
                other,
            )
            &&& after == (WalletView {
                admin: after.admin,
                recovery: after.recovery,
                pending_admins: after.pending_admins,
                effects: after.effects,
                ..wallet
            })
            &&& after.effects == wallet.effects + seq![
                Effect::Remove(DataKey::PendingAdmin(old_admin)),
                Effect::Store(DataKey::Admin),
                Effect::Remove(DataKey::RecoveryProposal),
                Effect::Publish(Event::AdminTransferred { old_admin, new_admin }),
            ]
        }),
{
}

/// The admin, and nobody else, can cancel a pending recovery, in every other
/// state of the wallet.
pub proof fn law_exactly_the_admin_cancels(wallet: WalletView, admin: Address)
    ensures
        ({
            let refusal = wallet.cancel_recovery_refusal(admin);
            let is_admin = wallet.admin == Some(admin);
            &&& refusal is None <==> is_admin && wallet.recovery is Some
            &&& wallet.admin is None ==> refusal == Some(WalletError::NotInitialized)
            &&& wallet.admin is Some && !is_admin ==> refusal == Some(WalletError::Unauthorized)
            &&& is_admin && wallet.recovery is None ==> refusal == Some(
                WalletError::NoPendingRecovery,
            )
        }),
{
}

/// A cancelled recovery is no longer pending; nothing else changes.
pub proof fn law_recovery_cancellation(wallet: WalletView, admin: Address)
    ensures
        ({
            let after = wallet.recovery_cancelled(admin);
            &&& after.recovery is None
            &&& after == (WalletView {
                recovery: after.recovery,
                effects: after.effects,
                ..wallet
            })
            &&& after.effects == wallet.effects + seq![
                Effect::RequireAuth(admin),
                Effect::Remove(DataKey::RecoveryProposal),
                Effect::Publish(Event::RecoveryCancelled { admin }),
            ]
        }),
{
}

// Assets.

/// A user's assets are those of the user's entry, and none without one.
pub proof fn law_assets_are_the_entry(wallet: WalletView, user: Address)
    ensures
        wallet.assets.contains_key(user) ==> wallet.assets_of(user) == wallet.assets[user],
        !wallet.assets.contains_key(user) ==> wallet.assets_of(user).len() == 0,
{
}

/// The native asset is the one whose code reads "XLM", and exactly that one goes
/// without an issuer.
pub proof fn law_native_asset_is_xlm(asset: AssetInfo)
    ensures
        ({
            let code = host::bytes_of(asset.code);
            let xlm = code.len() == 3 && code[0] == 0x58u8 && code[1] == 0x4cu8 && code[2]
                == 0x4du8;
            &&& asset.native() <==> xlm
            &&& asset.consistent() <==> (xlm <==> asset.issuer is None)
        }),
{
    let code = host::bytes_of(asset.code);
    if code.len() == 3 && code[0] == 0x58u8 && code[1] == 0x4cu8 && code[2] == 0x4du8 {
        assert(code =~= seq![0x58u8, 0x4cu8, 0x4du8]);
    }
}

/// Every user can register every consistent asset whose code is not registered
/// yet, up to fifty of them, in every other state of the wallet.
pub proof fn law_every_new_asset_can_be_registered(
    wallet: WalletView,
    user: Address,
    asset: AssetInfo,
)
    ensures
        ({
            let refusal = wallet.add_asset_refusal(user, asset);
            let list = wallet.assets_of(user);
            let native = host::bytes_of(asset.code) == seq![0x58u8, 0x4cu8, 0x4du8];
            let consistent = native <==> asset.issuer is None;
            let known = exists|i: int|
                0 <= i < list.len() && (#[trigger] list[i]).code == asset.code;
            &&& refusal is None <==> list.len() < 50 && consistent && !known
            &&& list.len() >= 50 ==> refusal == Some(WalletError::AssetLimitExceeded)
            &&& list.len() < 50 && !consistent ==> refusal == Some(WalletError::InvalidAssetInfo)
            &&& list.len() < 50 && consistent && known ==> refusal == Some(
                WalletError::AssetAlreadyAdded,
            )
        }),
{
}

/// A registered asset comes last; the user's other assets stay where they are,
/// everybody else's stay, and nothing else changes.
pub proof fn law_asset_registration(
    wallet: WalletView,
    user: Address,
    asset: AssetInfo,
    other: Address,
)
    ensures
        ({
            let after = wallet.asset_added(user, asset);
            let list = wallet.assets_of(user);
            &&& after.assets.contains_key(user)
            &&& after.assets[user].len() == list.len() + 1
            &&& after.assets[user][list.len() as int] == asset
            &&& forall|i: int| 0 <= i < list.len() ==> after.assets[user][i] == list[i]
            &&& other != user ==> after.assets.get(other) == wallet.assets.get(other)
            &&& after == (WalletView { assets: after.assets, effects: after.effects, ..wallet })
            &&& after.effects == wallet.effects + seq![
                Effect::RequireAuth(user),
                Effect::Store(DataKey::UserAssets(user)),
                Effect::ExtendTtl {
                    key: DataKey::UserAssets(user),
                    threshold: 120_960,
                    extend_to: 518_400,
                },
                Effect::Publish(Event::AssetAdded { user, asset_code: asset.code }),
            ]
        }),
{
}

/// Every user can take out every asset that is registered, wherever it stands.
pub proof fn law_every_registered_asset_can_be_removed(
    wallet: WalletView,
    user: Address,
    code: soroban_sdk::String,
)
    ensures
        ({
            let refusal = wallet.remove_asset_refusal(user, code);
            let known = wallet.assets.contains_key(user) && exists|i: int|
                0 <= i < wallet.assets[user].len() && (#[trigger] wallet.assets[user][i]).code
                    == code;
            &&& refusal is None <==> known
            &&& !known ==> refusal == Some(WalletError::AssetNotFound)
        }),
{
}

/// A removal takes out the assets with this code and leaves all others, in their
/// order; everybody else's stay, and nothing else changes.
pub proof fn law_asset_removal(
    wallet: WalletView,
    user: Address,
    code: soroban_sdk::String,
    other: Address,
)
    ensures
        ({
            let after = wallet.asset_removed(user, code);
            let list = wallet.assets_of(user);
            &&& after.assets.contains_key(user)
            &&& after.assets[user] == list.filter(|asset: AssetInfo| asset.code != code)
            &&& other != user ==> after.assets.get(other) == wallet.assets.get(other)
            &&& after == (WalletView { assets: after.assets, effects: after.effects, ..wallet })
            &&& after.effects == wallet.effects + seq![
                Effect::RequireAuth(user),
                Effect::Store(DataKey::UserAssets(user)),
                Effect::ExtendTtl {
                    key: DataKey::UserAssets(user),
                    threshold: 120_960,
                    extend_to: 518_400,
                },
                Effect::Publish(Event::AssetRemoved { user, asset_code: code }),
            ]
        }),
{
    assert((|asset: AssetInfo| asset.code != code) =~= model::coded_other_than(code));
}

/// A migration keeps the first fifty assets and tells how many come after them.
/// With no more than fifty it only demands the authorization. Everybody else's
/// assets stay, and nothing else changes.
pub proof fn law_asset_migration(
    wallet: WalletView,
    admin: Address,
    user: Address,
    other: Address,
)
    ensures
        ({
            let after = wallet.assets_migrated(admin, user);
            let list = wallet.assets_of(user);
            &&& list.len() <= 50 ==> {
                &&& wallet.excess_of(user) == 0
                &&& after == (WalletView {
                    effects: wallet.effects + seq![Effect::RequireAuth(admin)],
                    ..wallet
                })
            }
            &&& list.len() > 50 ==> {
                &&& wallet.excess_of(user) == list.len() - 50
                &&& after.assets.contains_key(user)
                &&& after.assets[user].len() == 50
                &&& forall|i: int| 0 <= i < 50 ==> after.assets[user][i] == list[i]
                &&& other != user ==> after.assets.get(other) == wallet.assets.get(other)
                &&& after == (WalletView { assets: after.assets, effects: after.effects, ..wallet })
                &&& after.effects == wallet.effects + seq![
                    Effect::RequireAuth(admin),
                    Effect::Store(DataKey::UserAssets(user)),
                    Effect::ExtendTtl {
                        key: DataKey::UserAssets(user),
                        threshold: 120_960,
                        extend_to: 518_400,
                    },
                    Effect::Publish(
                        Event::UserAssetsMigrated { user, removed: (list.len() - 50) as u32 },
                    ),
                ]
            }
        }),
{
}

// Spend limits.

/// The limit is the one that was set, and 0 where none ever was: whoever the user
/// and whatever the asset.
pub proof fn law_limit_is_zero_until_it_is_set(
    wallet: WalletView,
    user: Address,
    code: soroban_sdk::String,
)
    ensures
        wallet.limits.contains_key(AssetKey { user, code }) ==> wallet.limit_of(user, code)
            == wallet.limits[AssetKey { user, code }],
        !wallet.limits.contains_key(AssetKey { user, code }) ==> wallet.limit_of(user, code) == 0,
{
}

/// Where no limit was ever set, every payment is served.
pub proof fn law_everything_can_be_paid_until_a_limit_is_set(
    wallet: WalletView,
    ledger: Ledger,
    user: Address,
    code: soroban_sdk::String,
    amount: i128,
)
    requires
        !wallet.limits.contains_key(AssetKey { user, code }),
    ensures
        wallet.record_spend_refusal(ledger, user, code, amount) is None,
{
}

/// What was spent on a day is what the record of that day says, and nothing
/// without one.
pub proof fn law_spending_is_the_days_record(
    wallet: WalletView,
    user: Address,
    code: soroban_sdk::String,
    day: u64,
)
    ensures
        ({
            let key = AssetKey { user, code };
            &&& wallet.spent.contains_key(key) && wallet.spent[key].day == day ==> wallet.spent_on(
                user,
                code,
                day,
            ) == wallet.spent[key].amount
            &&& !wallet.spent.contains_key(key) || wallet.spent[key].day != day ==> wallet.spent_on(
                user,
                code,
                day,
            ) == 0
        }),
{
}

/// A limit can be set exactly if it is not negative, and 0 or not below what is
/// on record for the day, in every other state of the wallet.
pub proof fn law_every_limit_from_the_days_spending_on_can_be_set(
    wallet: WalletView,
    ledger: Ledger,
    user: Address,
    code: soroban_sdk::String,
    limit: i128,
)
    ensures
        ({
            let refusal = wallet.set_spend_limit_refusal(ledger, user, code, limit);
            let key = AssetKey { user, code };
            let spent = if wallet.spent.contains_key(key) && wallet.spent[key].day as int
                == ledger.timestamp as int / 86_400 {
                wallet.spent[key].amount as int
            } else {
                0
            };
            &&& refusal is None <==> limit == 0 || (limit > 0 && spent <= limit)
            &&& limit < 0 ==> refusal == Some(WalletError::InvalidSpendLimit)
            &&& limit > 0 && spent > limit ==> refusal == Some(WalletError::SpendLimitExceeded)
        }),
{
}

/// The limit that was asked for is in force afterwards, whatever it was before;
/// all others stay, and nothing else changes.
pub proof fn law_limit_is_what_was_asked_for(
    wallet: WalletView,
    user: Address,
    code: soroban_sdk::String,
    limit: i128,
    other: AssetKey,
)
    ensures
        ({
            let after = wallet.spend_limit_set(user, code, limit);
            let key = AssetKey { user, code };
            &&& after.limits.contains_key(key)
            &&& after.limits[key] == limit
            &&& other != key ==> after.limits.get(other) == wallet.limits.get(other)
            &&& after == (WalletView { limits: after.limits, effects: after.effects, ..wallet })
            &&& after.effects == wallet.effects + seq![
                Effect::RequireAuth(user),
                Effect::Store(DataKey::SpendLimit(user, code)),
                Effect::ExtendTtl {
                    key: DataKey::SpendLimit(user, code),
                    threshold: 120_960,
                    extend_to: 518_400,
                },
                Effect::Publish(Event::SpendLimitSet { user, asset_code: code, limit }),
            ]
        }),
{
}

/// A payment is served exactly if there is no limit, or the day's total with it
/// fits in an `i128` and does not pass the limit, in every other state of the
/// wallet.
pub proof fn law_every_payment_within_the_limit_is_served(
    wallet: WalletView,
    ledger: Ledger,
    user: Address,
    code: soroban_sdk::String,
    amount: i128,
)
    ensures
        ({
            let refusal = wallet.record_spend_refusal(ledger, user, code, amount);
            let key = AssetKey { user, code };
            let limit = if wallet.limits.contains_key(key) {
                wallet.limits[key] as int
            } else {
                0
            };
            let spent = if wallet.spent.contains_key(key) && wallet.spent[key].day as int
                == ledger.timestamp as int / 86_400 {
                wallet.spent[key].amount as int
            } else {
                0
            };
            let fits = i128::MIN <= spent + amount <= i128::MAX;
            &&& refusal is None <==> limit == 0 || (fits && spent + amount <= limit)
            &&& limit != 0 && !fits ==> refusal == Some(WalletError::SpendOverflow)
            &&& limit != 0 && fits && spent + amount > limit ==> refusal == Some(
                WalletError::SpendLimitExceeded,
            )
        }),
{
}

/// A served payment is added to the day's total, with or without a limit; all
/// other records stay, and nothing else changes.
pub proof fn law_payment_is_recorded(
    wallet: WalletView,
    ledger: Ledger,
    user: Address,
    code: soroban_sdk::String,
    amount: i128,
    other: AssetKey,
)
    ensures
        ({
            let after = wallet.spend_recorded(ledger, user, code, amount);
            let key = AssetKey { user, code };
            let spent = if wallet.spent.contains_key(key) && wallet.spent[key].day as int
                == ledger.timestamp as int / 86_400 {
                wallet.spent[key].amount as int
            } else {
                0
            };
            let limit = if wallet.limits.contains_key(key) {
                wallet.limits[key]
            } else {
                0
            };
            &&& after.spent.contains_key(key)
            &&& after.spent[key].day as int == ledger.timestamp as int / 86_400
            &&& i128::MIN <= spent + amount <= i128::MAX ==> after.spent[key].amount == spent
                + amount
            &&& spent + amount > i128::MAX ==> after.spent[key].amount == i128::MAX
            &&& spent + amount < i128::MIN ==> after.spent[key].amount == i128::MIN
            &&& other != key ==> after.spent.get(other) == wallet.spent.get(other)
            &&& after == (WalletView { spent: after.spent, effects: after.effects, ..wallet })
            &&& after.effects == wallet.effects + seq![
                Effect::RequireAuth(user),
                Effect::Store(DataKey::DailySpent(user, code)),
                Effect::ExtendTtl {
                    key: DataKey::DailySpent(user, code),
                    threshold: 17_280,
                    extend_to: 34_560,
                },
                Effect::Publish(
                    Event::SpendRecorded {
                        user,
                        asset_code: code,
                        amount,
                        total: after.spent[key].amount,
                        limit,
                    },
                ),
            ]
        }),
{
}

// Entries read back from the ledger.

/// A restored entry is there afterwards as it was read, in place of the one
/// under its key; all other entries stay, and nothing is to be done.
pub proof fn law_restored_entry_is_there(
    wallet: WalletView,
    entry: Entry,
    other: Address,
    other_key: AssetKey,
)
    ensures
        ({
            let after = wallet.with_entry(entry);
            match entry {
                Entry::Admin(admin) => {
                    &&& after.admin == Some(admin)
                    &&& after == (WalletView { admin: after.admin, ..wallet })
                },
                Entry::PendingAdmin { current, candidate } => {
                    &&& after.pending_admins.contains_key(current)
                    &&& after.pending_admins[current] == candidate
                    &&& other != current ==> after.pending_admins.get(other)
                        == wallet.pending_admins.get(other)
                    &&& after == (WalletView { pending_admins: after.pending_admins, ..wallet })
                },
                Entry::PendingUpgrade(proposal) => {
                    &&& after.pending_upgrade == Some(proposal)
                    &&& after == (WalletView { pending_upgrade: after.pending_upgrade, ..wallet })
                },
                Entry::UserAssets { user, assets } => {
                    &&& after.assets.contains_key(user)
                    &&& after.assets[user] == assets@
                    &&& other != user ==> after.assets.get(other) == wallet.assets.get(other)
                    &&& after == (WalletView { assets: after.assets, ..wallet })
                },
                Entry::SpendLimit { user, asset_code, limit } => {
                    let key = AssetKey { user, code: asset_code };
                    &&& after.limits.contains_key(key)
                    &&& after.limits[key] == limit
                    &&& other_key != key ==> after.limits.get(other_key) == wallet.limits.get(
                        other_key,
                    )
                    &&& after == (WalletView { limits: after.limits, ..wallet })
                },
                Entry::DailySpent { user, asset_code, record } => {
                    let key = AssetKey { user, code: asset_code };
                    &&& after.spent.contains_key(key)
                    &&& after.spent[key] == record
                    &&& other_key != key ==> after.spent.get(other_key) == wallet.spent.get(
                        other_key,
                    )
                    &&& after == (WalletView { spent: after.spent, ..wallet })
                },
                Entry::Guardians(guardians) => {
                    &&& after.guardians == guardians@
                    &&& after == (WalletView { guardians: after.guardians, ..wallet })
                },
                Entry::RecoveryConfig(config) => {
                    &&& after.recovery_config == Some(config)
                    &&& after == (WalletView { recovery_config: after.recovery_config, ..wallet })
                },
                Entry::RecoveryProposal { new_admin, approvals, ready_at } => {
                    &&& after.recovery == Some(
                        RecoveryView { new_admin, approvals: approvals@, ready_at },
                    )
                    &&& after == (WalletView { recovery: after.recovery, ..wallet })
                },
                Entry::GuardianMembership(pairs) => {
                    &&& after.membership == Some(model::map_of(pairs@))
                    &&& after == (WalletView { membership: after.membership, ..wallet })
                },
            }
        }),
{
}

/// A list that the ledger can count can be restored, and so can every entry that
/// is no list.
pub proof fn law_what_can_be_restored(entry: Entry)
    ensures
        entry.countable() <==> match entry {
            Entry::UserAssets { user, assets } => assets@.len() < 0x1_0000_0000,
            Entry::Guardians(guardians) => guardians@.len() < 0x1_0000_0000,
            Entry::RecoveryProposal { new_admin, approvals, ready_at } => approvals@.len()
                < 0x1_0000_0000,
            _ => true,
        },
{
}

/// A recovery proposal is looked at with all that it holds.
pub proof fn law_proposal_is_seen_as_it_is(proposal: RecoveryProposal)
    ensures
        proposal@.new_admin == proposal.new_admin,
        proposal@.approvals == host::addresses(proposal.approvals),
        proposal@.ready_at == proposal.ready_at,
{
}

/// An index that is read pair by pair has for every key the flag of the last pair
/// with it, and no other keys.
pub proof fn law_last_pair_of_a_key_counts(pairs: Seq<(Address, bool)>, key: Address, flag: bool)
    ensures
        forall|who: Address| !model::map_of(Seq::empty()).contains_key(who),
        model::map_of(pairs.push((key, flag))).contains_key(key),
        model::map_of(pairs.push((key, flag)))[key] == flag,
        forall|who: Address|
            who != key ==> #[trigger] model::map_of(pairs.push((key, flag))).get(who)
                == model::map_of(pairs).get(who),
{
    assert(pairs.push((key, flag)).drop_last() =~= pairs);
}

/// An event is published under the one topic of its kind, whatever it carries.
pub proof fn law_topic_names_the_kind(event: Event)
    ensures
        event is Initialized ==> event.topic_text() == "initialized"@,
        event is AdminProposed ==> event.topic_text() == "admin_proposed"@,
        event is AdminTransferred ==> event.topic_text() == "admin_transferred"@,
        event is AdminTransferCancelled ==> event.topic_text() == "admin_transfer_cancelled"@,
        event is UpgradeProposed ==> event.topic_text() == "upgrade_proposed"@,
        event is UpgradeExecuted ==> event.topic_text() == "upgrade_executed"@,
        event is GuardianAdded ==> event.topic_text() == "guardian_added"@,
        event is GuardianRemoved ==> event.topic_text() == "guardian_removed"@,
        event is RecoveryConfigSet ==> event.topic_text() == "recovery_config_set"@,
        event is RecoveryInitiated ==> event.topic_text() == "recovery_initiated"@,
        event is RecoveryQuorumReached ==> event.topic_text() == "recovery_quorum_reached"@,
        event is RecoveryApproved ==> event.topic_text() == "recovery_approved"@,
        event is RecoveryApprovalRevoked ==> event.topic_text() == "recovery_approval_revoked"@,
        event is RecoveryCancelled ==> event.topic_text() == "recovery_cancelled"@,
        event is AssetAdded ==> event.topic_text() == "asset_added"@,
        event is AssetRemoved ==> event.topic_text() == "asset_removed"@,
        event is SpendLimitSet ==> event.topic_text() == "spend_limit_set"@,
        event is SpendRecorded ==> event.topic_text() == "spend_recorded"@,
        event is UserAssetsMigrated ==> event.topic_text() == "user_assets_migrated"@,
{
}

} // verus!
