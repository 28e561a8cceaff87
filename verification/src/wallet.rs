//! The wallet: who administers it, how the admin role is recovered, which
//! assets its users hold and what they may spend.
//!
//! A [`GlobeWallet`] holds the ledger entries that a request reads or writes.
//! Serving a request changes them and records, in order, what the contract then
//! has to do on the ledger itself.
use soroban_sdk::{Address, BytesN};
use vstd::prelude::*;

use crate::effect::{Effect, Event};
use crate::error::WalletError;
use crate::host;
use crate::model::{self, WalletView, MAX_ASSETS, MIN_GUARDIANS_FOR_RECOVERY};
use crate::table::{AssetKey, Table};
use crate::types::{
    AssetInfo, DataKey, Entry, Ledger, RecoveryConfig, RecoveryProposal, SpendRecord, UpgradeProposal,
    DAILY_SPENT_TTL_EXTEND_TO, DAILY_SPENT_TTL_THRESHOLD, PERSISTENT_TTL_EXTEND_TO,
    PERSISTENT_TTL_THRESHOLD, SECONDS_PER_DAY,
};

verus! {

/// The wallet's ledger entries, and what is still to be done on the ledger.
pub struct GlobeWallet {
    /// The contract's own address.
    contract: Address,
    admin: Option<Address>,
    pending_admins: Table<Address, Address>,
    pending_upgrade: Option<UpgradeProposal>,
    guardians: soroban_sdk::Vec<Address>,
    membership: Option<soroban_sdk::Map<Address, bool>>,
    recovery_config: Option<RecoveryConfig>,
    recovery: Option<RecoveryProposal>,
    assets: Table<Address, Vec<AssetInfo>>,
    limits: Table<AssetKey, i128>,
    spent: Table<AssetKey, SpendRecord>,
    effects: Vec<Effect>,
}

impl View for GlobeWallet {
    type V = WalletView;

    closed spec fn view(&self) -> WalletView {
        WalletView {
            admin: self.admin,
            pending_admins: self.pending_admins@,
            pending_upgrade: self.pending_upgrade,
            guardians: host::addresses(self.guardians),
            membership: match self.membership {
                Some(index) => Some(host::flags(index)),
                None => None,
            },
            recovery_config: self.recovery_config,
            recovery: match self.recovery {
                Some(proposal) => Some(proposal@),
                None => None,
            },
            assets: self.assets@.map_values(|list: Vec<AssetInfo>| list@),
            limits: self.limits@,
            spent: self.spent@,
            effects: self.effects@,
        }
    }
}

impl GlobeWallet {
    /// Tables have no key twice, host collections hold what they should, and no
    /// list is longer than the host can count.
    pub closed spec fn wf(&self) -> bool {
        &&& self.pending_admins.wf()
        &&& self.assets.wf()
        &&& self.limits.wf()
        &&& self.spent.wf()
        &&& host::holds_addresses(self.guardians)
        &&& self.membership is Some ==> host::holds_flags(self.membership->0)
        &&& self.recovery is Some ==> host::holds_addresses(self.recovery->0.approvals)
        &&& forall|user: Address| #[trigger]
            self.assets@.contains_key(user) ==> self.assets@[user]@.len() <= u32::MAX
    }

    /// Most assets that one user can register.
    pub const MAX_ASSETS: u32 = MAX_ASSETS;

    /// A wallet without any entry, for the contract at address `contract`.
    pub fn new(contract: Address) -> (wallet: Self)
        ensures
            wallet.wf(),
            wallet@ == WalletView::blank(),
    {
        let guardians = host::empty_list(&contract);
        let wallet = GlobeWallet {
            contract,
            admin: None,
            pending_admins: Table::new(),
            pending_upgrade: None,
            guardians,
            membership: None,
            recovery_config: None,
            recovery: None,
            assets: Table::new(),
            limits: Table::new(),
            spent: Table::new(),
            effects: Vec::new(),
        };
        assert(wallet@ =~= WalletView::blank());
        wallet
    }

    /// Hands over what is to be done on the ledger, first to last.
    pub fn take_effects(&mut self) -> (effects: Vec<Effect>)
        requires
            old(self).wf(),
        ensures
            final(self).wf(),
            effects@ == old(self)@.effects,
            final(self)@ == (WalletView { effects: Seq::empty(), ..old(self)@ }),
    {
        let mut effects: Vec<Effect> = Vec::new();
        std::mem::swap(&mut effects, &mut self.effects);
        effects
    }

    fn perform(&mut self, effect: Effect)
        requires
            old(self).wf(),
        ensures
            final(self).wf(),
            final(self)@ == old(self)@.perform(effect),
    {
        self.effects.push(effect);
    }

    fn publish(&mut self, event: Event)
        requires
            old(self).wf(),
        ensures
            final(self).wf(),
            final(self)@ == old(self)@.publish(event),
    {
        self.effects.push(Effect::Publish(event));
    }

    fn demand(&mut self, who: &Address)
        requires
            old(self).wf(),
        ensures
            final(self).wf(),
            final(self)@ == old(self)@.demand(*who),
    {
        self.effects.push(Effect::RequireAuth(who.clone()));
    }
}

// Who is the admin.
impl GlobeWallet {
    /// Makes `admin` the first admin.
    pub fn initialize(&mut self, admin: Address) -> (done: Result<(), WalletError>)
        requires
            old(self).wf(),
        ensures
            final(self).wf(),
            done == model::answer(old(self)@.initialize_refusal()),
            final(self)@ == (if done is Ok {
                old(self)@.initialized(admin)
            } else {
                old(self)@
            }),
    {
        if self.admin.is_some() {
            return Err(WalletError::AlreadyInitialized);
        }
        self.admin = Some(admin.clone());
        self.perform(Effect::Store(DataKey::Admin));
        self.publish(Event::Initialized { admin });
        Ok(())
    }

    /// The current admin.
    pub fn admin(&self) -> (admin: Address)
        requires
            self.wf(),
            self@.admin is Some,
        ensures
            Some(admin) == self@.admin,
    {
        self.admin.as_ref().unwrap().clone()
    }

    fn require_admin(&self, caller: &Address) -> (allowed: Result<(), WalletError>)
        ensures
            allowed == model::answer(self@.admin_refusal(*caller)),
    {
        match &self.admin {
            None => Err(WalletError::NotInitialized),
            Some(admin) => if host::same_address(admin, caller) {
                Ok(())
            } else {
                Err(WalletError::Unauthorized)
            },
        }
    }

    /// Proposes a new admin; the same as [`GlobeWallet::propose_admin`], which
    /// is to be preferred.
    pub fn transfer_admin(&mut self, current: Address, new_admin: Address) -> (done: Result<
        (),
        WalletError,
    >)
        requires
            old(self).wf(),
        ensures
            final(self).wf(),
            done == model::answer(old(self)@.admin_refusal(current)),
            final(self)@ == (if done is Ok {
                old(self)@.admin_proposed(current, new_admin)
            } else {
                old(self)@.demand(current)
            }),
    {
        self.propose_admin(current, new_admin)
    }

    /// Proposes a new admin. The current admin remains in control until the
    /// candidate accepts.
    pub fn propose_admin(&mut self, current: Address, candidate: Address) -> (done: Result<
        (),
        WalletError,
    >)
        requires
            old(self).wf(),
        ensures
            final(self).wf(),
            done == model::answer(old(self)@.admin_refusal(current)),
            final(self)@ == (if done is Ok {
                old(self)@.admin_proposed(current, candidate)
            } else {
                old(self)@.demand(current)
            }),
    {
        self.demand(&current);
        match self.require_admin(&current) {
            Ok(()) => {},
            Err(error) => {
                return Err(error);
            },
        }
        self.pending_admins.insert(current.clone(), candidate.clone());
        self.perform(Effect::Store(DataKey::PendingAdmin(current.clone())));
        self.publish(Event::AdminProposed { current, candidate });
        Ok(())
    }

    /// The proposed candidate takes the admin role over.
    pub fn accept_admin(&mut self, candidate: Address) -> (done: Result<(), WalletError>)
        requires
            old(self).wf(),
        ensures
            final(self).wf(),
            done == model::answer(old(self)@.accept_refusal(candidate)),
            final(self)@ == (if done is Ok {
                old(self)@.admin_accepted(candidate)
            } else {
                old(self)@.demand(candidate)
            }),
    {
        self.demand(&candidate);
        let old_admin = match &self.admin {
            None => {
                return Err(WalletError::NotInitialized);
            },
            Some(admin) => admin.clone(),
        };
        match self.pending_admins.get(&old_admin) {
            None => {
                return Err(WalletError::NoPendingAdmin);
            },
            Some(pending) => {
                if !host::same_address(pending, &candidate) {
                    return Err(WalletError::Unauthorized);
                }
            },
        }
        self.admin = Some(candidate.clone());
        self.perform(Effect::Store(DataKey::Admin));
        let _ = self.pending_admins.take(&old_admin);
        self.perform(Effect::Remove(DataKey::PendingAdmin(old_admin.clone())));
        self.publish(Event::AdminTransferred { old_admin, new_admin: candidate });
        Ok(())
    }

    /// Withdraws the pending proposal of a new admin, if there is one.
    pub fn cancel_admin_transfer(&mut self, current: Address) -> (done: Result<(), WalletError>)
        requires
            old(self).wf(),
        ensures
            final(self).wf(),
            done == model::answer(old(self)@.admin_refusal(current)),
            final(self)@ == (if done is Ok {
                old(self)@.admin_transfer_cancelled(current)
            } else {
                old(self)@.demand(current)
            }),
    {
        self.demand(&current);
        match self.require_admin(&current) {
            Ok(()) => {},
            Err(error) => {
                return Err(error);
            },
        }
        let _ = self.pending_admins.take(&current);
        self.perform(Effect::Remove(DataKey::PendingAdmin(current.clone())));
        self.publish(Event::AdminTransferCancelled { current });
        Ok(())
    }
}

// Upgrades of the contract's code.
impl GlobeWallet {
    /// Queues an upgrade, to be executed `delay_in_ledgers` from now at the
    /// earliest.
    pub fn propose_upgrade(
        &mut self,
        ledger: Ledger,
        proposer: Address,
        wasm_hash: BytesN<32>,
        delay_in_ledgers: u32,
    ) -> (done: Result<(), WalletError>)
        requires
            old(self).wf(),
        ensures
            final(self).wf(),
            done is Ok <==> old(self)@.admin == Some(proposer) && old(self)@.pending_upgrade is None,
            done == model::answer(old(self)@.propose_upgrade_refusal(proposer)),
            final(self)@ == (if done is Ok {
                old(self)@.upgrade_proposed(ledger, proposer, wasm_hash, delay_in_ledgers)
            } else {
                old(self)@.demand(proposer)
            }),
    {
        self.demand(&proposer);
        match self.require_admin(&proposer) {
            Ok(()) => {},
            Err(error) => {
                return Err(error);
            },
        }
        if self.pending_upgrade.is_some() {
            return Err(WalletError::UpgradeAlreadyPending);
        }
        let ready_at: u32 = ledger.sequence.saturating_add(delay_in_ledgers);
        self.pending_upgrade = Some(
            UpgradeProposal {
                wasm_hash: wasm_hash.clone(),
                proposed_by: proposer.clone(),
                ready_at,
            },
        );
        self.perform(Effect::Store(DataKey::PendingUpgrade));
        self.publish(Event::UpgradeProposed { proposer, wasm_hash, ready_at });
        Ok(())
    }

    /// Executes the queued upgrade, once its timelock has elapsed.
    pub fn execute_upgrade(
        &mut self,
        ledger: Ledger,
        executor: Address,
        wasm_hash: BytesN<32>,
    ) -> (done: Result<(), WalletError>)
        requires
            old(self).wf(),
        ensures
            final(self).wf(),
            done == model::answer(old(self)@.execute_upgrade_refusal(ledger, executor, wasm_hash)),
            final(self)@ == (if done is Ok {
                old(self)@.upgrade_executed(executor, wasm_hash)
            } else {
                old(self)@.demand(executor)
            }),
    {
        self.demand(&executor);
        match self.require_admin(&executor) {
            Ok(()) => {},
            Err(error) => {
                return Err(error);
            },
        }
        match &self.pending_upgrade {
            None => {
                return Err(WalletError::UpgradeNotPending);
            },
            Some(proposal) => {
                if !host::same_hash(&proposal.wasm_hash, &wasm_hash) {
                    return Err(WalletError::UpgradeHashMismatch);
                }
                if ledger.sequence < proposal.ready_at {
                    return Err(WalletError::UpgradeNotReady);
                }
            },
        }
        self.perform(Effect::ReplaceWasm(wasm_hash.clone()));
        self.pending_upgrade = None;
        self.perform(Effect::Remove(DataKey::PendingUpgrade));
        self.publish(Event::UpgradeExecuted { executor, wasm_hash });
        Ok(())
    }
}

/// Whether `item` is in `list`.
fn list_contains(list: &soroban_sdk::Vec<Address>, item: &Address) -> (found: bool)
    requires
        host::holds_addresses(*list),
    ensures
        found == host::addresses(*list).contains(*item),
{
    let len: u32 = host::list_len(list);
    let mut i: u32 = 0;
    while i < len
        invariant
            i <= len,
            len == host::addresses(*list).len(),
            host::holds_addresses(*list),
            forall|j: int| 0 <= j < i ==> host::addresses(*list)[j] != *item,
        decreases len - i,
    {
        if host::same_address(&host::list_at(list, i), item) {
            assert(host::addresses(*list)[i as int] == *item);
            return true;
        }
        i = i + 1;
    }
    false
}

/// `list` without `item`.
fn list_without(list: &soroban_sdk::Vec<Address>, item: &Address) -> (rest: soroban_sdk::Vec<
    Address,
>)
    requires
        host::holds_addresses(*list),
    ensures
        host::holds_addresses(rest),
        host::addresses(rest) == model::without(host::addresses(*list), *item),
{
    let ghost all = host::addresses(*list);
    let ghost other = model::other_than(*item);
    let mut rest = host::empty_list(item);
    let len: u32 = host::list_len(list);
    let mut i: u32 = 0;
    assert(all.take(0).filter(other) =~= Seq::<Address>::empty()) by {
        reveal(Seq::filter);
    }
    while i < len
        invariant
            i <= len,
            len == all.len(),
            all == host::addresses(*list),
            other == model::other_than(*item),
            host::holds_addresses(*list),
            host::holds_addresses(rest),
            host::addresses(rest).len() <= i,
            host::addresses(rest) == all.take(i as int).filter(other),
        decreases len - i,
    {
        let next = host::list_at(list, i);
        proof {
            reveal(Seq::filter);
            assert(all.take(i + 1).drop_last() =~= all.take(i as int));
        }
        if !host::same_address(&next, item) {
            host::list_push(&mut rest, &next);
        }
        i = i + 1;
    }
    assert(all.take(len as int) =~= all);
    rest
}

// Guardians.
impl GlobeWallet {
    /// Builds the guardian index from the list, if there is none yet. Wallets
    /// from before the index was introduced have only the list.
    fn guardian_membership(&mut self)
        requires
            old(self).wf(),
        ensures
            final(self).wf(),
            final(self)@ == old(self)@.indexed(),
            final(self)@.membership is Some,
    {
        if self.membership.is_some() {
            return ;
        }
        let ghost all = host::addresses(self.guardians);
        let mut index = host::empty_index(&self.contract);
        let len: u32 = host::list_len(&self.guardians);
        let mut i: u32 = 0;
        while i < len
            invariant
                i <= len,
                len == all.len(),
                all == host::addresses(self.guardians),
                host::holds_addresses(self.guardians),
                host::holds_flags(index),
                *self == *old(self),
                host::flags(index) =~= model::index_of(all.take(i as int)),
            decreases len - i,
        {
            let next = host::list_at(&self.guardians, i);
            host::index_set(&mut index, &next, true);
            proof {
                assert(all.take(i + 1) =~= all.take(i as int).push(next));
                model::lemma_index_of_push(all.take(i as int), next);
            }
            i = i + 1;
        }
        assert(all.take(len as int) =~= all);
        self.membership = Some(index);
        self.perform(Effect::Store(DataKey::GuardianMembership));
    }

    /// Whether `who` is a guardian, by the index.
    fn is_member(&self, who: &Address) -> (member: bool)
        requires
            self.wf(),
            self@.membership is Some,
        ensures
            member == self@.is_guardian(*who),
    {
        match &self.membership {
            None => false,
            Some(index) => match host::index_get(index, who) {
                Some(flag) => flag,
                None => false,
            },
        }
    }

    /// Registers a guardian.
    pub fn add_guardian(&mut self, admin: Address, guardian: Address) -> (done: Result<
        (),
        WalletError,
    >)
        requires
            old(self).wf(),
            old(self)@.guardians.len() < u32::MAX,
        ensures
            final(self).wf(),
            done is Ok <==> old(self)@.admin == Some(admin) && !(match old(self)@.membership {
                Some(index) => index.contains_key(guardian) && index[guardian],
                None => old(self)@.guardians.contains(guardian),
            }),
            done == model::answer(old(self)@.add_guardian_refusal(admin, guardian)),
            final(self)@ == (if done is Ok {
                old(self)@.guardian_added(admin, guardian)
            } else {
                old(self)@.guardian_not_added(admin)
            }),
    {
        self.demand(&admin);
        match self.require_admin(&admin) {
            Ok(()) => {},
            Err(error) => {
                return Err(error);
            },
        }
        self.guardian_membership();
        if self.is_member(&guardian) {
            return Err(WalletError::GuardianAlreadyAdded);
        }
        host::list_push(&mut self.guardians, &guardian);
        self.perform(Effect::Store(DataKey::Guardians));
        if let Some(mut index) = self.membership.take() {
            host::index_set(&mut index, &guardian, true);
            self.membership = Some(index);
        }
        self.perform(Effect::Store(DataKey::GuardianMembership));
        self.publish(Event::GuardianAdded { guardian });
        Ok(())
    }

    /// Removes a guardian, unless a configured recovery needs the remaining
    /// ones and more.
    pub fn remove_guardian(&mut self, admin: Address, guardian: Address) -> (done: Result<
        (),
        WalletError,
    >)
        requires
            old(self).wf(),
        ensures
            final(self).wf(),
            done == model::answer(old(self)@.remove_guardian_refusal(admin, guardian)),
            final(self)@ == (if done is Ok {
                old(self)@.guardian_removed(admin, guardian)
            } else {
                old(self)@.demand(admin)
            }),
    {
        self.demand(&admin);
        match self.require_admin(&admin) {
            Ok(()) => {},
            Err(error) => {
                return Err(error);
            },
        }
        if !list_contains(&self.guardians, &guardian) {
            return Err(WalletError::GuardianNotFound);
        }
        let rest = list_without(&self.guardians, &guardian);
        if let Some(config) = self.recovery_config {
            if host::list_len(&rest) < config.threshold {
                return Err(WalletError::NotEnoughGuardians);
            }
        }
        self.guardians = rest;
        self.perform(Effect::Store(DataKey::Guardians));
        self.guardian_membership();
        if let Some(mut index) = self.membership.take() {
            host::index_remove(&mut index, &guardian);
            self.membership = Some(index);
        }
        self.perform(Effect::Store(DataKey::GuardianMembership));
        self.publish(Event::GuardianRemoved { guardian });
        Ok(())
    }

    /// The guardians, in the order in which they were added.
    pub fn guardians(&self) -> (guardians: soroban_sdk::Vec<Address>)
        requires
            self.wf(),
        ensures
            host::holds_addresses(guardians),
            host::addresses(guardians) == self@.guardians,
    {
        self.guardians.clone()
    }
}

// Recovery of the admin role by the guardians.
//
// Executing a recovery needs nobody's authorization, only the guardians' quorum
// and the timelock: that the admin cannot sign is what a recovery is for. An
// admin who still can sign is able to cancel it at any time. The timelock starts
// when the quorum is reached, so a minority cannot start it, and it is cleared
// when a revocation loses the quorum.
impl GlobeWallet {
    fn require_guardian(&mut self, caller: &Address) -> (allowed: Result<(), WalletError>)
        requires
            old(self).wf(),
        ensures
            final(self).wf(),
            final(self)@ == old(self)@.indexed(),
            allowed == model::answer(old(self)@.guardian_refusal(*caller)),
    {
        self.guardian_membership();
        if self.is_member(caller) {
            Ok(())
        } else {
            Err(WalletError::Unauthorized)
        }
    }

    fn require_recovery_configured(&self) -> (config: Result<RecoveryConfig, WalletError>)
        ensures
            config == (match self@.recovery_config {
                Some(config) => Ok(config),
                None => Err(WalletError::RecoveryNotConfigured),
            }),
    {
        match self.recovery_config {
            Some(config) => Ok(config),
            None => Err(WalletError::RecoveryNotConfigured),
        }
    }

    fn require_pending_recovery(&self) -> (proposal: Result<RecoveryProposal, WalletError>)
        requires
            self.wf(),
        ensures
            match proposal {
                Ok(proposal) => self@.recovery == Some(proposal@) && host::holds_addresses(
                    proposal.approvals,
                ),
                Err(error) => self@.recovery is None && error == WalletError::NoPendingRecovery,
            },
    {
        match &self.recovery {
            Some(proposal) => Ok(proposal.clone()),
            None => Err(WalletError::NoPendingRecovery),
        }
    }

    /// Sets how many guardians make a quorum, and how long after it a recovery
    /// becomes executable.
    pub fn set_recovery_config(
        &mut self,
        admin: Address,
        threshold: u32,
        delay_in_ledgers: u32,
    ) -> (done: Result<(), WalletError>)
        requires
            old(self).wf(),
        ensures
            final(self).wf(),
            done is Ok ==> final(self)@.recovery_config == Some(
                (RecoveryConfig { threshold, delay_in_ledgers }),
            ),
            done == model::answer(old(self)@.set_recovery_config_refusal(admin, threshold)),
            final(self)@ == (if done is Ok {
                old(self)@.recovery_configured(admin, threshold, delay_in_ledgers)
            } else {
                old(self)@.demand(admin)
            }),
    {
        self.demand(&admin);
        match self.require_admin(&admin) {
            Ok(()) => {},
            Err(error) => {
                return Err(error);
            },
        }
        if threshold <= 1 {
            return Err(WalletError::InvalidRecoveryThreshold);
        }
        let count: u32 = host::list_len(&self.guardians);
        if count < MIN_GUARDIANS_FOR_RECOVERY || threshold > count {
            return Err(WalletError::NotEnoughGuardians);
        }
        self.recovery_config = Some(RecoveryConfig { threshold, delay_in_ledgers });
        self.perform(Effect::Store(DataKey::RecoveryConfig));
        self.publish(Event::RecoveryConfigSet { threshold, delay_in_ledgers });
        Ok(())
    }

    /// The recovery configuration, if there is one.
    pub fn recovery_config(&self) -> (config: Option<RecoveryConfig>)
        ensures
            config == self@.recovery_config,
    {
        self.recovery_config
    }

    /// A guardian starts a recovery, and thereby approves it.
    pub fn initiate_recovery(&mut self, guardian: Address, new_admin: Address) -> (done: Result<
        (),
        WalletError,
    >)
        requires
            old(self).wf(),
        ensures
            final(self).wf(),
            done == model::answer(old(self)@.initiate_refusal(guardian)),
            final(self)@ == (if done is Ok {
                old(self)@.recovery_initiated(guardian, new_admin)
            } else {
                old(self)@.demand(guardian).indexed()
            }),
    {
        self.demand(&guardian);
        match self.require_guardian(&guardian) {
            Ok(()) => {},
            Err(error) => {
                return Err(error);
            },
        }
        match self.require_recovery_configured() {
            Ok(_) => {},
            Err(error) => {
                return Err(error);
            },
        }
        if self.recovery.is_some() {
            return Err(WalletError::RecoveryAlreadyPending);
        }
        let mut approvals = host::empty_list(&guardian);
        host::list_push(&mut approvals, &guardian);
        assert(host::addresses(approvals) =~= seq![guardian]);
        self.recovery = Some(
            RecoveryProposal { new_admin: new_admin.clone(), approvals, ready_at: None },
        );
        self.perform(Effect::Store(DataKey::RecoveryProposal));
        self.publish(Event::RecoveryInitiated { guardian, new_admin });
        Ok(())
    }

    /// A guardian approves the pending recovery. The approval that makes the
    /// quorum starts the timelock.
    pub fn approve_recovery(&mut self, ledger: Ledger, guardian: Address) -> (done: Result<
        (),
        WalletError,
    >)
        requires
            old(self).wf(),
            old(self)@.recovery is Some ==> old(self)@.recovery->0.approvals.len() < u32::MAX,
        ensures
            final(self).wf(),
            done == model::answer(old(self)@.approve_refusal(guardian)),
            final(self)@ == (if done is Ok {
                old(self)@.recovery_approved(ledger, guardian)
            } else {
                old(self)@.demand(guardian).indexed()
            }),
    {
        self.demand(&guardian);
        match self.require_guardian(&guardian) {
            Ok(()) => {},
            Err(error) => {
                return Err(error);
            },
        }
        let config = match self.require_recovery_configured() {
            Ok(config) => config,
            Err(error) => {
                return Err(error);
            },
        };
        let mut proposal = match self.require_pending_recovery() {
            Ok(proposal) => proposal,
            Err(error) => {
                return Err(error);
            },
        };
        if list_contains(&proposal.approvals, &guardian) {
            return Err(WalletError::AlreadyApproved);
        }
        host::list_push(&mut proposal.approvals, &guardian);
        if host::list_len(&proposal.approvals) >= config.threshold && proposal.ready_at.is_none() {
            let ready_at: u32 = ledger.sequence.saturating_add(config.delay_in_ledgers);
            proposal.ready_at = Some(ready_at);
            self.publish(
                Event::RecoveryQuorumReached { new_admin: proposal.new_admin.clone(), ready_at },
            );
        }
        self.recovery = Some(proposal);
        self.perform(Effect::Store(DataKey::RecoveryProposal));
        self.publish(Event::RecoveryApproved { guardian });
        Ok(())
    }

    /// A guardian revokes an approval. Below the threshold the timelock is
    /// cleared, and a new quorum starts it anew.
    pub fn revoke_recovery_approval(&mut self, guardian: Address) -> (done: Result<
        (),
        WalletError,
    >)
        requires
            old(self).wf(),
        ensures
            final(self).wf(),
            done is Ok <==> old(self)@.recovery_config is Some && old(self)@.recovery is Some && old(
                self,
            )@.recovery->0.approvals.contains(guardian),
            done == model::answer(old(self)@.revoke_refusal(guardian)),
            final(self)@ == (if done is Ok {
                old(self)@.approval_revoked(guardian)
            } else {
                old(self)@.demand(guardian)
            }),
    {
        self.demand(&guardian);
        let config = match self.require_recovery_configured() {
            Ok(config) => config,
            Err(error) => {
                return Err(error);
            },
        };
        let mut proposal = match self.require_pending_recovery() {
            Ok(proposal) => proposal,
            Err(error) => {
                return Err(error);
            },
        };
        if !list_contains(&proposal.approvals, &guardian) {
            return Err(WalletError::ApprovalNotFound);
        }
        proposal.approvals = list_without(&proposal.approvals, &guardian);
        if host::list_len(&proposal.approvals) < config.threshold {
            proposal.ready_at = None;
        }
        self.recovery = Some(proposal);
        self.perform(Effect::Store(DataKey::RecoveryProposal));
        self.publish(Event::RecoveryApprovalRevoked { guardian });
        Ok(())
    }

    /// Hands the admin role to the new admin, once the quorum stands and the
    /// timelock has elapsed. A normal transfer in flight is dropped.
    pub fn execute_recovery(&mut self, ledger: Ledger) -> (done: Result<(), WalletError>)
        requires
            old(self).wf(),
        ensures
            final(self).wf(),
            done == model::answer(old(self)@.execute_recovery_refusal(ledger)),
            final(self)@ == (if done is Ok {
                old(self)@.recovery_executed()
            } else {
                old(self)@
            }),
    {
        let config = match self.require_recovery_configured() {
            Ok(config) => config,
            Err(error) => {
                return Err(error);
            },
        };
        let proposal = match self.require_pending_recovery() {
            Ok(proposal) => proposal,
            Err(error) => {
                return Err(error);
            },
        };
        if host::list_len(&proposal.approvals) < config.threshold {
            return Err(WalletError::RecoveryNotQuorate);
        }
        let ready_at: u32 = match proposal.ready_at {
            Some(ready_at) => ready_at,
            None => {
                return Err(WalletError::RecoveryNotQuorate);
            },
        };
        if ledger.sequence < ready_at {
            return Err(WalletError::RecoveryNotReady);
        }
        let old_admin = match &self.admin {
            Some(admin) => admin.clone(),
            None => {
                return Err(WalletError::NotInitialized);
            },
        };
        let new_admin = proposal.new_admin;
        let _ = self.pending_admins.take(&old_admin);
        self.perform(Effect::Remove(DataKey::PendingAdmin(old_admin.clone())));
        self.admin = Some(new_admin.clone());
        self.perform(Effect::Store(DataKey::Admin));
        self.recovery = None;
        self.perform(Effect::Remove(DataKey::RecoveryProposal));
        self.publish(Event::AdminTransferred { old_admin, new_admin });
        Ok(())
    }

    /// The admin drops the pending recovery, with or without a quorum.
    pub fn cancel_recovery(&mut self, admin: Address) -> (done: Result<(), WalletError>)
        requires
            old(self).wf(),
        ensures
            final(self).wf(),
            done == model::answer(old(self)@.cancel_recovery_refusal(admin)),
            final(self)@ == (if done is Ok {
                old(self)@.recovery_cancelled(admin)
            } else {
                old(self)@.demand(admin)
            }),
    {
        self.demand(&admin);
        match self.require_admin(&admin) {
            Ok(()) => {},
            Err(error) => {
                return Err(error);
            },
        }
        if self.recovery.is_none() {
            return Err(WalletError::NoPendingRecovery);
        }
        self.recovery = None;
        self.perform(Effect::Remove(DataKey::RecoveryProposal));
        self.publish(Event::RecoveryCancelled { admin });
        Ok(())
    }

    /// The pending recovery, if there is one.
    pub fn recovery_proposal(&self) -> (proposal: Option<RecoveryProposal>)
        requires
            self.wf(),
        ensures
            match proposal {
                Some(proposal) => self@.recovery == Some(proposal@) && host::holds_addresses(
                    proposal.approvals,
                ),
                None => self@.recovery is None,
            },
    {
        match &self.recovery {
            Some(proposal) => Some(proposal.clone()),
            None => None,
        }
    }
}

/// Whether an asset of `list` has this code.
fn assets_have_code(list: &Vec<AssetInfo>, code: &soroban_sdk::String) -> (found: bool)
    ensures
        found == model::has_code(list@, *code),
{
    let mut i: usize = 0;
    while i < list.len()
        invariant
            i <= list@.len(),
            forall|j: int| 0 <= j < i ==> (#[trigger] list@[j]).code != *code,
        decreases list@.len() - i,
    {
        if host::same_text(&list[i].code, code) {
            return true;
        }
        i = i + 1;
    }
    false
}

/// The assets of `list` that have another code.
fn assets_without_code(list: &Vec<AssetInfo>, code: &soroban_sdk::String) -> (rest: Vec<AssetInfo>)
    ensures
        rest@ == model::without_code(list@, *code),
{
    let ghost other = model::coded_other_than(*code);
    let mut rest: Vec<AssetInfo> = Vec::new();
    let mut i: usize = 0;
    assert(list@.take(0).filter(other) =~= Seq::<AssetInfo>::empty()) by {
        reveal(Seq::filter);
    }
    while i < list.len()
        invariant
            i <= list@.len(),
            other == model::coded_other_than(*code),
            rest@ == list@.take(i as int).filter(other),
        decreases list@.len() - i,
    {
        proof {
            reveal(Seq::filter);
            assert(list@.take(i + 1).drop_last() =~= list@.take(i as int));
        }
        if !host::same_text(&list[i].code, code) {
            rest.push(list[i].clone());
        }
        i = i + 1;
    }
    assert(list@.take(list@.len() as int) =~= list@);
    rest
}

/// A copy of `list`.
fn assets_copy(list: &Vec<AssetInfo>) -> (copy: Vec<AssetInfo>)
    ensures
        copy@ == list@,
{
    let mut copy: Vec<AssetInfo> = Vec::new();
    let mut i: usize = 0;
    while i < list.len()
        invariant
            i <= list@.len(),
            copy@ == list@.take(i as int),
        decreases list@.len() - i,
    {
        copy.push(list[i].clone());
        assert(list@.take(i + 1) =~= list@.take(i as int).push(list@[i as int]));
        i = i + 1;
    }
    assert(list@.take(list@.len() as int) =~= list@);
    copy
}

// Assets.
impl GlobeWallet {
    /// Gives `user` a list of assets, in place of the one there was.
    fn put_assets(&mut self, user: &Address, list: Vec<AssetInfo>)
        requires
            old(self).wf(),
            list@.len() <= u32::MAX,
        ensures
            final(self).wf(),
            final(self)@ == (WalletView {
                assets: old(self)@.assets.insert(*user, list@),
                ..old(self)@
            }),
    {
        self.assets.insert(user.clone(), list);
        assert(self@.assets =~= old(self)@.assets.insert(*user, list@));
    }

    /// Stores the assets of `user` and keeps them alive.
    fn store_assets(&mut self, user: &Address)
        requires
            old(self).wf(),
        ensures
            final(self).wf(),
            final(self)@ == old(self)@.store_lasting(DataKey::UserAssets(*user)),
    {
        self.perform(Effect::Store(DataKey::UserAssets(user.clone())));
        self.perform(
            Effect::ExtendTtl {
                key: DataKey::UserAssets(user.clone()),
                threshold: PERSISTENT_TTL_THRESHOLD,
                extend_to: PERSISTENT_TTL_EXTEND_TO,
            },
        );
    }

    /// The assets that `user` has registered, first to last.
    pub fn get_assets(&self, user: Address) -> (assets: Vec<AssetInfo>)
        requires
            self.wf(),
        ensures
            assets@ == self@.assets_of(user),
            assets@.len() <= u32::MAX,
    {
        match self.assets.get(&user) {
            Some(list) => assets_copy(list),
            None => Vec::new(),
        }
    }

    /// Registers an asset. A user has at most [`MAX_ASSETS`], exactly the native
    /// asset has no issuer, and no code is registered twice.
    pub fn add_asset(&mut self, user: Address, asset: AssetInfo) -> (done: Result<(), WalletError>)
        requires
            old(self).wf(),
        ensures
            final(self).wf(),
            done == model::answer(old(self)@.add_asset_refusal(user, asset)),
            final(self)@ == (if done is Ok {
                old(self)@.asset_added(user, asset)
            } else {
                old(self)@.demand(user)
            }),
    {
        self.demand(&user);
        let mut list = self.get_assets(user.clone());
        if list.len() >= MAX_ASSETS as usize {
            return Err(WalletError::AssetLimitExceeded);
        }
        if !asset.is_consistent() {
            return Err(WalletError::InvalidAssetInfo);
        }
        if assets_have_code(&list, &asset.code) {
            return Err(WalletError::AssetAlreadyAdded);
        }
        let asset_code = asset.code.clone();
        list.push(asset);
        self.put_assets(&user, list);
        self.store_assets(&user);
        self.publish(Event::AssetAdded { user, asset_code });
        Ok(())
    }

    /// Takes an asset out of the user's registry.
    pub fn remove_asset(&mut self, user: Address, asset_code: soroban_sdk::String) -> (done: Result<
        (),
        WalletError,
    >)
        requires
            old(self).wf(),
        ensures
            final(self).wf(),
            done == model::answer(old(self)@.remove_asset_refusal(user, asset_code)),
            final(self)@ == (if done is Ok {
                old(self)@.asset_removed(user, asset_code)
            } else {
                old(self)@.demand(user)
            }),
    {
        self.demand(&user);
        let list = self.get_assets(user.clone());
        if !assets_have_code(&list, &asset_code) {
            return Err(WalletError::AssetNotFound);
        }
        let rest = assets_without_code(&list, &asset_code);
        proof {
            list@.lemma_filter_len(model::coded_other_than(asset_code));
        }
        self.put_assets(&user, rest);
        self.store_assets(&user);
        self.publish(Event::AssetRemoved { user, asset_code });
        Ok(())
    }

    /// Trims a user's registry to [`MAX_ASSETS`], keeping the assets that were
    /// registered first, and tells how many were dropped.
    pub fn migrate_user_assets(&mut self, admin: Address, user: Address) -> (done: Result<
        u32,
        WalletError,
    >)
        requires
            old(self).wf(),
        ensures
            final(self).wf(),
            done == (match old(self)@.admin_refusal(admin) {
                Some(error) => Err(error),
                None => Ok(old(self)@.excess_of(user) as u32),
            }),
            done is Ok ==> done->Ok_0 == old(self)@.excess_of(user),
            final(self)@ == (if done is Ok {
                old(self)@.assets_migrated(admin, user)
            } else {
                old(self)@.demand(admin)
            }),
    {
        self.demand(&admin);
        match self.require_admin(&admin) {
            Ok(()) => {},
            Err(error) => {
                return Err(error);
            },
        }
        let mut list = self.get_assets(user.clone());
        let len: u32 = list.len() as u32;
        if len <= MAX_ASSETS {
            return Ok(0);
        }
        list.truncate(MAX_ASSETS as usize);
        self.put_assets(&user, list);
        self.store_assets(&user);
        let removed: u32 = len - MAX_ASSETS;
        self.publish(Event::UserAssetsMigrated { user, removed });
        Ok(removed)
    }
}

// Spend limits.
impl GlobeWallet {
    /// What was spent on `day`, by the record of the last day.
    fn spent_on(&self, key: &AssetKey, day: u64) -> (amount: i128)
        requires
            self.wf(),
        ensures
            amount == self@.spent_on(key.user, key.code, day),
    {
        match self.spent.get(key) {
            Some(record) => if record.day == day {
                record.amount
            } else {
                0
            },
            None => 0,
        }
    }

    /// Sets the daily spend limit of an asset; 0 is no limit. A limit below what
    /// was already spent that day is refused.
    pub fn set_spend_limit(
        &mut self,
        ledger: Ledger,
        user: Address,
        asset_code: soroban_sdk::String,
        limit: i128,
    ) -> (done: Result<(), WalletError>)
        requires
            old(self).wf(),
        ensures
            final(self).wf(),
            done == model::answer(
                old(self)@.set_spend_limit_refusal(ledger, user, asset_code, limit),
            ),
            final(self)@ == (if done is Ok {
                old(self)@.spend_limit_set(user, asset_code, limit)
            } else {
                old(self)@.demand(user)
            }),
    {
        self.demand(&user);
        if limit < 0 {
            return Err(WalletError::InvalidSpendLimit);
        }
        let key = AssetKey { user: user.clone(), code: asset_code.clone() };
        if limit != 0 && self.spent_on(&key, ledger.timestamp / SECONDS_PER_DAY) > limit {
            return Err(WalletError::SpendLimitExceeded);
        }
        self.limits.insert(key, limit);
        self.perform(Effect::Store(DataKey::SpendLimit(user.clone(), asset_code.clone())));
        self.perform(
            Effect::ExtendTtl {
                key: DataKey::SpendLimit(user.clone(), asset_code.clone()),
                threshold: PERSISTENT_TTL_THRESHOLD,
                extend_to: PERSISTENT_TTL_EXTEND_TO,
            },
        );
        self.publish(Event::SpendLimitSet { user, asset_code, limit });
        Ok(())
    }

    /// The daily spend limit of an asset; 0 is no limit.
    pub fn get_spend_limit(&self, user: Address, asset_code: soroban_sdk::String) -> (limit: i128)
        requires
            self.wf(),
        ensures
            !self@.limits.contains_key((AssetKey { user, code: asset_code })) ==> limit == 0,
            limit == self@.limit_of(user, asset_code),
    {
        match self.limits.get(&AssetKey { user, code: asset_code }) {
            Some(limit) => *limit,
            None => 0,
        }
    }

    /// Counts a payment to the day's total, or refuses it if that would exceed
    /// the limit. Without a limit every payment is counted, so that a limit set
    /// later in the day knows of it. To be called from every payment path.
    pub fn record_spend(
        &mut self,
        ledger: Ledger,
        user: Address,
        asset_code: soroban_sdk::String,
        amount: i128,
    ) -> (done: Result<(), WalletError>)
        requires
            old(self).wf(),
        ensures
            final(self).wf(),
            !old(self)@.limits.contains_key((AssetKey { user, code: asset_code })) ==> done is Ok,
            done == model::answer(
                old(self)@.record_spend_refusal(ledger, user, asset_code, amount),
            ),
            final(self)@ == (if done is Ok {
                old(self)@.spend_recorded(ledger, user, asset_code, amount)
            } else {
                old(self)@.demand(user)
            }),
    {
        self.demand(&user);
        let limit: i128 = self.get_spend_limit(user.clone(), asset_code.clone());
        let day: u64 = ledger.timestamp / SECONDS_PER_DAY;
        let key = AssetKey { user: user.clone(), code: asset_code.clone() };
        let total: i128 = match self.spent_on(&key, day).checked_add(amount) {
            Some(total) => total,
            None => {
                if limit != 0 {
                    return Err(WalletError::SpendOverflow);
                }
                if amount > 0 {
                    i128::MAX
                } else {
                    i128::MIN
                }
            },
        };
        if limit != 0 && total > limit {
            return Err(WalletError::SpendLimitExceeded);
        }
        self.spent.insert(key, SpendRecord { amount: total, day });
        self.perform(Effect::Store(DataKey::DailySpent(user.clone(), asset_code.clone())));
        self.perform(
            Effect::ExtendTtl {
                key: DataKey::DailySpent(user.clone(), asset_code.clone()),
                threshold: DAILY_SPENT_TTL_THRESHOLD,
                extend_to: DAILY_SPENT_TTL_EXTEND_TO,
            },
        );
        self.publish(Event::SpendRecorded { user, asset_code, amount, total, limit });
        Ok(())
    }
}

/// The host vector with the items of `list`, in the host that `near` lives in.
fn host_list(near: &Address, list: &Vec<Address>) -> (made: soroban_sdk::Vec<Address>)
    requires
        list@.len() <= u32::MAX,
    ensures
        host::holds_addresses(made),
        host::addresses(made) == list@,
{
    let mut made = host::empty_list(near);
    let mut i: usize = 0;
    while i < list.len()
        invariant
            i <= list@.len() <= u32::MAX,
            host::holds_addresses(made),
            host::addresses(made) == list@.take(i as int),
        decreases list@.len() - i,
    {
        host::list_push(&mut made, &list[i]);
        assert(list@.take(i + 1) =~= list@.take(i as int).push(list@[i as int]));
        i = i + 1;
    }
    assert(list@.take(list@.len() as int) =~= list@);
    made
}

/// The host map with these entries, in the host that `near` lives in.
fn host_index(near: &Address, pairs: &Vec<(Address, bool)>) -> (made: soroban_sdk::Map<
    Address,
    bool,
>)
    ensures
        host::holds_flags(made),
        host::flags(made) == model::map_of(pairs@),
{
    let mut made = host::empty_index(near);
    let mut i: usize = 0;
    assert(host::flags(made) =~= model::map_of(pairs@.take(0)));
    while i < pairs.len()
        invariant
            i <= pairs@.len(),
            host::holds_flags(made),
            host::flags(made) == model::map_of(pairs@.take(i as int)),
        decreases pairs@.len() - i,
    {
        host::index_set(&mut made, &pairs[i].0, pairs[i].1);
        assert(pairs@.take(i + 1).drop_last() =~= pairs@.take(i as int));
        i = i + 1;
    }
    assert(pairs@.take(pairs@.len() as int) =~= pairs@);
    made
}

// Exchanging entries with the ledger.
impl GlobeWallet {
    /// Takes over an entry that was read from the ledger.
    pub fn restore(&mut self, entry: Entry)
        requires
            old(self).wf(),
            entry.countable(),
        ensures
            final(self).wf(),
            final(self)@ == old(self)@.with_entry(entry),
    {
        match entry {
            Entry::Admin(admin) => {
                self.admin = Some(admin);
            },
            Entry::PendingAdmin { current, candidate } => {
                self.pending_admins.insert(current, candidate);
            },
            Entry::PendingUpgrade(proposal) => {
                self.pending_upgrade = Some(proposal);
            },
            Entry::UserAssets { user, assets } => {
                self.put_assets(&user, assets);
            },
            Entry::SpendLimit { user, asset_code, limit } => {
                self.limits.insert(AssetKey { user, code: asset_code }, limit);
            },
            Entry::DailySpent { user, asset_code, record } => {
                self.spent.insert(AssetKey { user, code: asset_code }, record);
            },
            Entry::Guardians(guardians) => {
                self.guardians = host_list(&self.contract, &guardians);
            },
            Entry::RecoveryConfig(config) => {
                self.recovery_config = Some(config);
            },
            Entry::RecoveryProposal { new_admin, approvals, ready_at } => {
                let approvals = host_list(&self.contract, &approvals);
                self.recovery = Some(RecoveryProposal { new_admin, approvals, ready_at });
            },
            Entry::GuardianMembership(pairs) => {
                self.membership = Some(host_index(&self.contract, &pairs));
            },
        }
    }

    /// The candidate that the admin `current` has proposed.
    pub fn pending_admin(&self, current: &Address) -> (candidate: Option<Address>)
        requires
            self.wf(),
        ensures
            candidate == (if self@.pending_admins.contains_key(*current) {
                Some(self@.pending_admins[*current])
            } else {
                None
            }),
    {
        match self.pending_admins.get(current) {
            Some(candidate) => Some(candidate.clone()),
            None => None,
        }
    }

    /// The queued upgrade, if there is one.
    pub fn pending_upgrade(&self) -> (proposal: Option<&UpgradeProposal>)
        ensures
            proposal == (match self@.pending_upgrade {
                Some(proposal) => Some(&proposal),
                None => None,
            }),
    {
        self.pending_upgrade.as_ref()
    }

    /// The guardian index, if it is built.
    pub fn guardian_index(&self) -> (index: Option<&soroban_sdk::Map<Address, bool>>)
        requires
            self.wf(),
        ensures
            match index {
                Some(index) => self@.membership == Some(host::flags(*index)) && host::holds_flags(
                    *index,
                ),
                None => self@.membership is None,
            },
    {
        self.membership.as_ref()
    }

    /// What is on record as spent, and for which day.
    pub fn daily_spent(&self, user: Address, asset_code: soroban_sdk::String) -> (record: Option<
        SpendRecord,
    >)
        requires
            self.wf(),
        ensures
            record == (if self@.spent.contains_key(AssetKey { user, code: asset_code }) {
                Some(self@.spent[AssetKey { user, code: asset_code }])
            } else {
                None
            }),
    {
        match self.spent.get(&AssetKey { user, code: asset_code }) {
            Some(record) => Some(*record),
            None => None,
        }
    }
}

} // verus!
