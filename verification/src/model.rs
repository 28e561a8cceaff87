//! The wallet as a mathematical object: its ledger entries, when a request is
//! refused, and what a request does to the entries when it is served.
use soroban_sdk::{Address, BytesN};
use vstd::prelude::*;

use crate::effect::{Effect, Event};
use crate::error::WalletError;
use crate::table::AssetKey;
use crate::types::{
    AssetInfo, DataKey, Entry, Ledger, RecoveryConfig, RecoveryView, SpendRecord, UpgradeProposal,
    DAILY_SPENT_TTL_EXTEND_TO, DAILY_SPENT_TTL_THRESHOLD, PERSISTENT_TTL_EXTEND_TO,
    PERSISTENT_TTL_THRESHOLD,
};

verus! {

/// Most assets that one user can register.
pub const MAX_ASSETS: u32 = 50;

/// Guardians that must be registered before a recovery can be configured. With
/// fewer, one or two people could seize the wallet.
pub const MIN_GUARDIANS_FOR_RECOVERY: u32 = 3;

/// The wallet's ledger entries, and what is still to be done on the ledger.
#[verifier::ext_equal]
pub struct WalletView {
    pub admin: Option<Address>,
    /// The candidate that each admin has proposed.
    pub pending_admins: Map<Address, Address>,
    pub pending_upgrade: Option<UpgradeProposal>,
    pub guardians: Seq<Address>,
    /// The guardians as an index; a wallet may not have one yet.
    pub membership: Option<Map<Address, bool>>,
    pub recovery_config: Option<RecoveryConfig>,
    pub recovery: Option<RecoveryView>,
    pub assets: Map<Address, Seq<AssetInfo>>,
    pub limits: Map<AssetKey, i128>,
    pub spent: Map<AssetKey, SpendRecord>,
    /// What is still to be done, first to last.
    pub effects: Seq<Effect>,
}

/// What a request is answered, given why it is refused, if it is.
pub open spec fn answer(refusal: Option<WalletError>) -> Result<(), WalletError> {
    match refusal {
        Some(error) => Err(error),
        None => Ok(()),
    }
}

/// The first of two reasons.
pub open spec fn first_of(
    first: Option<WalletError>,
    second: Option<WalletError>,
) -> Option<WalletError> {
    if first is Some {
        first
    } else {
        second
    }
}

/// Any address but `item`.
pub open spec fn other_than(item: Address) -> spec_fn(Address) -> bool {
    |a: Address| a != item
}

/// `list` without `item`.
pub open spec fn without(list: Seq<Address>, item: Address) -> Seq<Address> {
    list.filter(other_than(item))
}

/// Any asset but one with this code.
pub open spec fn coded_other_than(code: soroban_sdk::String) -> spec_fn(AssetInfo) -> bool {
    |a: AssetInfo| a.code != code
}

/// The assets of `list` that have another code.
pub open spec fn without_code(list: Seq<AssetInfo>, code: soroban_sdk::String) -> Seq<AssetInfo> {
    list.filter(coded_other_than(code))
}

/// Whether an asset of `list` has this code.
pub open spec fn has_code(list: Seq<AssetInfo>, code: soroban_sdk::String) -> bool {
    exists|i: int| 0 <= i < list.len() && (#[trigger] list[i]).code == code
}

/// The index of a list of guardians.
pub open spec fn index_of(guardians: Seq<Address>) -> Map<Address, bool> {
    Map::new(|a: Address| guardians.contains(a), |a: Address| true)
}

/// One more guardian is one more entry of the index.
pub proof fn lemma_index_of_push(guardians: Seq<Address>, guardian: Address)
    ensures
        index_of(guardians.push(guardian)) == index_of(guardians).insert(guardian, true),
{
    let more = guardians.push(guardian);
    assert forall|a: Address| #[trigger]
        more.contains(a) <==> (a == guardian || guardians.contains(a)) by {
        assert(more[guardians.len() as int] == guardian);
        if guardians.contains(a) {
            assert(more[guardians.index_of(a)] == a);
        }
    }
    assert(index_of(more) =~= index_of(guardians).insert(guardian, true));
}

// Reading the entries.
impl WalletView {
    /// A wallet without any entry.
    pub open spec fn blank() -> Self {
        WalletView {
            admin: None,
            pending_admins: Map::empty(),
            pending_upgrade: None,
            guardians: Seq::empty(),
            membership: None,
            recovery_config: None,
            recovery: None,
            assets: Map::empty(),
            limits: Map::empty(),
            spent: Map::empty(),
            effects: Seq::empty(),
        }
    }

    /// The guardian index, as it is or as it would be built.
    pub open spec fn index(self) -> Map<Address, bool> {
        match self.membership {
            Some(index) => index,
            None => index_of(self.guardians),
        }
    }

    pub open spec fn is_guardian(self, who: Address) -> bool {
        self.index().contains_key(who) && self.index()[who]
    }

    pub open spec fn assets_of(self, user: Address) -> Seq<AssetInfo> {
        if self.assets.contains_key(user) {
            self.assets[user]
        } else {
            Seq::empty()
        }
    }

    /// The daily limit; 0 is no limit.
    pub open spec fn limit_of(self, user: Address, code: soroban_sdk::String) -> i128 {
        let key = AssetKey { user, code };
        if self.limits.contains_key(key) {
            self.limits[key]
        } else {
            0
        }
    }

    /// What was spent on `day`. Only the last day is on record.
    pub open spec fn spent_on(self, user: Address, code: soroban_sdk::String, day: u64) -> i128 {
        let key = AssetKey { user, code };
        if self.spent.contains_key(key) && self.spent[key].day == day {
            self.spent[key].amount
        } else {
            0
        }
    }

    /// Whether both have the same ledger entries, be it that only one of them
    /// has the guardian index built.
    pub open spec fn same_entries(self, other: Self) -> bool {
        &&& self.admin == other.admin
        &&& self.pending_admins == other.pending_admins
        &&& self.pending_upgrade == other.pending_upgrade
        &&& self.guardians == other.guardians
        &&& self.index() == other.index()
        &&& self.recovery_config == other.recovery_config
        &&& self.recovery == other.recovery
        &&& self.assets == other.assets
        &&& self.limits == other.limits
        &&& self.spent == other.spent
    }
}

/// The map with these entries; of two entries for one key the later counts.
pub open spec fn map_of(pairs: Seq<(Address, bool)>) -> Map<Address, bool>
    decreases pairs.len(),
{
    if pairs.len() == 0 {
        Map::empty()
    } else {
        map_of(pairs.drop_last()).insert(pairs.last().0, pairs.last().1)
    }
}

// Entries read back from the ledger.
impl WalletView {
    pub open spec fn with_entry(self, entry: Entry) -> Self {
        match entry {
            Entry::Admin(admin) => WalletView { admin: Some(admin), ..self },
            Entry::PendingAdmin { current, candidate } => WalletView {
                pending_admins: self.pending_admins.insert(current, candidate),
                ..self
            },
            Entry::PendingUpgrade(proposal) => WalletView {
                pending_upgrade: Some(proposal),
                ..self
            },
            Entry::UserAssets { user, assets } => WalletView {
                assets: self.assets.insert(user, assets@),
                ..self
            },
            Entry::SpendLimit { user, asset_code, limit } => WalletView {
                limits: self.limits.insert(AssetKey { user, code: asset_code }, limit),
                ..self
            },
            Entry::DailySpent { user, asset_code, record } => WalletView {
                spent: self.spent.insert(AssetKey { user, code: asset_code }, record),
                ..self
            },
            Entry::Guardians(guardians) => WalletView { guardians: guardians@, ..self },
            Entry::RecoveryConfig(config) => WalletView { recovery_config: Some(config), ..self },
            Entry::RecoveryProposal { new_admin, approvals, ready_at } => WalletView {
                recovery: Some(RecoveryView { new_admin, approvals: approvals@, ready_at }),
                ..self
            },
            Entry::GuardianMembership(pairs) => WalletView {
                membership: Some(map_of(pairs@)),
                ..self
            },
        }
    }
}

// Recording what is to be done.
impl WalletView {
    pub open spec fn perform(self, effect: Effect) -> Self {
        WalletView { effects: self.effects.push(effect), ..self }
    }

    pub open spec fn publish(self, event: Event) -> Self {
        self.perform(Effect::Publish(event))
    }

    /// The request needs the authorization of `who`.
    pub open spec fn demand(self, who: Address) -> Self {
        self.perform(Effect::RequireAuth(who))
    }

    /// The guardian index is built and stored, if there is none yet.
    pub open spec fn indexed(self) -> Self {
        if self.membership is Some {
            self
        } else {
            WalletView { membership: Some(self.index()), ..self }.perform(
                Effect::Store(DataKey::GuardianMembership),
            )
        }
    }

    /// An asset list or a spend limit is stored and kept alive.
    pub open spec fn store_lasting(self, key: DataKey) -> Self {
        self.perform(Effect::Store(key)).perform(
            Effect::ExtendTtl {
                key,
                threshold: PERSISTENT_TTL_THRESHOLD,
                extend_to: PERSISTENT_TTL_EXTEND_TO,
            },
        )
    }
}

// Who is the admin.
impl WalletView {
    pub open spec fn initialize_refusal(self) -> Option<WalletError> {
        if self.admin is Some {
            Some(WalletError::AlreadyInitialized)
        } else {
            None
        }
    }

    pub open spec fn initialized(self, admin: Address) -> Self {
        WalletView { admin: Some(admin), ..self }.perform(Effect::Store(DataKey::Admin)).publish(
            Event::Initialized { admin },
        )
    }

    /// Why `caller` may not act as the admin.
    pub open spec fn admin_refusal(self, caller: Address) -> Option<WalletError> {
        match self.admin {
            None => Some(WalletError::NotInitialized),
            Some(admin) => if admin != caller {
                Some(WalletError::Unauthorized)
            } else {
                None
            },
        }
    }

    pub open spec fn admin_proposed(self, current: Address, candidate: Address) -> Self {
        WalletView { pending_admins: self.pending_admins.insert(current, candidate), ..self }
            .demand(current)
            .perform(Effect::Store(DataKey::PendingAdmin(current)))
            .publish(Event::AdminProposed { current, candidate })
    }

    pub open spec fn accept_refusal(self, candidate: Address) -> Option<WalletError> {
        match self.admin {
            None => Some(WalletError::NotInitialized),
            Some(admin) => if !self.pending_admins.contains_key(admin) {
                Some(WalletError::NoPendingAdmin)
            } else if self.pending_admins[admin] != candidate {
                Some(WalletError::Unauthorized)
            } else {
                None
            },
        }
    }

    pub open spec fn admin_accepted(self, candidate: Address) -> Self {
        let old_admin = self.admin->0;
        WalletView {
            admin: Some(candidate),
            pending_admins: self.pending_admins.remove(old_admin),
            ..self
        }
            .demand(candidate)
            .perform(Effect::Store(DataKey::Admin))
            .perform(Effect::Remove(DataKey::PendingAdmin(old_admin)))
            .publish(Event::AdminTransferred { old_admin, new_admin: candidate })
    }

    pub open spec fn admin_transfer_cancelled(self, current: Address) -> Self {
        WalletView { pending_admins: self.pending_admins.remove(current), ..self }
            .demand(current)
            .perform(Effect::Remove(DataKey::PendingAdmin(current)))
            .publish(Event::AdminTransferCancelled { current })
    }
}

// Upgrades of the contract's code.
impl WalletView {
    pub open spec fn propose_upgrade_refusal(self, proposer: Address) -> Option<WalletError> {
        first_of(
            self.admin_refusal(proposer),
            if self.pending_upgrade is Some {
                Some(WalletError::UpgradeAlreadyPending)
            } else {
                None
            },
        )
    }

    pub open spec fn upgrade_proposed(
        self,
        ledger: Ledger,
        proposer: Address,
        wasm_hash: BytesN<32>,
        delay_in_ledgers: u32,
    ) -> Self {
        let ready_at = ledger.after(delay_in_ledgers);
        let proposal = UpgradeProposal { wasm_hash, proposed_by: proposer, ready_at };
        WalletView { pending_upgrade: Some(proposal), ..self }
            .demand(proposer)
            .perform(Effect::Store(DataKey::PendingUpgrade))
            .publish(Event::UpgradeProposed { proposer, wasm_hash, ready_at })
    }

    pub open spec fn execute_upgrade_refusal(
        self,
        ledger: Ledger,
        executor: Address,
        wasm_hash: BytesN<32>,
    ) -> Option<WalletError> {
        first_of(
            self.admin_refusal(executor),
            match self.pending_upgrade {
                None => Some(WalletError::UpgradeNotPending),
                Some(proposal) => if proposal.wasm_hash != wasm_hash {
                    Some(WalletError::UpgradeHashMismatch)
                } else if ledger.sequence < proposal.ready_at {
                    Some(WalletError::UpgradeNotReady)
                } else {
                    None
                },
            },
        )
    }

    pub open spec fn upgrade_executed(self, executor: Address, wasm_hash: BytesN<32>) -> Self {
        WalletView { pending_upgrade: None, ..self }
            .demand(executor)
            .perform(Effect::ReplaceWasm(wasm_hash))
            .perform(Effect::Remove(DataKey::PendingUpgrade))
            .publish(Event::UpgradeExecuted { executor, wasm_hash })
    }
}

// Guardians.
impl WalletView {
    pub open spec fn add_guardian_refusal(
        self,
        admin: Address,
        guardian: Address,
    ) -> Option<WalletError> {
        first_of(
            self.admin_refusal(admin),
            if self.is_guardian(guardian) {
                Some(WalletError::GuardianAlreadyAdded)
            } else {
                None
            },
        )
    }

    pub open spec fn guardian_added(self, admin: Address, guardian: Address) -> Self {
        let ready = self.demand(admin).indexed();
        WalletView {
            guardians: self.guardians.push(guardian),
            membership: Some(self.index().insert(guardian, true)),
            ..ready
        }
            .perform(Effect::Store(DataKey::Guardians))
            .perform(Effect::Store(DataKey::GuardianMembership))
            .publish(Event::GuardianAdded { guardian })
    }

    /// A refused admin gets nothing done; otherwise the index has been needed.
    pub open spec fn guardian_not_added(self, admin: Address) -> Self {
        if self.admin_refusal(admin) is Some {
            self.demand(admin)
        } else {
            self.demand(admin).indexed()
        }
    }

    pub open spec fn remove_guardian_refusal(
        self,
        admin: Address,
        guardian: Address,
    ) -> Option<WalletError> {
        first_of(
            self.admin_refusal(admin),
            if !self.guardians.contains(guardian) {
                Some(WalletError::GuardianNotFound)
            } else if self.recovery_config is Some && without(self.guardians, guardian).len()
                < self.recovery_config->0.threshold {
                Some(WalletError::NotEnoughGuardians)
            } else {
                None
            },
        )
    }

    /// An index that is not there yet is built from the guardians that remain.
    pub open spec fn guardian_removed(self, admin: Address, guardian: Address) -> Self {
        let ready = WalletView { guardians: without(self.guardians, guardian), ..self }
            .demand(admin)
            .perform(Effect::Store(DataKey::Guardians))
            .indexed();
        WalletView { membership: Some(ready.index().remove(guardian)), ..ready }
            .perform(Effect::Store(DataKey::GuardianMembership))
            .publish(Event::GuardianRemoved { guardian })
    }
}

// Recovery of the admin role by the guardians.
impl WalletView {
    pub open spec fn set_recovery_config_refusal(
        self,
        admin: Address,
        threshold: u32,
    ) -> Option<WalletError> {
        first_of(
            self.admin_refusal(admin),
            if threshold <= 1 {
                Some(WalletError::InvalidRecoveryThreshold)
            } else if self.guardians.len() < MIN_GUARDIANS_FOR_RECOVERY || threshold
                > self.guardians.len() {
                Some(WalletError::NotEnoughGuardians)
            } else {
                None
            },
        )
    }

    pub open spec fn recovery_configured(
        self,
        admin: Address,
        threshold: u32,
        delay_in_ledgers: u32,
    ) -> Self {
        WalletView { recovery_config: Some(RecoveryConfig { threshold, delay_in_ledgers }), ..self }
            .demand(admin)
            .perform(Effect::Store(DataKey::RecoveryConfig))
            .publish(Event::RecoveryConfigSet { threshold, delay_in_ledgers })
    }

    /// Why `caller` may not act as a guardian.
    pub open spec fn guardian_refusal(self, caller: Address) -> Option<WalletError> {
        if self.is_guardian(caller) {
            None
        } else {
            Some(WalletError::Unauthorized)
        }
    }

    pub open spec fn config_refusal(self) -> Option<WalletError> {
        if self.recovery_config is Some {
            None
        } else {
            Some(WalletError::RecoveryNotConfigured)
        }
    }

    pub open spec fn pending_refusal(self) -> Option<WalletError> {
        if self.recovery is Some {
            None
        } else {
            Some(WalletError::NoPendingRecovery)
        }
    }

    pub open spec fn initiate_refusal(self, guardian: Address) -> Option<WalletError> {
        first_of(
            first_of(self.guardian_refusal(guardian), self.config_refusal()),
            if self.recovery is Some {
                Some(WalletError::RecoveryAlreadyPending)
            } else {
                None
            },
        )
    }

    /// The initiator approves; the timelock does not run yet.
    pub open spec fn recovery_initiated(self, guardian: Address, new_admin: Address) -> Self {
        let proposal = RecoveryView { new_admin, approvals: seq![guardian], ready_at: None };
        WalletView { recovery: Some(proposal), ..self.demand(guardian).indexed() }
            .perform(Effect::Store(DataKey::RecoveryProposal))
            .publish(Event::RecoveryInitiated { guardian, new_admin })
    }

    pub open spec fn approve_refusal(self, guardian: Address) -> Option<WalletError> {
        first_of(
            first_of(
                first_of(self.guardian_refusal(guardian), self.config_refusal()),
                self.pending_refusal(),
            ),
            if self.recovery->0.approvals.contains(guardian) {
                Some(WalletError::AlreadyApproved)
            } else {
                None
            },
        )
    }

    /// Whether one more approval starts the timelock.
    pub open spec fn approval_arms(self) -> bool {
        self.recovery->0.ready_at is None && self.recovery->0.approvals.len() + 1
            >= self.recovery_config->0.threshold
    }

    pub open spec fn recovery_approved(self, ledger: Ledger, guardian: Address) -> Self {
        let proposal = self.recovery->0;
        let approvals = proposal.approvals.push(guardian);
        let ready = self.demand(guardian).indexed();
        let counted = if self.approval_arms() {
            let ready_at = ledger.after(self.recovery_config->0.delay_in_ledgers);
            WalletView {
                recovery: Some(RecoveryView { approvals, ready_at: Some(ready_at), ..proposal }),
                ..ready
            }.publish(Event::RecoveryQuorumReached { new_admin: proposal.new_admin, ready_at })
        } else {
            WalletView { recovery: Some(RecoveryView { approvals, ..proposal }), ..ready }
        };
        counted.perform(Effect::Store(DataKey::RecoveryProposal)).publish(
            Event::RecoveryApproved { guardian },
        )
    }

    pub open spec fn revoke_refusal(self, guardian: Address) -> Option<WalletError> {
        first_of(
            first_of(self.config_refusal(), self.pending_refusal()),
            if !self.recovery->0.approvals.contains(guardian) {
                Some(WalletError::ApprovalNotFound)
            } else {
                None
            },
        )
    }

    /// The timelock runs on only while there is a quorum.
    pub open spec fn approval_revoked(self, guardian: Address) -> Self {
        let proposal = self.recovery->0;
        let approvals = without(proposal.approvals, guardian);
        let ready_at = if approvals.len() < self.recovery_config->0.threshold {
            None
        } else {
            proposal.ready_at
        };
        WalletView { recovery: Some(RecoveryView { approvals, ready_at, ..proposal }), ..self }
            .demand(guardian)
            .perform(Effect::Store(DataKey::RecoveryProposal))
            .publish(Event::RecoveryApprovalRevoked { guardian })
    }

    pub open spec fn execute_recovery_refusal(self, ledger: Ledger) -> Option<WalletError> {
        first_of(
            first_of(self.config_refusal(), self.pending_refusal()),
            if self.recovery->0.approvals.len() < self.recovery_config->0.threshold
                || self.recovery->0.ready_at is None {
                Some(WalletError::RecoveryNotQuorate)
            } else if ledger.sequence < self.recovery->0.ready_at->0 {
                Some(WalletError::RecoveryNotReady)
            } else if self.admin is None {
                Some(WalletError::NotInitialized)
            } else {
                None
            },
        )
    }

    /// Nobody's authorization is needed: the approvals are the authorization.
    pub open spec fn recovery_executed(self) -> Self {
        let old_admin = self.admin->0;
        let new_admin = self.recovery->0.new_admin;
        WalletView {
            admin: Some(new_admin),
            pending_admins: self.pending_admins.remove(old_admin),
            recovery: None,
            ..self
        }
            .perform(Effect::Remove(DataKey::PendingAdmin(old_admin)))
            .perform(Effect::Store(DataKey::Admin))
            .perform(Effect::Remove(DataKey::RecoveryProposal))
            .publish(Event::AdminTransferred { old_admin, new_admin })
    }

    pub open spec fn cancel_recovery_refusal(self, admin: Address) -> Option<WalletError> {
        first_of(self.admin_refusal(admin), self.pending_refusal())
    }

    pub open spec fn recovery_cancelled(self, admin: Address) -> Self {
        WalletView { recovery: None, ..self }
            .demand(admin)
            .perform(Effect::Remove(DataKey::RecoveryProposal))
            .publish(Event::RecoveryCancelled { admin })
    }
}

// Assets.
impl WalletView {
    pub open spec fn add_asset_refusal(
        self,
        user: Address,
        asset: AssetInfo,
    ) -> Option<WalletError> {
        if self.assets_of(user).len() >= MAX_ASSETS {
            Some(WalletError::AssetLimitExceeded)
        } else if !asset.consistent() {
            Some(WalletError::InvalidAssetInfo)
        } else if has_code(self.assets_of(user), asset.code) {
            Some(WalletError::AssetAlreadyAdded)
        } else {
            None
        }
    }

    pub open spec fn asset_added(self, user: Address, asset: AssetInfo) -> Self {
        WalletView { assets: self.assets.insert(user, self.assets_of(user).push(asset)), ..self }
            .demand(user)
            .store_lasting(DataKey::UserAssets(user))
            .publish(Event::AssetAdded { user, asset_code: asset.code })
    }

    pub open spec fn remove_asset_refusal(
        self,
        user: Address,
        code: soroban_sdk::String,
    ) -> Option<WalletError> {
        if has_code(self.assets_of(user), code) {
            None
        } else {
            Some(WalletError::AssetNotFound)
        }
    }

    pub open spec fn asset_removed(self, user: Address, code: soroban_sdk::String) -> Self {
        WalletView {
            assets: self.assets.insert(user, without_code(self.assets_of(user), code)),
            ..self
        }
            .demand(user)
            .store_lasting(DataKey::UserAssets(user))
            .publish(Event::AssetRemoved { user, asset_code: code })
    }

    /// How many assets a user has beyond the bound.
    pub open spec fn excess_of(self, user: Address) -> nat {
        if self.assets_of(user).len() <= MAX_ASSETS {
            0
        } else {
            (self.assets_of(user).len() - MAX_ASSETS) as nat
        }
    }

    pub open spec fn assets_migrated(self, admin: Address, user: Address) -> Self {
        if self.excess_of(user) == 0 {
            self.demand(admin)
        } else {
            WalletView {
                assets: self.assets.insert(user, self.assets_of(user).take(MAX_ASSETS as int)),
                ..self
            }
                .demand(admin)
                .store_lasting(DataKey::UserAssets(user))
                .publish(Event::UserAssetsMigrated { user, removed: self.excess_of(user) as u32 })
        }
    }
}

// Spend limits.
impl WalletView {
    pub open spec fn set_spend_limit_refusal(
        self,
        ledger: Ledger,
        user: Address,
        code: soroban_sdk::String,
        limit: i128,
    ) -> Option<WalletError> {
        if limit < 0 {
            Some(WalletError::InvalidSpendLimit)
        } else if limit != 0 && self.spent_on(user, code, ledger.day()) > limit {
            Some(WalletError::SpendLimitExceeded)
        } else {
            None
        }
    }

    pub open spec fn spend_limit_set(
        self,
        user: Address,
        code: soroban_sdk::String,
        limit: i128,
    ) -> Self {
        WalletView { limits: self.limits.insert(AssetKey { user, code }, limit), ..self }
            .demand(user)
            .store_lasting(DataKey::SpendLimit(user, code))
            .publish(Event::SpendLimitSet { user, asset_code: code, limit })
    }

    /// The day's total, with a further `amount`.
    pub open spec fn total_with(
        self,
        ledger: Ledger,
        user: Address,
        code: soroban_sdk::String,
        amount: i128,
    ) -> int {
        self.spent_on(user, code, ledger.day()) + amount
    }

    pub open spec fn record_spend_refusal(
        self,
        ledger: Ledger,
        user: Address,
        code: soroban_sdk::String,
        amount: i128,
    ) -> Option<WalletError> {
        let total = self.total_with(ledger, user, code, amount);
        if self.limit_of(user, code) == 0 {
            None
        } else if !(i128::MIN <= total <= i128::MAX) {
            Some(WalletError::SpendOverflow)
        } else if total > self.limit_of(user, code) {
            Some(WalletError::SpendLimitExceeded)
        } else {
            None
        }
    }

    /// What is put on record for the day. A total that no limit keeps within an
    /// `i128` stays at its end.
    pub open spec fn counted(
        self,
        ledger: Ledger,
        user: Address,
        code: soroban_sdk::String,
        amount: i128,
    ) -> i128 {
        let total = self.total_with(ledger, user, code, amount);
        if total > i128::MAX {
            i128::MAX
        } else if total < i128::MIN {
            i128::MIN
        } else {
            total as i128
        }
    }

    pub open spec fn spend_recorded(
        self,
        ledger: Ledger,
        user: Address,
        code: soroban_sdk::String,
        amount: i128,
    ) -> Self {
        let limit = self.limit_of(user, code);
        let total = self.counted(ledger, user, code, amount);
        let record = SpendRecord { amount: total, day: ledger.day() };
        WalletView { spent: self.spent.insert(AssetKey { user, code }, record), ..self }
            .demand(user)
            .perform(Effect::Store(DataKey::DailySpent(user, code)))
            .perform(
            Effect::ExtendTtl {
                key: DataKey::DailySpent(user, code),
                threshold: DAILY_SPENT_TTL_THRESHOLD,
                extend_to: DAILY_SPENT_TTL_EXTEND_TO,
            },
        ).publish(Event::SpendRecorded { user, asset_code: code, amount, total, limit })
    }
}

} // verus!
