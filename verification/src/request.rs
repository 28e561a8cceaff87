//! All requests to the wallet, for statements about each of them and about
//! whole histories.
use soroban_sdk::{Address, BytesN};
use vstd::prelude::*;

use crate::effect::Event;
use crate::error::WalletError;
use crate::model::WalletView;
use crate::types::{AssetInfo, Ledger};

verus! {

/// A request to the wallet, with its arguments.
pub enum Request {
    Initialize { admin: Address },
    /// Also what [`crate::GlobeWallet::transfer_admin`] asks for.
    ProposeAdmin { current: Address, candidate: Address },
    AcceptAdmin { candidate: Address },
    CancelAdminTransfer { current: Address },
    ProposeUpgrade {
        ledger: Ledger,
        proposer: Address,
        wasm_hash: BytesN<32>,
        delay_in_ledgers: u32,
    },
    ExecuteUpgrade { ledger: Ledger, executor: Address, wasm_hash: BytesN<32> },
    AddGuardian { admin: Address, guardian: Address },
    RemoveGuardian { admin: Address, guardian: Address },
    SetRecoveryConfig { admin: Address, threshold: u32, delay_in_ledgers: u32 },
    InitiateRecovery { guardian: Address, new_admin: Address },
    ApproveRecovery { ledger: Ledger, guardian: Address },
    RevokeRecoveryApproval { guardian: Address },
    ExecuteRecovery { ledger: Ledger },
    CancelRecovery { admin: Address },
    AddAsset { user: Address, asset: AssetInfo },
    RemoveAsset { user: Address, asset_code: soroban_sdk::String },
    MigrateUserAssets { admin: Address, user: Address },
    SetSpendLimit {
        ledger: Ledger,
        user: Address,
        asset_code: soroban_sdk::String,
        limit: i128,
    },
    RecordSpend {
        ledger: Ledger,
        user: Address,
        asset_code: soroban_sdk::String,
        amount: i128,
    },
}

impl Request {
    /// Whose authorization the request needs, if anybody's.
    pub open spec fn signer(self) -> Option<Address> {
        match self {
            Request::Initialize { admin } => None,
            Request::ProposeAdmin { current, candidate } => Some(current),
            Request::AcceptAdmin { candidate } => Some(candidate),
            Request::CancelAdminTransfer { current } => Some(current),
            Request::ProposeUpgrade { ledger, proposer, wasm_hash, delay_in_ledgers } => Some(
                proposer,
            ),
            Request::ExecuteUpgrade { ledger, executor, wasm_hash } => Some(executor),
            Request::AddGuardian { admin, guardian } => Some(admin),
            Request::RemoveGuardian { admin, guardian } => Some(admin),
            Request::SetRecoveryConfig { admin, threshold, delay_in_ledgers } => Some(admin),
            Request::InitiateRecovery { guardian, new_admin } => Some(guardian),
            Request::ApproveRecovery { ledger, guardian } => Some(guardian),
            Request::RevokeRecoveryApproval { guardian } => Some(guardian),
            Request::ExecuteRecovery { ledger } => None,
            Request::CancelRecovery { admin } => Some(admin),
            Request::AddAsset { user, asset } => Some(user),
            Request::RemoveAsset { user, asset_code } => Some(user),
            Request::MigrateUserAssets { admin, user } => Some(admin),
            Request::SetSpendLimit { ledger, user, asset_code, limit } => Some(user),
            Request::RecordSpend { ledger, user, asset_code, amount } => Some(user),
        }
    }

    /// Whose assets the request is about.
    pub open spec fn asset_holder(self) -> Option<Address> {
        match self {
            Request::AddAsset { user, asset } => Some(user),
            Request::RemoveAsset { user, asset_code } => Some(user),
            Request::MigrateUserAssets { admin, user } => Some(user),
            _ => None,
        }
    }

    /// Whose spending of which asset the request is about.
    pub open spec fn spending(self) -> Option<(Address, soroban_sdk::String)> {
        match self {
            Request::SetSpendLimit { ledger, user, asset_code, limit } => Some((user, asset_code)),
            Request::RecordSpend { ledger, user, asset_code, amount } => Some((user, asset_code)),
            _ => None,
        }
    }

    /// Whether the request, if it depends on the day, is made on `day`.
    pub open spec fn made_on(self, day: u64) -> bool {
        match self {
            Request::SetSpendLimit { ledger, user, asset_code, limit } => ledger.day() == day,
            Request::RecordSpend { ledger, user, asset_code, amount } => ledger.day() == day,
            _ => true,
        }
    }
}

impl WalletView {
    /// Why the request is refused, if it is.
    pub open spec fn refusal(self, request: Request) -> Option<WalletError> {
        match request {
            Request::Initialize { admin } => self.initialize_refusal(),
            Request::ProposeAdmin { current, candidate } => self.admin_refusal(current),
            Request::AcceptAdmin { candidate } => self.accept_refusal(candidate),
            Request::CancelAdminTransfer { current } => self.admin_refusal(current),
            Request::ProposeUpgrade { ledger, proposer, wasm_hash, delay_in_ledgers } =>
                self.propose_upgrade_refusal(proposer),
            Request::ExecuteUpgrade { ledger, executor, wasm_hash } =>
                self.execute_upgrade_refusal(ledger, executor, wasm_hash),
            Request::AddGuardian { admin, guardian } => self.add_guardian_refusal(admin, guardian),
            Request::RemoveGuardian { admin, guardian } => self.remove_guardian_refusal(
                admin,
                guardian,
            ),
            Request::SetRecoveryConfig { admin, threshold, delay_in_ledgers } =>
                self.set_recovery_config_refusal(admin, threshold),
            Request::InitiateRecovery { guardian, new_admin } => self.initiate_refusal(guardian),
            Request::ApproveRecovery { ledger, guardian } => self.approve_refusal(guardian),
            Request::RevokeRecoveryApproval { guardian } => self.revoke_refusal(guardian),
            Request::ExecuteRecovery { ledger } => self.execute_recovery_refusal(ledger),
            Request::CancelRecovery { admin } => self.cancel_recovery_refusal(admin),
            Request::AddAsset { user, asset } => self.add_asset_refusal(user, asset),
            Request::RemoveAsset { user, asset_code } => self.remove_asset_refusal(
                user,
                asset_code,
            ),
            Request::MigrateUserAssets { admin, user } => self.admin_refusal(admin),
            Request::SetSpendLimit { ledger, user, asset_code, limit } =>
                self.set_spend_limit_refusal(ledger, user, asset_code, limit),
            Request::RecordSpend { ledger, user, asset_code, amount } =>
                self.record_spend_refusal(ledger, user, asset_code, amount),
        }
    }

    /// The wallet after the request was served.
    pub open spec fn served(self, request: Request) -> Self {
        match request {
            Request::Initialize { admin } => self.initialized(admin),
            Request::ProposeAdmin { current, candidate } => self.admin_proposed(
                current,
                candidate,
            ),
            Request::AcceptAdmin { candidate } => self.admin_accepted(candidate),
            Request::CancelAdminTransfer { current } => self.admin_transfer_cancelled(current),
            Request::ProposeUpgrade { ledger, proposer, wasm_hash, delay_in_ledgers } =>
                self.upgrade_proposed(ledger, proposer, wasm_hash, delay_in_ledgers),
            Request::ExecuteUpgrade { ledger, executor, wasm_hash } => self.upgrade_executed(
                executor,
                wasm_hash,
            ),
            Request::AddGuardian { admin, guardian } => self.guardian_added(admin, guardian),
            Request::RemoveGuardian { admin, guardian } => self.guardian_removed(admin, guardian),
            Request::SetRecoveryConfig { admin, threshold, delay_in_ledgers } =>
                self.recovery_configured(admin, threshold, delay_in_ledgers),
            Request::InitiateRecovery { guardian, new_admin } => self.recovery_initiated(
                guardian,
                new_admin,
            ),
            Request::ApproveRecovery { ledger, guardian } => self.recovery_approved(
                ledger,
                guardian,
            ),
            Request::RevokeRecoveryApproval { guardian } => self.approval_revoked(guardian),
            Request::ExecuteRecovery { ledger } => self.recovery_executed(),
            Request::CancelRecovery { admin } => self.recovery_cancelled(admin),
            Request::AddAsset { user, asset } => self.asset_added(user, asset),
            Request::RemoveAsset { user, asset_code } => self.asset_removed(user, asset_code),
            Request::MigrateUserAssets { admin, user } => self.assets_migrated(admin, user),
            Request::SetSpendLimit { ledger, user, asset_code, limit } => self.spend_limit_set(
                user,
                asset_code,
                limit,
            ),
            Request::RecordSpend { ledger, user, asset_code, amount } => self.spend_recorded(
                ledger,
                user,
                asset_code,
                amount,
            ),
        }
    }

    /// The wallet after the request was refused.
    pub open spec fn refused(self, request: Request) -> Self {
        match request {
            Request::Initialize { admin } => self,
            Request::ExecuteRecovery { ledger } => self,
            Request::AddGuardian { admin, guardian } => self.guardian_not_added(admin),
            Request::InitiateRecovery { guardian, new_admin } => self.demand(guardian).indexed(),
            Request::ApproveRecovery { ledger, guardian } => self.demand(guardian).indexed(),
            _ => self.demand(request.signer()->0),
        }
    }

    /// The wallet after the request.
    pub open spec fn step(self, request: Request) -> Self {
        if self.refusal(request) is None {
            self.served(request)
        } else {
            self.refused(request)
        }
    }

    /// The wallet after all of the requests, one after the other.
    pub open spec fn run(self, requests: Seq<Request>) -> Self
        decreases requests.len(),
    {
        if requests.len() == 0 {
            self
        } else {
            self.run(requests.drop_last()).step(requests.last())
        }
    }

    /// The event that makes the service of the request known.
    pub open spec fn announcement(self, request: Request) -> Event {
        match request {
            Request::Initialize { admin } => Event::Initialized { admin },
            Request::ProposeAdmin { current, candidate } => Event::AdminProposed {
                current,
                candidate,
            },
            Request::AcceptAdmin { candidate } => Event::AdminTransferred {
                old_admin: self.admin->0,
                new_admin: candidate,
            },
            Request::CancelAdminTransfer { current } => Event::AdminTransferCancelled { current },
            Request::ProposeUpgrade { ledger, proposer, wasm_hash, delay_in_ledgers } =>
                Event::UpgradeProposed {
                proposer,
                wasm_hash,
                ready_at: ledger.after(delay_in_ledgers),
            },
            Request::ExecuteUpgrade { ledger, executor, wasm_hash } => Event::UpgradeExecuted {
                executor,
                wasm_hash,
            },
            Request::AddGuardian { admin, guardian } => Event::GuardianAdded { guardian },
            Request::RemoveGuardian { admin, guardian } => Event::GuardianRemoved { guardian },
            Request::SetRecoveryConfig { admin, threshold, delay_in_ledgers } =>
                Event::RecoveryConfigSet { threshold, delay_in_ledgers },
            Request::InitiateRecovery { guardian, new_admin } => Event::RecoveryInitiated {
                guardian,
                new_admin,
            },
            Request::ApproveRecovery { ledger, guardian } => Event::RecoveryApproved { guardian },
            Request::RevokeRecoveryApproval { guardian } => Event::RecoveryApprovalRevoked {
                guardian,
            },
            Request::ExecuteRecovery { ledger } => Event::AdminTransferred {
                old_admin: self.admin->0,
                new_admin: self.recovery->0.new_admin,
            },
            Request::CancelRecovery { admin } => Event::RecoveryCancelled { admin },
            Request::AddAsset { user, asset } => Event::AssetAdded {
                user,
                asset_code: asset.code,
            },
            Request::RemoveAsset { user, asset_code } => Event::AssetRemoved { user, asset_code },
            Request::MigrateUserAssets { admin, user } => Event::UserAssetsMigrated {
                user,
                removed: self.excess_of(user) as u32,
            },
            Request::SetSpendLimit { ledger, user, asset_code, limit } => Event::SpendLimitSet {
                user,
                asset_code,
                limit,
            },
            Request::RecordSpend { ledger, user, asset_code, amount } => Event::SpendRecorded {
                user,
                asset_code,
                amount,
                total: self.counted(ledger, user, asset_code, amount),
                limit: self.limit_of(user, asset_code),
            },
        }
    }
}

} // verus!
