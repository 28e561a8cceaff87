//! What the contract has to do on the ledger when a request is served.
use soroban_sdk::{Address, BytesN};
use vstd::prelude::*;

use crate::types::DataKey;

verus! {

/// What is made known when the wallet changes.
#[derive(Debug, PartialEq)]
pub enum Event {
    Initialized { admin: Address },
    AdminProposed { current: Address, candidate: Address },
    AdminTransferred { old_admin: Address, new_admin: Address },
    AdminTransferCancelled { current: Address },
    UpgradeProposed { proposer: Address, wasm_hash: BytesN<32>, ready_at: u32 },
    UpgradeExecuted { executor: Address, wasm_hash: BytesN<32> },
    GuardianAdded { guardian: Address },
    GuardianRemoved { guardian: Address },
    RecoveryConfigSet { threshold: u32, delay_in_ledgers: u32 },
    RecoveryInitiated { guardian: Address, new_admin: Address },
    RecoveryQuorumReached { new_admin: Address, ready_at: u32 },
    RecoveryApproved { guardian: Address },
    RecoveryApprovalRevoked { guardian: Address },
    RecoveryCancelled { admin: Address },
    AssetAdded { user: Address, asset_code: soroban_sdk::String },
    AssetRemoved { user: Address, asset_code: soroban_sdk::String },
    SpendLimitSet { user: Address, asset_code: soroban_sdk::String, limit: i128 },
    SpendRecorded {
        user: Address,
        asset_code: soroban_sdk::String,
        amount: i128,
        total: i128,
        limit: i128,
    },
    UserAssetsMigrated { user: Address, removed: u32 },
}

impl Event {
    /// The topic under which the event is published.
    pub open spec fn topic_text(self) -> Seq<char> {
        match self {
            Event::Initialized { .. } => "initialized"@,
            Event::AdminProposed { .. } => "admin_proposed"@,
            Event::AdminTransferred { .. } => "admin_transferred"@,
            Event::AdminTransferCancelled { .. } => "admin_transfer_cancelled"@,
            Event::UpgradeProposed { .. } => "upgrade_proposed"@,
            Event::UpgradeExecuted { .. } => "upgrade_executed"@,
            Event::GuardianAdded { .. } => "guardian_added"@,
            Event::GuardianRemoved { .. } => "guardian_removed"@,
            Event::RecoveryConfigSet { .. } => "recovery_config_set"@,
            Event::RecoveryInitiated { .. } => "recovery_initiated"@,
            Event::RecoveryQuorumReached { .. } => "recovery_quorum_reached"@,
            Event::RecoveryApproved { .. } => "recovery_approved"@,
            Event::RecoveryApprovalRevoked { .. } => "recovery_approval_revoked"@,
            Event::RecoveryCancelled { .. } => "recovery_cancelled"@,
            Event::AssetAdded { .. } => "asset_added"@,
            Event::AssetRemoved { .. } => "asset_removed"@,
            Event::SpendLimitSet { .. } => "spend_limit_set"@,
            Event::SpendRecorded { .. } => "spend_recorded"@,
            Event::UserAssetsMigrated { .. } => "user_assets_migrated"@,
        }
    }

    /// The topic under which the event is published.
    pub fn topic(&self) -> (topic: &'static str)
        ensures
            topic@ == self.topic_text(),
    {
        match self {
            Event::Initialized { .. } => "initialized",
            Event::AdminProposed { .. } => "admin_proposed",
            Event::AdminTransferred { .. } => "admin_transferred",
            Event::AdminTransferCancelled { .. } => "admin_transfer_cancelled",
            Event::UpgradeProposed { .. } => "upgrade_proposed",
            Event::UpgradeExecuted { .. } => "upgrade_executed",
            Event::GuardianAdded { .. } => "guardian_added",
            Event::GuardianRemoved { .. } => "guardian_removed",
            Event::RecoveryConfigSet { .. } => "recovery_config_set",
            Event::RecoveryInitiated { .. } => "recovery_initiated",
            Event::RecoveryQuorumReached { .. } => "recovery_quorum_reached",
            Event::RecoveryApproved { .. } => "recovery_approved",
            Event::RecoveryApprovalRevoked { .. } => "recovery_approval_revoked",
            Event::RecoveryCancelled { .. } => "recovery_cancelled",
            Event::AssetAdded { .. } => "asset_added",
            Event::AssetRemoved { .. } => "asset_removed",
            Event::SpendLimitSet { .. } => "spend_limit_set",
            Event::SpendRecorded { .. } => "spend_recorded",
            Event::UserAssetsMigrated { .. } => "user_assets_migrated",
        }
    }
}

/// Whether the host takes `text` for a symbol: at most 32 letters, digits and
/// underscores.
pub open spec fn is_symbol(text: Seq<char>) -> bool {
    &&& text.len() <= 32
    &&& forall|i: int|
        0 <= i < text.len() ==> {
            ||| 'a' <= #[trigger] text[i] <= 'z'
            ||| 'A' <= text[i] <= 'Z'
            ||| '0' <= text[i] <= '9'
            ||| text[i] == '_'
        }
}

/// Every topic is a symbol, so every event can be published.
pub proof fn law_topics_are_symbols(event: Event)
    ensures
        is_symbol(event.topic_text()),
{
    reveal_strlit("initialized");
    reveal_strlit("admin_proposed");
    reveal_strlit("admin_transferred");
    reveal_strlit("admin_transfer_cancelled");
    reveal_strlit("upgrade_proposed");
    reveal_strlit("upgrade_executed");
    reveal_strlit("guardian_added");
    reveal_strlit("guardian_removed");
    reveal_strlit("recovery_config_set");
    reveal_strlit("recovery_initiated");
    reveal_strlit("recovery_quorum_reached");
    reveal_strlit("recovery_approved");
    reveal_strlit("recovery_approval_revoked");
    reveal_strlit("recovery_cancelled");
    reveal_strlit("asset_added");
    reveal_strlit("asset_removed");
    reveal_strlit("spend_limit_set");
    reveal_strlit("spend_recorded");
    reveal_strlit("user_assets_migrated");
}

/// One thing that the contract has to do on the ledger. Effects are carried out
/// in the order in which they come.
#[derive(Debug, PartialEq)]
pub enum Effect {
    /// Give up the whole request unless this address authorized it.
    RequireAuth(Address),
    /// Write the entry as the wallet now holds it.
    Store(DataKey),
    /// Delete the entry.
    Remove(DataKey),
    /// Keep the entry alive for `extend_to` ledgers if it has no more than
    /// `threshold` left.
    ExtendTtl { key: DataKey, threshold: u32, extend_to: u32 },
    /// Replace the contract's code.
    ReplaceWasm(BytesN<32>),
    /// Publish an event.
    Publish(Event),
}

} // verus!
