//! What the wallet stores in the ledger, and under which keys.
use soroban_sdk::{Address, BytesN};
use vstd::prelude::*;
use vstd::string::StringSliceAdditionalSpecFns;

use crate::host;

verus! {

/// Seconds in one spending day.
pub const SECONDS_PER_DAY: u64 = 86_400;

/// Ledgers closed in a day, at five seconds each.
pub const LEDGERS_PER_DAY: u32 = 17_280;

/// A day's spend record is kept alive past the end of its day, so that it can
/// never be archived while it still counts.
pub const DAILY_SPENT_TTL_THRESHOLD: u32 = LEDGERS_PER_DAY;

pub const DAILY_SPENT_TTL_EXTEND_TO: u32 = LEDGERS_PER_DAY * 2;

/// Asset lists and spend limits have no natural end. Every write keeps them
/// alive for about a month.
pub const PERSISTENT_TTL_THRESHOLD: u32 = LEDGERS_PER_DAY * 7;

pub const PERSISTENT_TTL_EXTEND_TO: u32 = LEDGERS_PER_DAY * 30;

/// The ledger that a request is executed in.
#[derive(Clone, Copy, Debug, PartialEq, Eq, Structural)]
pub struct Ledger {
    /// Sequence number of the ledger.
    pub sequence: u32,
    /// Close time of the ledger, in seconds.
    pub timestamp: u64,
}

impl Ledger {
    /// The spending day: consecutive buckets of [`SECONDS_PER_DAY`] seconds.
    pub open spec fn day(self) -> u64 {
        self.timestamp / SECONDS_PER_DAY
    }

    /// The ledger `delay` ledgers from now, or the last one there can be.
    pub open spec fn after(self, delay: u32) -> u32 {
        if self.sequence + delay > u32::MAX {
            u32::MAX
        } else {
            (self.sequence + delay) as u32
        }
    }
}

/// The keys of the wallet's ledger entries.
#[derive(Debug, PartialEq)]
pub enum DataKey {
    Admin,
    /// The admin candidate proposed by this admin.
    PendingAdmin(Address),
    PendingUpgrade,
    /// The assets registered by a user.
    UserAssets(Address),
    /// The daily spend limit of a user for an asset code.
    SpendLimit(Address, soroban_sdk::String),
    /// What a user spent of an asset code, and on which day.
    DailySpent(Address, soroban_sdk::String),
    /// The guardians, in the order in which they were added.
    Guardians,
    RecoveryConfig,
    /// The single recovery in flight.
    RecoveryProposal,
    /// The guardians as an index, for lookups.
    GuardianMembership,
}

impl DataKey {
    /// Whether the entry has a lifetime of its own, apart from the contract's.
    pub open spec fn is_persistent(self) -> bool {
        self is UserAssets || self is SpendLimit || self is DailySpent
    }
}

#[derive(Debug, PartialEq)]
pub struct AssetInfo {
    /// Such as "XLM" or "USDC".
    pub code: soroban_sdk::String,
    /// Who issues the asset; nobody issues the native one.
    pub issuer: Option<Address>,
}

impl Clone for AssetInfo {
    fn clone(&self) -> (copy: Self)
        ensures
            copy == *self,
    {
        AssetInfo {
            code: self.code.clone(),
            issuer: match &self.issuer {
                Some(issuer) => Some(issuer.clone()),
                None => None,
            },
        }
    }
}

/// The code of the native asset, "XLM".
pub open spec fn native_code() -> Seq<u8> {
    seq![0x58u8, 0x4cu8, 0x4du8]
}

impl AssetInfo {
    pub open spec fn native(self) -> bool {
        host::bytes_of(self.code) == native_code()
    }

    /// Exactly the native asset goes without an issuer.
    pub open spec fn consistent(self) -> bool {
        self.native() == (self.issuer is None)
    }

    /// Whether exactly the native asset goes without an issuer.
    pub fn is_consistent(&self) -> (consistent: bool)
        ensures
            consistent == self.consistent(),
    {
        proof {
            reveal_strlit("XLM");
            vstd::string::is_ascii_spec_bytes("XLM");
            assert("XLM".spec_bytes() =~= native_code());
        }
        let native = host::same_text(&self.code, &host::host_text(&self.code, "XLM"));
        native == self.issuer.is_none()
    }
}

/// What was spent on one day.
#[derive(Clone, Copy, Debug, PartialEq, Eq, Structural)]
pub struct SpendRecord {
    pub amount: i128,
    /// The spending day.
    pub day: u64,
}

#[derive(Debug, PartialEq)]
pub struct UpgradeProposal {
    pub wasm_hash: BytesN<32>,
    pub proposed_by: Address,
    /// First ledger in which the upgrade can be executed.
    pub ready_at: u32,
}

#[derive(Clone, Copy, Debug, PartialEq, Eq, Structural)]
pub struct RecoveryConfig {
    /// Distinct guardian approvals that make a quorum.
    pub threshold: u32,
    /// Ledgers between reaching the quorum and the recovery becoming
    /// executable: the window in which the admin can still cancel.
    pub delay_in_ledgers: u32,
}

#[derive(Debug, PartialEq)]
pub struct RecoveryProposal {
    pub new_admin: Address,
    pub approvals: soroban_sdk::Vec<Address>,
    /// Set when the quorum is reached, cleared when an approval is revoked and
    /// the quorum is lost.
    pub ready_at: Option<u32>,
}

/// A recovery proposal, with its approvals as a sequence.
pub struct RecoveryView {
    pub new_admin: Address,
    pub approvals: Seq<Address>,
    pub ready_at: Option<u32>,
}

impl View for RecoveryProposal {
    type V = RecoveryView;

    open spec fn view(&self) -> RecoveryView {
        RecoveryView {
            new_admin: self.new_admin,
            approvals: host::addresses(self.approvals),
            ready_at: self.ready_at,
        }
    }
}

impl Clone for RecoveryProposal {
    fn clone(&self) -> (copy: Self)
        ensures
            copy == *self,
    {
        RecoveryProposal {
            new_admin: self.new_admin.clone(),
            approvals: self.approvals.clone(),
            ready_at: self.ready_at,
        }
    }
}

/// A ledger entry, as it is read back from the ledger.
#[derive(Debug, PartialEq)]
pub enum Entry {
    Admin(Address),
    PendingAdmin { current: Address, candidate: Address },
    PendingUpgrade(UpgradeProposal),
    UserAssets { user: Address, assets: Vec<AssetInfo> },
    SpendLimit { user: Address, asset_code: soroban_sdk::String, limit: i128 },
    DailySpent { user: Address, asset_code: soroban_sdk::String, record: SpendRecord },
    Guardians(Vec<Address>),
    RecoveryConfig(RecoveryConfig),
    RecoveryProposal { new_admin: Address, approvals: Vec<Address>, ready_at: Option<u32> },
    GuardianMembership(Vec<(Address, bool)>),
}

impl Entry {
    /// The ledger counts the items of a list in a `u32`.
    pub open spec fn countable(self) -> bool {
        match self {
            Entry::UserAssets { user, assets } => assets@.len() <= u32::MAX,
            Entry::Guardians(guardians) => guardians@.len() <= u32::MAX,
            Entry::RecoveryProposal { new_admin, approvals, ready_at } => approvals@.len()
                <= u32::MAX,
            _ => true,
        }
    }
}

} // verus!
