//! Why the wallet refuses a request.
use vstd::prelude::*;

verus! {

#[derive(Copy, Clone, Debug, PartialEq, Eq, Structural)]
pub enum WalletError {
    AlreadyInitialized,
    NotInitialized,
    Unauthorized,
    /// An asset with this code is already registered.
    AssetAlreadyAdded,
    /// No asset with this code is registered.
    AssetNotFound,
    /// The spend limit is negative.
    InvalidSpendLimit,
    /// The payment, or the day's payments so far, exceed the daily spend limit.
    SpendLimitExceeded,
    NoAssetsProvided,
    NoPendingAdmin,
    /// Under a limit, the day's total would not fit in an `i128`.
    SpendOverflow,
    /// The user's registry is full.
    AssetLimitExceeded,
    MaxAssetsReached,
    UpgradeAlreadyPending,
    UpgradeNotPending,
    UpgradeHashMismatch,
    UpgradeNotReady,
    UpgradeFailed,
    GuardianAlreadyAdded,
    /// The address is not a registered guardian.
    GuardianNotFound,
    /// The recovery threshold lets a single guardian recover the admin role.
    InvalidRecoveryThreshold,
    /// Fewer guardians than the recovery needs.
    NotEnoughGuardians,
    /// No recovery threshold and delay are configured yet.
    RecoveryNotConfigured,
    /// A recovery is already in flight: cancel or execute it first.
    RecoveryAlreadyPending,
    NoPendingRecovery,
    /// The guardian has already approved the pending recovery.
    AlreadyApproved,
    /// The guardian has not approved the pending recovery.
    ApprovalNotFound,
    /// The quorum is reached, but the timelock has not elapsed.
    RecoveryNotReady,
    /// The approvals are below the threshold, or no timelock is running.
    RecoveryNotQuorate,
    /// Asset code and issuer contradict each other.
    InvalidAssetInfo,
}

impl WalletError {
    /// The number under which the contract reports the error.
    pub open spec fn number(self) -> u32 {
        match self {
            WalletError::AlreadyInitialized => 1001,
            WalletError::NotInitialized => 1002,
            WalletError::Unauthorized => 1003,
            WalletError::AssetAlreadyAdded => 1004,
            WalletError::AssetNotFound => 1005,
            WalletError::InvalidSpendLimit => 1006,
            WalletError::SpendLimitExceeded => 1007,
            WalletError::NoAssetsProvided => 1008,
            WalletError::NoPendingAdmin => 9,
            WalletError::SpendOverflow => 10,
            WalletError::AssetLimitExceeded => 11,
            WalletError::MaxAssetsReached => 12,
            WalletError::UpgradeAlreadyPending => 13,
            WalletError::UpgradeNotPending => 14,
            WalletError::UpgradeHashMismatch => 15,
            WalletError::UpgradeNotReady => 16,
            WalletError::UpgradeFailed => 17,
            WalletError::GuardianAlreadyAdded => 18,
            WalletError::GuardianNotFound => 19,
            WalletError::InvalidRecoveryThreshold => 20,
            WalletError::NotEnoughGuardians => 21,
            WalletError::RecoveryNotConfigured => 22,
            WalletError::RecoveryAlreadyPending => 23,
            WalletError::NoPendingRecovery => 24,
            WalletError::AlreadyApproved => 25,
            WalletError::ApprovalNotFound => 26,
            WalletError::RecoveryNotReady => 27,
            WalletError::RecoveryNotQuorate => 28,
            WalletError::InvalidAssetInfo => 29,
        }
    }

    /// The number under which the contract reports the error.
    pub fn code(self) -> (code: u32)
        ensures
            code == self.number(),
    {
        match self {
            WalletError::AlreadyInitialized => 1001,
            WalletError::NotInitialized => 1002,
            WalletError::Unauthorized => 1003,
            WalletError::AssetAlreadyAdded => 1004,
            WalletError::AssetNotFound => 1005,
            WalletError::InvalidSpendLimit => 1006,
            WalletError::SpendLimitExceeded => 1007,
            WalletError::NoAssetsProvided => 1008,
            WalletError::NoPendingAdmin => 9,
            WalletError::SpendOverflow => 10,
            WalletError::AssetLimitExceeded => 11,
            WalletError::MaxAssetsReached => 12,
            WalletError::UpgradeAlreadyPending => 13,
            WalletError::UpgradeNotPending => 14,
            WalletError::UpgradeHashMismatch => 15,
            WalletError::UpgradeNotReady => 16,
            WalletError::UpgradeFailed => 17,
            WalletError::GuardianAlreadyAdded => 18,
            WalletError::GuardianNotFound => 19,
            WalletError::InvalidRecoveryThreshold => 20,
            WalletError::NotEnoughGuardians => 21,
            WalletError::RecoveryNotConfigured => 22,
            WalletError::RecoveryAlreadyPending => 23,
            WalletError::NoPendingRecovery => 24,
            WalletError::AlreadyApproved => 25,
            WalletError::ApprovalNotFound => 26,
            WalletError::RecoveryNotReady => 27,
            WalletError::RecoveryNotQuorate => 28,
            WalletError::InvalidAssetInfo => 29,
        }
    }
}

/// Different errors are reported under different numbers.
pub proof fn law_error_numbers_are_distinct(a: WalletError, b: WalletError)
    requires
        a.number() == b.number(),
    ensures
        a == b,
{
}

} // verus!
