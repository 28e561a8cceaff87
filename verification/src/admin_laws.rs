//! How the admin role is handed on, and how the code is upgraded.
use soroban_sdk::{Address, BytesN};
use vstd::prelude::*;

use crate::error::WalletError;
use crate::model::WalletView;
use crate::types::Ledger;

verus! {

/// A wallet is initialized once.
pub proof fn law_initialization_happens_once(wallet: WalletView, admin: Address)
    requires
        wallet.initialize_refusal() is None,
    ensures
        wallet.initialized(admin).admin == Some(admin),
        wallet.initialized(admin).initialize_refusal() == Some(WalletError::AlreadyInitialized),
{
}

/// Until there is an admin, nobody can act as one.
pub proof fn law_nobody_is_admin_before_initialization(wallet: WalletView, caller: Address)
    requires
        wallet.admin is None,
    ensures
        wallet.admin_refusal(caller) == Some(WalletError::NotInitialized),
{
}

/// A proposed candidate is not the admin yet. The candidate, and nobody else,
/// can accept, and is the admin then; the old admin is not.
pub proof fn law_proposal_and_acceptance(
    wallet: WalletView,
    current: Address,
    candidate: Address,
    other: Address,
)
    requires
        wallet.admin_refusal(current) is None,
        other != candidate,
    ensures
        wallet.admin_proposed(current, candidate).admin == wallet.admin,
        wallet.admin_proposed(current, candidate).accept_refusal(candidate) is None,
        wallet.admin_proposed(current, candidate).accept_refusal(other) == Some(
            WalletError::Unauthorized,
        ),
        wallet.admin_proposed(current, candidate).admin_accepted(candidate).admin == Some(
            candidate,
        ),
        wallet.admin_proposed(current, candidate).admin_accepted(candidate).admin_refusal(candidate)
            is None,
        current != candidate ==> wallet.admin_proposed(current, candidate).admin_accepted(
            candidate,
        ).admin_refusal(current) == Some(WalletError::Unauthorized),
{
}

/// A second proposal replaces the first.
pub proof fn law_later_proposal_counts(
    wallet: WalletView,
    current: Address,
    first: Address,
    second: Address,
)
    requires
        wallet.admin_refusal(current) is None,
    ensures
        wallet.admin_proposed(current, first).admin_proposed(current, second).pending_admins
            == wallet.admin_proposed(current, second).pending_admins,
{
    assert(wallet.pending_admins.insert(current, first).insert(current, second)
        =~= wallet.pending_admins.insert(current, second));
}

/// A cancelled proposal can no longer be accepted, and cancelling it undoes it.
pub proof fn law_cancelled_proposal_is_gone(
    wallet: WalletView,
    current: Address,
    candidate: Address,
    caller: Address,
)
    requires
        wallet.admin_refusal(current) is None,
        !wallet.pending_admins.contains_key(current),
    ensures
        wallet.admin_proposed(current, candidate).admin_refusal(current) is None,
        wallet.admin_proposed(current, candidate).admin_transfer_cancelled(current).accept_refusal(
            caller,
        ) == Some(WalletError::NoPendingAdmin),
        wallet.admin_proposed(current, candidate).admin_transfer_cancelled(current).same_entries(
            wallet,
        ),
{
    assert(wallet.pending_admins.insert(current, candidate).remove(current)
        =~= wallet.pending_admins);
}

/// A new admin starts without a pending candidate, and the candidate cannot
/// accept twice.
pub proof fn law_acceptance_leaves_nothing_pending(
    wallet: WalletView,
    candidate: Address,
    caller: Address,
)
    requires
        wallet.transfers_sound(),
        wallet.accept_refusal(candidate) is None,
    ensures
        wallet.admin_accepted(candidate).accept_refusal(caller) == Some(
            WalletError::NoPendingAdmin,
        ),
{
}

/// A proposed upgrade can be executed from the ledger on in which its delay has
/// elapsed, and not before; only with the hash that was proposed; and once.
pub proof fn law_upgrade_waits_for_its_delay(
    wallet: WalletView,
    proposed_in: Ledger,
    executed_in: Ledger,
    admin: Address,
    wasm_hash: BytesN<32>,
    other_hash: BytesN<32>,
    delay_in_ledgers: u32,
)
    requires
        wallet.propose_upgrade_refusal(admin) is None,
        other_hash != wasm_hash,
    ensures
        ({
            let waiting = wallet.upgrade_proposed(proposed_in, admin, wasm_hash, delay_in_ledgers);
            let done = waiting.upgrade_executed(admin, wasm_hash);
            &&& waiting.execute_upgrade_refusal(executed_in, admin, wasm_hash) == (if executed_in.sequence
                < proposed_in.after(delay_in_ledgers) {
                Some(WalletError::UpgradeNotReady)
            } else {
                None
            })
            &&& waiting.execute_upgrade_refusal(executed_in, admin, other_hash) == Some(
                WalletError::UpgradeHashMismatch,
            )
            &&& waiting.propose_upgrade_refusal(admin) == Some(WalletError::UpgradeAlreadyPending)
            &&& done.execute_upgrade_refusal(executed_in, admin, wasm_hash) == Some(
                WalletError::UpgradeNotPending,
            )
            &&& done.propose_upgrade_refusal(admin) is None
        }),
{
}

/// The timelock is the delay, except that ledgers end at `u32::MAX`.
pub proof fn law_timelock_is_the_delay(ledger: Ledger, delay: u32)
    ensures
        ledger.after(delay) >= ledger.sequence,
        ledger.sequence + delay <= u32::MAX ==> ledger.after(delay) - ledger.sequence == delay,
        ledger.sequence + delay > u32::MAX ==> ledger.after(delay) == u32::MAX,
{
}

} // verus!
