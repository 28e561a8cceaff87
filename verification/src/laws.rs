//! What holds of every request, and of every history of requests.
use soroban_sdk::Address;
use vstd::prelude::*;

use crate::effect::Effect;
use crate::model::WalletView;
use crate::request::Request;
use crate::table::AssetKey;
use crate::types::{
    DataKey, DAILY_SPENT_TTL_EXTEND_TO, DAILY_SPENT_TTL_THRESHOLD, PERSISTENT_TTL_EXTEND_TO,
    PERSISTENT_TTL_THRESHOLD,
};

verus! {

/// A refused request leaves the ledger entries as they were. (It may have built
/// the guardian index, which says nothing new.)
pub proof fn law_refused_request_keeps_entries(wallet: WalletView, request: Request)
    requires
        wallet.refusal(request) is Some,
    ensures
        wallet.step(request).same_entries(wallet),
{
}

/// What is to be done on the ledger is only ever added to.
pub proof fn law_effects_are_appended(wallet: WalletView, request: Request)
    ensures
        wallet.effects.is_prefix_of(wallet.step(request).effects),
{
}

/// Before anything else a request demands the authorization of the one who
/// makes it, whether it is served or refused. Only the initialization and the
/// execution of a recovery demand nobody's.
pub proof fn law_signer_is_demanded_first(wallet: WalletView, request: Request)
    ensures
        match request.signer() {
            Some(signer) => wallet.step(request).effects.len() > wallet.effects.len()
                && wallet.step(request).effects[wallet.effects.len() as int]
                == Effect::RequireAuth(signer),
            None => forall|i: int|
                wallet.effects.len() <= i < wallet.step(request).effects.len() ==> !(
                #[trigger] wallet.step(request).effects[i] is RequireAuth),
        },
{
}

/// Whether the ledger entry under `key` differs.
pub open spec fn entry_differs(before: WalletView, after: WalletView, key: DataKey) -> bool {
    match key {
        DataKey::Admin => before.admin != after.admin,
        DataKey::PendingAdmin(current) => before.pending_admins.get(current)
            != after.pending_admins.get(current),
        DataKey::PendingUpgrade => before.pending_upgrade != after.pending_upgrade,
        DataKey::UserAssets(user) => before.assets.get(user) != after.assets.get(user),
        DataKey::SpendLimit(user, code) => before.limits.get(AssetKey { user, code })
            != after.limits.get(AssetKey { user, code }),
        DataKey::DailySpent(user, code) => before.spent.get(AssetKey { user, code })
            != after.spent.get(AssetKey { user, code }),
        DataKey::Guardians => before.guardians != after.guardians,
        DataKey::RecoveryConfig => before.recovery_config != after.recovery_config,
        DataKey::RecoveryProposal => before.recovery != after.recovery,
        DataKey::GuardianMembership => before.membership != after.membership,
    }
}

/// Whether the effect writes or deletes the entry under `key`.
pub open spec fn touches(effect: Effect, key: DataKey) -> bool {
    effect == Effect::Store(key) || effect == Effect::Remove(key)
}

/// Whether an effect from position `from` on writes or deletes the entry under
/// `key`.
pub open spec fn touched_since(effects: Seq<Effect>, from: int, key: DataKey) -> bool {
    exists|i: int| from <= i < effects.len() && touches(#[trigger] effects[i], key)
}

/// Every ledger entry that a request changes is written or deleted on the
/// ledger.
pub proof fn law_changes_reach_the_ledger(wallet: WalletView, request: Request, key: DataKey)
    requires
        entry_differs(wallet, wallet.step(request), key),
    ensures
        touched_since(wallet.step(request).effects, wallet.effects.len() as int, key),
{
    // The position of the write depends on the request, and on whether the
    // guardian index had to be built.
    let effects = wallet.step(request).effects;
    let n = wallet.effects.len() as int;
    assert({
        ||| n < effects.len() && touches(effects[n], key)
        ||| n + 1 < effects.len() && touches(effects[n + 1], key)
        ||| n + 2 < effects.len() && touches(effects[n + 2], key)
        ||| n + 3 < effects.len() && touches(effects[n + 3], key)
    });
}

/// Whether there is an entry under `key`. The guardians are a list, which may
/// be empty.
pub open spec fn has_entry(wallet: WalletView, key: DataKey) -> bool {
    match key {
        DataKey::Admin => wallet.admin is Some,
        DataKey::PendingAdmin(current) => wallet.pending_admins.contains_key(current),
        DataKey::PendingUpgrade => wallet.pending_upgrade is Some,
        DataKey::UserAssets(user) => wallet.assets.contains_key(user),
        DataKey::SpendLimit(user, code) => wallet.limits.contains_key(AssetKey { user, code }),
        DataKey::DailySpent(user, code) => wallet.spent.contains_key(AssetKey { user, code }),
        DataKey::Guardians => true,
        DataKey::RecoveryConfig => wallet.recovery_config is Some,
        DataKey::RecoveryProposal => wallet.recovery is Some,
        DataKey::GuardianMembership => wallet.membership is Some,
    }
}

/// After a request there is every entry that it writes: what is to be written
/// can be read from the wallet.
#[verifier::rlimit(40)]
pub proof fn law_written_entries_exist(
    wallet: WalletView,
    request: Request,
    i: int,
    key: DataKey,
)
    requires
        wallet.effects.len() <= i < wallet.step(request).effects.len(),
        wallet.step(request).effects[i] == Effect::Store(key),
    ensures
        has_entry(wallet.step(request), key),
{
}

/// After a request there is no entry that it deletes.
pub proof fn law_deleted_entries_are_gone(
    wallet: WalletView,
    request: Request,
    i: int,
    key: DataKey,
)
    requires
        wallet.effects.len() <= i < wallet.step(request).effects.len(),
        wallet.step(request).effects[i] == Effect::Remove(key),
    ensures
        !has_entry(wallet.step(request), key),
{
}

/// By how much a write extends the lifetime of an entry that has its own.
pub open spec fn keepalive(key: DataKey) -> Effect {
    if key is DailySpent {
        Effect::ExtendTtl {
            key,
            threshold: DAILY_SPENT_TTL_THRESHOLD,
            extend_to: DAILY_SPENT_TTL_EXTEND_TO,
        }
    } else {
        Effect::ExtendTtl {
            key,
            threshold: PERSISTENT_TTL_THRESHOLD,
            extend_to: PERSISTENT_TTL_EXTEND_TO,
        }
    }
}

/// Every write of an entry with a lifetime of its own is followed at once by
/// the extension of that lifetime.
#[verifier::rlimit(40)]
pub proof fn law_lasting_entries_are_kept_alive(
    wallet: WalletView,
    request: Request,
    i: int,
    key: DataKey,
)
    requires
        wallet.effects.len() <= i < wallet.step(request).effects.len(),
        wallet.step(request).effects[i] == Effect::Store(key),
        key.is_persistent(),
    ensures
        i + 1 < wallet.step(request).effects.len(),
        wallet.step(request).effects[i + 1] == keepalive(key),
{
}

/// A served request that changes a ledger entry is made known: its event is the
/// last thing that is done.
pub proof fn law_changes_are_announced(wallet: WalletView, request: Request)
    requires
        wallet.refusal(request) is None,
        !wallet.step(request).same_entries(wallet),
    ensures
        wallet.step(request).effects.len() > wallet.effects.len(),
        wallet.step(request).effects.last() == Effect::Publish(wallet.announcement(request)),
{
}

/// A refused request makes nothing known.
pub proof fn law_refusals_are_not_announced(wallet: WalletView, request: Request, i: int)
    requires
        wallet.refusal(request) is Some,
        wallet.effects.len() <= i < wallet.step(request).effects.len(),
    ensures
        !(wallet.step(request).effects[i] is Publish),
{
}

/// The code is replaced only by the execution of an upgrade, and only by the
/// code that was proposed.
pub proof fn law_code_is_replaced_only_by_an_upgrade(wallet: WalletView, request: Request, i: int)
    requires
        wallet.effects.len() <= i < wallet.step(request).effects.len(),
        wallet.step(request).effects[i] is ReplaceWasm,
    ensures
        request is ExecuteUpgrade,
        wallet.refusal(request) is None,
        wallet.pending_upgrade is Some,
        wallet.step(request).effects[i] == Effect::ReplaceWasm(wallet.pending_upgrade->0.wasm_hash),
        wallet.admin_refusal(request->ExecuteUpgrade_executor) is None,
        request->ExecuteUpgrade_ledger.sequence >= wallet.pending_upgrade->0.ready_at,
{
}

/// Once there is an admin, the role passes on only to the candidate whom the
/// admin proposed and who accepts, or to the one whom an executed recovery
/// names.
pub proof fn law_admin_passes_on_only_by_acceptance_or_recovery(
    wallet: WalletView,
    request: Request,
)
    requires
        wallet.admin is Some,
        wallet.step(request).admin != wallet.admin,
    ensures
        wallet.refusal(request) is None,
        match request {
            Request::AcceptAdmin { candidate } => {
                &&& wallet.pending_admins.contains_key(wallet.admin->0)
                &&& wallet.pending_admins[wallet.admin->0] == candidate
                &&& wallet.step(request).admin == Some(candidate)
            },
            Request::ExecuteRecovery { ledger } => {
                &&& wallet.recovery is Some
                &&& wallet.step(request).admin == Some(wallet.recovery->0.new_admin)
            },
            _ => false,
        },
{
}

/// A request about one user's assets, or about one user's spending of one
/// asset, leaves everybody else's alone, and that user's other assets.
pub proof fn law_users_are_independent(
    wallet: WalletView,
    request: Request,
    user: Address,
    code: soroban_sdk::String,
)
    ensures
        request.asset_holder() != Some(user) ==> wallet.step(request).assets_of(user)
            == wallet.assets_of(user),
        request.spending() != Some((user, code)) ==> {
            &&& wallet.step(request).limit_of(user, code) == wallet.limit_of(user, code)
            &&& forall|day: u64|
                wallet.step(request).spent_on(user, code, day) == wallet.spent_on(user, code, day)
        },
{
}

/// Whether both have the entries that the request looks at.
pub open spec fn agree_for(a: WalletView, b: WalletView, request: Request) -> bool {
    &&& a.admin == b.admin
    &&& a.admin is Some ==> a.pending_admins.get(a.admin->0) == b.pending_admins.get(a.admin->0)
    &&& a.pending_upgrade == b.pending_upgrade
    &&& a.guardians == b.guardians
    &&& a.membership == b.membership
    &&& a.recovery_config == b.recovery_config
    &&& a.recovery == b.recovery
    &&& request.asset_holder() is Some ==> a.assets.get(request.asset_holder()->0)
        == b.assets.get(request.asset_holder()->0)
    &&& match request.spending() {
        Some((user, code)) => a.limits.get(AssetKey { user, code }) == b.limits.get(
            AssetKey { user, code },
        ) && a.spent.get(AssetKey { user, code }) == b.spent.get(AssetKey { user, code }),
        None => true,
    }
    &&& a.effects == b.effects
}

/// How a request is answered, and what is done on the ledger, depends only on
/// the contract's own entries and on those of the user whom the request is
/// about. What is not among them need not be read from the ledger.
pub proof fn law_requests_are_local(a: WalletView, b: WalletView, request: Request)
    requires
        agree_for(a, b, request),
    ensures
        a.refusal(request) == b.refusal(request),
        a.step(request).effects == b.step(request).effects,
{
}

/// Nor does it depend on anything else what is written to the ledger.
pub proof fn law_writes_are_local(
    a: WalletView,
    b: WalletView,
    request: Request,
    i: int,
    key: DataKey,
)
    requires
        agree_for(a, b, request),
        a.effects.len() <= i < a.step(request).effects.len(),
        touches(a.step(request).effects[i], key),
    ensures
        !entry_differs(a.step(request), b.step(request), key),
{
    law_requests_are_local(a, b, request);
}

} // verus!
