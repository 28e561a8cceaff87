//! What the asset registry promises its users.
use soroban_sdk::Address;
use vstd::prelude::*;

use crate::error::WalletError;
use crate::model::{self, WalletView, MAX_ASSETS};
use crate::soundness;
use crate::types::AssetInfo;

verus! {

/// A registered asset is listed last, after those registered before, and its
/// code cannot be registered again.
pub proof fn law_added_asset_is_listed(
    wallet: WalletView,
    user: Address,
    asset: AssetInfo,
    again: AssetInfo,
)
    requires
        wallet.add_asset_refusal(user, asset) is None,
        again.code == asset.code,
    ensures
        wallet.asset_added(user, asset).assets_of(user) == wallet.assets_of(user).push(asset),
        wallet.asset_added(user, asset).add_asset_refusal(user, again) is Some,
        again.consistent() && wallet.assets_of(user).len() + 1 < MAX_ASSETS ==> wallet.asset_added(
            user,
            asset,
        ).add_asset_refusal(user, again) == Some(WalletError::AssetAlreadyAdded),
{
    let list = wallet.asset_added(user, asset).assets_of(user);
    assert(list[list.len() - 1].code == again.code);
}

/// A full registry takes no further asset, whichever it is.
pub proof fn law_full_registry_takes_no_more(wallet: WalletView, user: Address, asset: AssetInfo)
    requires
        wallet.assets_of(user).len() >= MAX_ASSETS,
    ensures
        wallet.add_asset_refusal(user, asset) == Some(WalletError::AssetLimitExceeded),
{
}

/// The native asset with an issuer, and any other without one, are refused, also
/// where there is room.
pub proof fn law_contradictory_asset_is_refused(
    wallet: WalletView,
    user: Address,
    asset: AssetInfo,
)
    requires
        asset.native() == (asset.issuer is Some),
        wallet.assets_of(user).len() < MAX_ASSETS,
    ensures
        wallet.add_asset_refusal(user, asset) == Some(WalletError::InvalidAssetInfo),
{
}

/// A removed code is no longer listed and cannot be removed again; all other
/// assets stay, in their order.
pub proof fn law_removed_asset_is_gone(
    wallet: WalletView,
    user: Address,
    code: soroban_sdk::String,
    other: AssetInfo,
)
    requires
        wallet.remove_asset_refusal(user, code) is None,
        other.code != code,
    ensures
        !model::has_code(wallet.asset_removed(user, code).assets_of(user), code),
        wallet.asset_removed(user, code).remove_asset_refusal(user, code) == Some(
            WalletError::AssetNotFound,
        ),
        wallet.asset_removed(user, code).assets_of(user).contains(other) == wallet.assets_of(
            user,
        ).contains(other),
{
    let list = wallet.assets_of(user);
    let rest = model::without_code(list, code);
    soundness::lemma_without_code(list, code);
    assert forall|i: int| 0 <= i < rest.len() implies (#[trigger] rest[i]).code != code by {
        assert(rest.contains(rest[i]));
    }
}

/// Removing an asset that was just registered restores the registry.
pub proof fn law_removal_undoes_registration(wallet: WalletView, user: Address, asset: AssetInfo)
    requires
        wallet.add_asset_refusal(user, asset) is None,
    ensures
        wallet.asset_added(user, asset).remove_asset_refusal(user, asset.code) is None,
        wallet.asset_added(user, asset).asset_removed(user, asset.code).assets_of(user)
            == wallet.assets_of(user),
{
    let before = wallet.assets_of(user);
    let after = before.push(asset);
    assert(after[before.len() as int].code == asset.code);
    assert(after.drop_last() =~= before);
    soundness::lemma_without_code(before, asset.code);
    reveal(Seq::filter);
    assert(model::without_code(after, asset.code) == model::without_code(before, asset.code));
}

/// A removed asset can be registered again.
pub proof fn law_removed_asset_can_return(wallet: WalletView, user: Address, asset: AssetInfo)
    requires
        soundness::registry_sound(wallet.assets_of(user)),
        wallet.remove_asset_refusal(user, asset.code) is None,
        asset.consistent(),
    ensures
        wallet.asset_removed(user, asset.code).add_asset_refusal(user, asset) is None,
{
    let list = wallet.assets_of(user);
    let rest = model::without_code(list, asset.code);
    soundness::lemma_without_code(list, asset.code);
    assert forall|i: int| 0 <= i < rest.len() implies (#[trigger] rest[i]).code != asset.code by {
        assert(rest.contains(rest[i]));
    }
}

/// A migrated registry is bounded, keeps the assets that were registered first,
/// and has nothing left to migrate. One that is within the bound stays as it is.
pub proof fn law_migration_trims_once(wallet: WalletView, admin: Address, user: Address)
    requires
        wallet.admin_refusal(admin) is None,
    ensures
        wallet.assets_migrated(admin, user).assets_of(user).len() <= MAX_ASSETS,
        wallet.assets_migrated(admin, user).assets_of(user).is_prefix_of(wallet.assets_of(user)),
        wallet.assets_migrated(admin, user).assets_of(user).len() + wallet.excess_of(user)
            == wallet.assets_of(user).len(),
        wallet.assets_migrated(admin, user).excess_of(user) == 0,
        wallet.assets_of(user).len() <= MAX_ASSETS ==> wallet.assets_migrated(
            admin,
            user,
        ).same_entries(wallet),
{
}

} // verus!
