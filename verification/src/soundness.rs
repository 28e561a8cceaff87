//! What every history of requests keeps true of the wallet.
use soroban_sdk::Address;
use vstd::prelude::*;

use crate::model::{self, WalletView, MAX_ASSETS};
use crate::request::Request;
use crate::table::AssetKey;
use crate::types::AssetInfo;

verus! {

/// No code occurs twice.
pub open spec fn codes_distinct(list: Seq<AssetInfo>) -> bool {
    forall|i: int, j: int|
        0 <= i < j < list.len() ==> (#[trigger] list[i]).code != (#[trigger] list[j]).code
}

/// A registry as the wallet keeps it: bounded, no code twice, and exactly the
/// native asset without an issuer.
pub open spec fn registry_sound(list: Seq<AssetInfo>) -> bool {
    &&& list.len() <= MAX_ASSETS
    &&& codes_distinct(list)
    &&& forall|i: int| 0 <= i < list.len() ==> (#[trigger] list[i]).consistent()
}

impl WalletView {
    /// Only the current admin has a candidate pending.
    pub open spec fn transfers_sound(self) -> bool {
        forall|current: Address| #[trigger]
            self.pending_admins.contains_key(current) ==> self.admin == Some(current)
    }

    /// No guardian is listed twice, the index says what the list says, and the
    /// configured threshold can be reached, but not by one guardian alone.
    pub open spec fn guardians_sound(self) -> bool {
        &&& self.guardians.no_duplicates()
        &&& self.membership is Some ==> self.membership->0 == model::index_of(self.guardians)
        &&& self.recovery_config is Some ==> 2 <= self.recovery_config->0.threshold
            <= self.guardians.len()
    }

    /// No approval of a pending recovery counts twice, and there is a threshold
    /// to reach.
    pub open spec fn recovery_sound(self) -> bool {
        self.recovery is Some ==> {
            &&& self.recovery_config is Some
            &&& self.recovery->0.approvals.no_duplicates()
        }
    }

    /// Every user's registry is sound.
    pub open spec fn assets_sound(self) -> bool {
        forall|user: Address| #[trigger]
            self.assets.contains_key(user) ==> registry_sound(self.assets[user])
    }

    /// No limit is negative.
    pub open spec fn limits_sound(self) -> bool {
        forall|key: AssetKey| #[trigger] self.limits.contains_key(key) ==> self.limits[key] >= 0
    }

    pub open spec fn sound(self) -> bool {
        &&& self.transfers_sound()
        &&& self.guardians_sound()
        &&& self.recovery_sound()
        &&& self.assets_sound()
        &&& self.limits_sound()
    }
}

/// A new item makes no duplicate.
pub proof fn lemma_push_no_duplicates(list: Seq<Address>, item: Address)
    requires
        list.no_duplicates(),
        !list.contains(item),
    ensures
        list.push(item).no_duplicates(),
{
    assert forall|i: int, j: int|
        0 <= i < list.push(item).len() && 0 <= j < list.push(item).len() && i
            != j implies list.push(item)[i] != list.push(item)[j] by {
        if i == list.len() {
            assert(list.contains(list[j]));
        } else if j == list.len() {
            assert(list.contains(list[i]));
        }
    }
}

/// What is left of a list has no item twice if the list has none, lacks the
/// item taken out, and keeps all others.
pub proof fn lemma_without(list: Seq<Address>, item: Address)
    ensures
        model::without(list, item).len() <= list.len(),
        forall|a: Address| #[trigger]
            model::without(list, item).contains(a) <==> (list.contains(a) && a != item),
        list.no_duplicates() ==> model::without(list, item).no_duplicates(),
        list.no_duplicates() && list.contains(item) ==> model::without(list, item).len()
            == list.len() - 1,
        !list.contains(item) ==> model::without(list, item) == list,
    decreases list.len(),
{
    reveal(Seq::filter);
    if list.len() > 0 {
        let init = list.drop_last();
        let last = list.last();
        lemma_without(init, item);
        assert(list =~= init.push(last));
        assert forall|a: Address| list.contains(a) <==> (init.contains(a) || a == last) by {
            if init.contains(a) {
                assert(list[init.index_of(a)] == a);
            }
            if a == last {
                assert(list[list.len() - 1] == a);
            }
            if list.contains(a) && a != last {
                assert(init[list.index_of(a)] == a);
            }
        }
        let rest = model::without(init, item);
        if last != item {
            assert(model::without(list, item) == rest.push(last));
            assert forall|a: Address| #[trigger] rest.push(last).contains(a) <==> (rest.contains(a)
                || a == last) by {
                if rest.contains(a) {
                    assert(rest.push(last)[rest.index_of(a)] == a);
                }
                if a == last {
                    assert(rest.push(last)[rest.len() as int] == a);
                }
            }
        } else {
            assert(model::without(list, item) == rest);
        }
        if list.no_duplicates() {
            assert(!init.contains(last)) by {
                if init.contains(last) {
                    let j = init.index_of(last);
                    assert(list[j] == list[list.len() - 1]);
                }
            }
            assert(init.no_duplicates());
            if last != item {
                lemma_push_no_duplicates(rest, last);
            }
        }
    }
}

/// What is left of a registry is sound if the registry is, lacks the code taken
/// out, and keeps all other assets.
pub proof fn lemma_without_code(list: Seq<AssetInfo>, code: soroban_sdk::String)
    ensures
        model::without_code(list, code).len() <= list.len(),
        forall|a: AssetInfo| #[trigger]
            model::without_code(list, code).contains(a) <==> (list.contains(a) && a.code != code),
        codes_distinct(list) ==> codes_distinct(model::without_code(list, code)),
        codes_distinct(list) && model::has_code(list, code) ==> model::without_code(list, code).len()
            == list.len() - 1,
        !model::has_code(list, code) ==> model::without_code(list, code) == list,
    decreases list.len(),
{
    reveal(Seq::filter);
    if list.len() > 0 {
        let init = list.drop_last();
        let last = list.last();
        lemma_without_code(init, code);
        assert(list =~= init.push(last));
        assert forall|a: AssetInfo| list.contains(a) <==> (init.contains(a) || a == last) by {
            if init.contains(a) {
                assert(list[init.index_of(a)] == a);
            }
            if a == last {
                assert(list[list.len() - 1] == a);
            }
            if list.contains(a) && a != last {
                assert(init[list.index_of(a)] == a);
            }
        }
        let rest = model::without_code(init, code);
        if last.code != code {
            assert(model::without_code(list, code) == rest.push(last));
            assert forall|a: AssetInfo| #[trigger]
                rest.push(last).contains(a) <==> (rest.contains(a) || a == last) by {
                if rest.contains(a) {
                    assert(rest.push(last)[rest.index_of(a)] == a);
                }
                if a == last {
                    assert(rest.push(last)[rest.len() as int] == a);
                }
            }
            if model::has_code(list, code) {
                let i = choose|i: int| 0 <= i < list.len() && (#[trigger] list[i]).code == code;
                assert(init[i].code == code);
            }
        } else {
            assert(model::without_code(list, code) == rest);
            assert(list[list.len() - 1].code == code);
        }
        if model::has_code(init, code) {
            let i = choose|i: int| 0 <= i < init.len() && (#[trigger] init[i]).code == code;
            assert(list[i].code == code);
        }
        if codes_distinct(list) {
            assert(codes_distinct(init)) by {
                assert forall|i: int, j: int| 0 <= i < j < init.len() implies (
                #[trigger] init[i]).code != (#[trigger] init[j]).code by {
                    assert(list[i].code != list[j].code);
                }
            }
            assert forall|a: AssetInfo| init.contains(a) implies a.code != last.code by {
                assert(list[init.index_of(a)].code != list[list.len() - 1].code);
            }
            if last.code != code {
                assert(codes_distinct(rest.push(last))) by {
                    assert forall|i: int, j: int| 0 <= i < j < rest.push(last).len() implies (
                    #[trigger] rest.push(last)[i]).code != (#[trigger] rest.push(last)[j]).code by {
                        if j == rest.len() {
                            assert(rest.contains(rest[i]));
                        }
                    }
                }
            } else if model::has_code(init, code) {
                let i = choose|i: int| 0 <= i < init.len() && (#[trigger] init[i]).code == code;
                assert(init.contains(init[i]));
            }
        }
    }
}

/// Every request leaves at most the current admin with a candidate pending.
pub proof fn law_transfers_stay_sound(wallet: WalletView, request: Request)
    requires
        wallet.transfers_sound(),
    ensures
        wallet.step(request).transfers_sound(),
{
}

/// Every request keeps the guardians free of duplicates and in step with their
/// index, and the configured threshold within reach of them.
pub proof fn law_guardians_stay_sound(wallet: WalletView, request: Request)
    requires
        wallet.guardians_sound(),
    ensures
        wallet.step(request).guardians_sound(),
{
    match request {
        Request::AddGuardian { admin, guardian } => {
            if wallet.refusal(request) is None {
                assert(!wallet.guardians.contains(guardian));
                lemma_push_no_duplicates(wallet.guardians, guardian);
                model::lemma_index_of_push(wallet.guardians, guardian);
            }
        },
        Request::RemoveGuardian { admin, guardian } => {
            if wallet.refusal(request) is None {
                let rest = model::without(wallet.guardians, guardian);
                lemma_without(wallet.guardians, guardian);
                assert(model::index_of(rest).remove(guardian) =~= model::index_of(rest));
                assert(model::index_of(wallet.guardians).remove(guardian) =~= model::index_of(
                    rest,
                ));
            }
        },
        _ => {},
    }
}

/// Every request keeps the approvals of a recovery free of duplicates.
pub proof fn law_recovery_stays_sound(wallet: WalletView, request: Request)
    requires
        wallet.recovery_sound(),
    ensures
        wallet.step(request).recovery_sound(),
{
    match request {
        Request::ApproveRecovery { ledger, guardian } => {
            if wallet.refusal(request) is None {
                lemma_push_no_duplicates(wallet.recovery->0.approvals, guardian);
            }
        },
        Request::RevokeRecoveryApproval { guardian } => {
            if wallet.refusal(request) is None {
                lemma_without(wallet.recovery->0.approvals, guardian);
            }
        },
        _ => {},
    }
}

/// Every request keeps every registry bounded, free of duplicate codes, and
/// with exactly the native asset lacking an issuer.
pub proof fn law_assets_stay_sound(wallet: WalletView, request: Request)
    requires
        wallet.assets_sound(),
    ensures
        wallet.step(request).assets_sound(),
{
    if request.asset_holder() is Some && wallet.refusal(request) is None {
        let user = request.asset_holder()->0;
        let list = wallet.assets_of(user);
        assert(registry_sound(list));
        match request {
            Request::RemoveAsset { user, asset_code } => {
                lemma_without_code(list, asset_code);
                let rest = model::without_code(list, asset_code);
                assert forall|i: int| 0 <= i < rest.len() implies (
                #[trigger] rest[i]).consistent() by {
                    assert(rest.contains(rest[i]));
                    assert(list[list.index_of(rest[i])].consistent());
                }
                assert(registry_sound(rest));
            },
            Request::AddAsset { user, asset } => {
                assert(registry_sound(list.push(asset)));
            },
            _ => {},
        }
    }
}

/// Every request leaves all limits at zero or more.
pub proof fn law_limits_stay_sound(wallet: WalletView, request: Request)
    requires
        wallet.limits_sound(),
    ensures
        wallet.step(request).limits_sound(),
{
}

/// Every request, served or refused, leaves a sound wallet sound.
pub proof fn law_requests_keep_the_wallet_sound(wallet: WalletView, request: Request)
    requires
        wallet.sound(),
    ensures
        wallet.step(request).sound(),
{
    law_transfers_stay_sound(wallet, request);
    law_guardians_stay_sound(wallet, request);
    law_recovery_stays_sound(wallet, request);
    law_assets_stay_sound(wallet, request);
    law_limits_stay_sound(wallet, request);
}

/// Whatever is requested of a new wallet, and in whatever order, it is sound.
pub proof fn law_every_history_is_sound(requests: Seq<Request>)
    ensures
        WalletView::blank().run(requests).sound(),
    decreases requests.len(),
{
    if requests.len() > 0 {
        law_every_history_is_sound(requests.drop_last());
        law_requests_keep_the_wallet_sound(
            WalletView::blank().run(requests.drop_last()),
            requests.last(),
        );
    }
}

impl WalletView {
    /// On `day` nobody has spent more than a limit allows, and no spending is on
    /// record for a later day.
    pub open spec fn capped(self, day: u64) -> bool {
        &&& forall|user: Address, code: soroban_sdk::String|
            #![trigger self.limit_of(user, code)]
            self.limit_of(user, code) == 0 || self.spent_on(user, code, day) <= self.limit_of(
                user,
                code,
            )
        &&& forall|key: AssetKey| #[trigger]
            self.spent.contains_key(key) ==> self.spent[key].day <= day
    }
}

/// A later day starts within every limit.
pub proof fn law_a_later_day_is_capped(wallet: WalletView, day: u64, later: u64)
    requires
        wallet.limits_sound(),
        wallet.capped(day),
        day < later,
    ensures
        wallet.capped(later),
{
    assert forall|user: Address, code: soroban_sdk::String|
        #![trigger wallet.limit_of(user, code)]
        wallet.limit_of(user, code) == 0 || wallet.spent_on(user, code, later) <= wallet.limit_of(
            user,
            code,
        ) by {
        let key = AssetKey { user, code };
        assert(wallet.spent.contains_key(key) ==> wallet.spent[key].day < later);
        assert(wallet.limits.contains_key(key) ==> wallet.limits[key] >= 0);
    }
}

/// No request lets anybody's spending on its day pass a limit: not the payments,
/// which are counted, and not the limits, which are never set below what was
/// spent.
pub proof fn law_requests_keep_the_wallet_capped(wallet: WalletView, request: Request, day: u64)
    requires
        wallet.capped(day),
        request.made_on(day),
    ensures
        wallet.step(request).capped(day),
{
    let after = wallet.step(request);
    assert forall|user: Address, code: soroban_sdk::String|
        #![trigger after.limit_of(user, code)]
        after.limit_of(user, code) == 0 || after.spent_on(user, code, day) <= after.limit_of(
            user,
            code,
        ) by {
        assert(wallet.limit_of(user, code) == 0 || wallet.spent_on(user, code, day)
            <= wallet.limit_of(user, code));
    }
}

/// Whatever is requested of a new wallet, as the days go by: on the day of the
/// last request nobody has spent more than a limit allows.
pub proof fn law_every_history_is_capped(requests: Seq<Request>, days: Seq<u64>)
    requires
        requests.len() > 0,
        days.len() == requests.len(),
        forall|i: int, j: int| 0 <= i <= j < days.len() ==> days[i] <= days[j],
        forall|i: int| 0 <= i < days.len() ==> (#[trigger] requests[i]).made_on(days[i]),
    ensures
        WalletView::blank().run(requests).capped(days.last()),
    decreases requests.len(),
{
    let before = WalletView::blank().run(requests.drop_last());
    law_every_history_is_sound(requests.drop_last());
    if requests.len() > 1 {
        let earlier = days.drop_last();
        assert forall|i: int| 0 <= i < earlier.len() implies (
        #[trigger] requests.drop_last()[i]).made_on(earlier[i]) by {
            assert(requests[i].made_on(days[i]));
        }
        law_every_history_is_capped(requests.drop_last(), earlier);
        if earlier.last() < days.last() {
            law_a_later_day_is_capped(before, earlier.last(), days.last());
        }
    }
    assert(requests[requests.len() - 1].made_on(days.last()));
    law_requests_keep_the_wallet_capped(before, requests.last(), days.last());
}

} // verus!
