//! What the daily spend limits promise.
use soroban_sdk::Address;
use vstd::prelude::*;

use crate::error::WalletError;
use crate::model::WalletView;
use crate::types::{Ledger, SECONDS_PER_DAY};

verus! {

/// The limit that was set is the limit.
pub proof fn law_limit_is_read_back(
    wallet: WalletView,
    ledger: Ledger,
    user: Address,
    code: soroban_sdk::String,
    limit: i128,
)
    requires
        wallet.set_spend_limit_refusal(ledger, user, code, limit) is None,
    ensures
        wallet.spend_limit_set(user, code, limit).limit_of(user, code) == limit,
        wallet.spend_limit_set(user, code, limit).spent == wallet.spent,
{
}

/// Without a limit every payment is allowed, and counted like any other.
pub proof fn law_without_limit_everything_is_allowed(
    wallet: WalletView,
    ledger: Ledger,
    user: Address,
    code: soroban_sdk::String,
    amount: i128,
)
    requires
        wallet.limit_of(user, code) == 0,
    ensures
        wallet.record_spend_refusal(ledger, user, code, amount) is None,
        wallet.spend_recorded(ledger, user, code, amount).spent_on(user, code, ledger.day())
            == wallet.counted(ledger, user, code, amount),
{
}

/// The limit can be lifted at any time, and can be set to anything that is not
/// negative and not below what was spent that day.
pub proof fn law_limit_is_never_below_what_was_spent(
    wallet: WalletView,
    ledger: Ledger,
    user: Address,
    code: soroban_sdk::String,
    limit: i128,
)
    ensures
        wallet.set_spend_limit_refusal(ledger, user, code, 0) is None,
        limit < 0 ==> wallet.set_spend_limit_refusal(ledger, user, code, limit) == Some(
            WalletError::InvalidSpendLimit,
        ),
        limit > 0 ==> (wallet.set_spend_limit_refusal(ledger, user, code, limit) is None) == (
        wallet.spent_on(user, code, ledger.day()) <= limit),
        limit > 0 && wallet.spent_on(user, code, ledger.day()) > limit
            ==> wallet.set_spend_limit_refusal(ledger, user, code, limit) == Some(
            WalletError::SpendLimitExceeded,
        ),
{
}

/// Under a limit, a payment is served exactly if the day's total with it fits in
/// an `i128` and does not pass the limit. The total then is on record.
pub proof fn law_day_total_never_passes_the_limit(
    wallet: WalletView,
    ledger: Ledger,
    user: Address,
    code: soroban_sdk::String,
    amount: i128,
)
    requires
        wallet.limit_of(user, code) != 0,
    ensures
        (wallet.record_spend_refusal(ledger, user, code, amount) is None) == (i128::MIN
            <= wallet.total_with(ledger, user, code, amount) <= wallet.limit_of(user, code)),
        wallet.record_spend_refusal(ledger, user, code, amount) is None ==> {
            let after = wallet.spend_recorded(ledger, user, code, amount);
            &&& after.spent_on(user, code, ledger.day()) == wallet.total_with(
                ledger,
                user,
                code,
                amount,
            )
            &&& after.spent_on(user, code, ledger.day()) <= after.limit_of(user, code)
        },
{
}

/// Every served payment is on record, with or without a limit. The day's total
/// grows by exactly the amount, unless it would leave the range of an `i128`.
pub proof fn law_served_payment_is_on_record(
    wallet: WalletView,
    ledger: Ledger,
    user: Address,
    code: soroban_sdk::String,
    amount: i128,
)
    requires
        wallet.record_spend_refusal(ledger, user, code, amount) is None,
    ensures
        ({
            let total = wallet.spent_on(user, code, ledger.day()) + amount;
            let recorded = wallet.spend_recorded(ledger, user, code, amount).spent_on(
                user,
                code,
                ledger.day(),
            );
            &&& i128::MIN <= total <= i128::MAX ==> recorded == total
            &&& total > i128::MAX ==> recorded == i128::MAX
            &&& total < i128::MIN ==> recorded == i128::MIN
            &&& wallet.limit_of(user, code) != 0 ==> recorded == total
        }),
{
}

/// What was paid while there was no limit counts against a limit that is set
/// later in the day: it cannot be set below that, and leaves only the rest.
pub proof fn law_payments_before_a_limit_count(
    wallet: WalletView,
    first: Ledger,
    second: Ledger,
    user: Address,
    code: soroban_sdk::String,
    a: i128,
    limit: i128,
    b: i128,
)
    requires
        wallet.limit_of(user, code) == 0,
        first.day() == second.day(),
        limit > 0,
    ensures
        ({
            let paid = wallet.spend_recorded(first, user, code, a);
            let limited = paid.spend_limit_set(user, code, limit);
            let counted = wallet.counted(first, user, code, a);
            &&& paid.set_spend_limit_refusal(second, user, code, limit) == (if counted > limit {
                Some(WalletError::SpendLimitExceeded)
            } else {
                None
            })
            &&& (limited.record_spend_refusal(second, user, code, b) is None) == (i128::MIN
                <= counted + b <= limit)
        }),
{
}

/// Payments on the same day add up, with or without a limit.
pub proof fn law_same_day_adds_up(
    wallet: WalletView,
    first: Ledger,
    second: Ledger,
    user: Address,
    code: soroban_sdk::String,
    a: i128,
    b: i128,
)
    requires
        first.day() == second.day(),
        wallet.record_spend_refusal(first, user, code, a) is None,
    ensures
        ({
            let once = wallet.spend_recorded(first, user, code, a);
            let twice = once.spend_recorded(second, user, code, b);
            let limit = wallet.limit_of(user, code);
            let before = wallet.spent_on(user, code, first.day());
            &&& limit == 0 ==> once.record_spend_refusal(second, user, code, b) is None
            &&& limit != 0 ==> (once.record_spend_refusal(second, user, code, b) is None) == (
            i128::MIN <= before + a + b <= limit)
            &&& once.record_spend_refusal(second, user, code, b) is None && i128::MIN <= before + a
                <= i128::MAX && i128::MIN <= before + a + b <= i128::MAX ==> twice.spent_on(
                user,
                code,
                first.day(),
            ) == before + a + b
        }),
{
}

/// Another day starts from zero: the whole limit can be spent again.
pub proof fn law_another_day_starts_from_zero(
    wallet: WalletView,
    first: Ledger,
    second: Ledger,
    user: Address,
    code: soroban_sdk::String,
    a: i128,
    b: i128,
)
    requires
        first.day() != second.day(),
        wallet.record_spend_refusal(first, user, code, a) is None,
    ensures
        ({
            let once = wallet.spend_recorded(first, user, code, a);
            let limit = wallet.limit_of(user, code);
            &&& once.spent_on(user, code, second.day()) == 0
            &&& (once.record_spend_refusal(second, user, code, b) is None) == (limit == 0 || b
                <= limit)
            &&& once.spend_recorded(second, user, code, b).spent_on(user, code, second.day()) == b
        }),
{
}

/// Days are buckets of [`SECONDS_PER_DAY`] seconds: a day is over exactly when
/// the next multiple is reached.
pub proof fn law_days_are_buckets(ledger: Ledger)
    ensures
        ledger.day() * SECONDS_PER_DAY <= ledger.timestamp < (ledger.day() + 1) * SECONDS_PER_DAY,
{
}

/// The wallet after a run of payment requests by one user for one asset, each in
/// its own ledger.
pub open spec fn after_payments(
    wallet: WalletView,
    user: Address,
    code: soroban_sdk::String,
    payments: Seq<(Ledger, i128)>,
) -> WalletView
    decreases payments.len(),
{
    if payments.len() == 0 {
        wallet
    } else {
        let before = after_payments(wallet, user, code, payments.drop_last());
        let (ledger, amount) = payments.last();
        if before.record_spend_refusal(ledger, user, code, amount) is None {
            before.spend_recorded(ledger, user, code, amount)
        } else {
            before.demand(user)
        }
    }
}

/// The sum of those payments that are served.
pub open spec fn paid(
    wallet: WalletView,
    user: Address,
    code: soroban_sdk::String,
    payments: Seq<(Ledger, i128)>,
) -> int
    decreases payments.len(),
{
    if payments.len() == 0 {
        0
    } else {
        let before = after_payments(wallet, user, code, payments.drop_last());
        let (ledger, amount) = payments.last();
        paid(wallet, user, code, payments.drop_last()) + if before.record_spend_refusal(
            ledger,
            user,
            code,
            amount,
        ) is None {
            amount as int
        } else {
            0
        }
    }
}

/// However many payments are tried on one day: what is on record as spent grows
/// by exactly those that are served, and under a limit all that is spent on the
/// day stays within it. (Without a limit all are served; their sums are to stay
/// in the range of an `i128`.)
pub proof fn law_payments_of_a_day_add_up_within_the_limit(
    wallet: WalletView,
    user: Address,
    code: soroban_sdk::String,
    payments: Seq<(Ledger, i128)>,
    day: u64,
)
    requires
        wallet.limit_of(user, code) != 0 ==> wallet.spent_on(user, code, day) <= wallet.limit_of(
            user,
            code,
        ),
        wallet.limit_of(user, code) == 0 ==> forall|n: int|
            0 <= n <= payments.len() ==> i128::MIN <= wallet.spent_on(user, code, day)
                + #[trigger] paid(wallet, user, code, payments.take(n)) <= i128::MAX,
        forall|i: int| 0 <= i < payments.len() ==> (#[trigger] payments[i]).0.day() == day,
    ensures
        ({
            let after = after_payments(wallet, user, code, payments);
            let limit = wallet.limit_of(user, code);
            &&& after.limit_of(user, code) == limit
            &&& after.spent_on(user, code, day) == wallet.spent_on(user, code, day) + paid(
                wallet,
                user,
                code,
                payments,
            )
            &&& limit != 0 ==> after.spent_on(user, code, day) <= limit
        }),
    decreases payments.len(),
{
    if payments.len() > 0 {
        let earlier = payments.drop_last();
        assert forall|i: int| 0 <= i < earlier.len() implies (
        #[trigger] earlier[i]).0.day() == day by {
            assert(payments[i].0.day() == day);
        }
        if wallet.limit_of(user, code) == 0 {
            assert forall|n: int| 0 <= n <= earlier.len() implies i128::MIN <= wallet.spent_on(
                user,
                code,
                day,
            ) + #[trigger] paid(wallet, user, code, earlier.take(n)) <= i128::MAX by {
                assert(earlier.take(n) =~= payments.take(n));
            }
            assert(payments.take(payments.len() as int) =~= payments);
        }
        law_payments_of_a_day_add_up_within_the_limit(wallet, user, code, earlier, day);
        assert(payments[payments.len() - 1].0.day() == day);
    }
}

} // verus!
