//! How the guardians recover the admin role, and what stands in their way.
use soroban_sdk::Address;
use vstd::prelude::*;

use crate::error::WalletError;
use crate::model::{self, WalletView};
use crate::request::Request;
use crate::soundness;
use crate::types::Ledger;

verus! {

/// The index, built or not, names exactly the listed guardians.
pub proof fn law_index_names_the_guardians(wallet: WalletView, who: Address)
    requires
        wallet.guardians_sound(),
    ensures
        wallet.is_guardian(who) == wallet.guardians.contains(who),
        wallet.indexed().is_guardian(who) == wallet.is_guardian(who),
{
}

/// An added guardian is the last one listed, acts as a guardian and cannot be
/// added again.
pub proof fn law_added_guardian_is_one(wallet: WalletView, admin: Address, guardian: Address)
    requires
        wallet.add_guardian_refusal(admin, guardian) is None,
    ensures
        wallet.guardian_added(admin, guardian).guardians.last() == guardian,
        wallet.guardian_added(admin, guardian).guardian_refusal(guardian) is None,
        wallet.guardian_added(admin, guardian).add_guardian_refusal(admin, guardian) == Some(
            WalletError::GuardianAlreadyAdded,
        ),
{
}

/// A removed guardian can act as one no longer; the others still can.
pub proof fn law_removed_guardian_is_none(
    wallet: WalletView,
    admin: Address,
    guardian: Address,
    other: Address,
)
    requires
        wallet.guardians_sound(),
        wallet.remove_guardian_refusal(admin, guardian) is None,
        other != guardian,
    ensures
        wallet.guardian_removed(admin, guardian).initiate_refusal(guardian) == Some(
            WalletError::Unauthorized,
        ),
        wallet.guardian_removed(admin, guardian).approve_refusal(guardian) == Some(
            WalletError::Unauthorized,
        ),
        wallet.guardian_removed(admin, guardian).is_guardian(other) == wallet.is_guardian(other),
        wallet.guardian_removed(admin, guardian).remove_guardian_refusal(admin, guardian) == Some(
            WalletError::GuardianNotFound,
        ),
{
    soundness::lemma_without(wallet.guardians, guardian);
    soundness::law_guardians_stay_sound(wallet, Request::RemoveGuardian { admin, guardian });
}

/// Removing a guardian who was just added restores the guardians and their
/// index.
pub proof fn law_removal_undoes_addition(wallet: WalletView, admin: Address, guardian: Address)
    requires
        wallet.guardians_sound(),
        wallet.add_guardian_refusal(admin, guardian) is None,
    ensures
        wallet.guardian_added(admin, guardian).remove_guardian_refusal(admin, guardian) is None,
        wallet.guardian_added(admin, guardian).guardian_removed(admin, guardian).same_entries(
            wallet,
        ),
{
    let added = wallet.guardian_added(admin, guardian);
    assert(!wallet.guardians.contains(guardian));
    assert(added.guardians.last() == guardian);
    assert(added.guardians.drop_last() =~= wallet.guardians);
    soundness::lemma_without(wallet.guardians, guardian);
    reveal(Seq::filter);
    assert(model::without(added.guardians, guardian) == model::without(
        wallet.guardians,
        guardian,
    ));
    assert(wallet.index().insert(guardian, true).remove(guardian) =~= wallet.index());
}

/// A request adds an approval only if the approver makes it, and is a guardian.
pub proof fn law_only_guardians_approve(wallet: WalletView, request: Request, who: Address)
    requires
        wallet.step(request).recovery is Some,
        wallet.step(request).recovery->0.approvals.contains(who),
        wallet.recovery is None || !wallet.recovery->0.approvals.contains(who),
    ensures
        request is InitiateRecovery || request is ApproveRecovery,
        request.signer() == Some(who),
        wallet.is_guardian(who),
{
    match request {
        Request::RevokeRecoveryApproval { guardian } => {
            if wallet.recovery is Some {
                soundness::lemma_without(wallet.recovery->0.approvals, guardian);
            }
        },
        _ => {},
    }
}

/// The timelock starts only with an approval, only when the approvals reach the
/// threshold, and it then runs for the whole delay. In particular one guardian
/// alone cannot start it.
pub proof fn law_timelock_starts_at_the_quorum(wallet: WalletView, request: Request)
    requires
        wallet.recovery is None || wallet.recovery->0.ready_at is None,
        wallet.step(request).recovery is Some,
        wallet.step(request).recovery->0.ready_at is Some,
    ensures
        request is ApproveRecovery,
        wallet.recovery_config is Some,
        wallet.step(request).recovery->0.approvals.len() >= wallet.recovery_config->0.threshold,
        wallet.step(request).recovery->0.ready_at == Some(
            request->ApproveRecovery_ledger.after(wallet.recovery_config->0.delay_in_ledgers),
        ),
        wallet.guardians_sound() ==> wallet.step(request).recovery->0.approvals.len() >= 2,
{
}

/// A running timelock is never moved, only cleared.
pub proof fn law_running_timelock_is_not_moved(wallet: WalletView, request: Request)
    requires
        wallet.recovery is Some,
        wallet.recovery->0.ready_at is Some,
        wallet.step(request).recovery is Some,
        wallet.step(request).recovery->0.ready_at is Some,
    ensures
        wallet.step(request).recovery->0.ready_at == wallet.recovery->0.ready_at,
{
}

/// A recovery is executed exactly when it is configured and pending, the
/// approvals make the quorum, the timelock has elapsed and there is an admin to
/// replace. The approvals then are of at least two different addresses.
pub proof fn law_recovery_needs_quorum_and_timelock(wallet: WalletView, ledger: Ledger)
    requires
        wallet.guardians_sound(),
        wallet.recovery_sound(),
    ensures
        (wallet.execute_recovery_refusal(ledger) is None) == {
            &&& wallet.recovery_config is Some
            &&& wallet.recovery is Some
            &&& wallet.recovery->0.approvals.len() >= wallet.recovery_config->0.threshold
            &&& wallet.recovery->0.ready_at is Some
            &&& ledger.sequence >= wallet.recovery->0.ready_at->0
            &&& wallet.admin is Some
        },
        wallet.execute_recovery_refusal(ledger) is None ==> {
            &&& wallet.recovery->0.approvals.no_duplicates()
            &&& wallet.recovery->0.approvals.len() >= 2
        },
{
}

/// An executed recovery makes its candidate the admin, and a candidate of the
/// old admin can no longer accept, nor can anybody else.
pub proof fn law_recovery_replaces_the_admin(wallet: WalletView, ledger: Ledger, caller: Address)
    requires
        wallet.transfers_sound(),
        wallet.execute_recovery_refusal(ledger) is None,
    ensures
        wallet.recovery_executed().admin == Some(wallet.recovery->0.new_admin),
        wallet.recovery_executed().accept_refusal(caller) == Some(WalletError::NoPendingAdmin),
        wallet.recovery_executed().execute_recovery_refusal(ledger) == Some(
            WalletError::NoPendingRecovery,
        ),
{
}

/// As long as there is an admin, the admin can cancel a pending recovery, with
/// or without a quorum. A cancelled recovery can never be executed, and the
/// admin stays.
pub proof fn law_admin_can_cancel_a_recovery(wallet: WalletView, admin: Address, ledger: Ledger)
    requires
        wallet.admin == Some(admin),
        wallet.recovery is Some,
    ensures
        wallet.cancel_recovery_refusal(admin) is None,
        wallet.recovery_cancelled(admin).recovery is None,
        wallet.recovery_cancelled(admin).execute_recovery_refusal(ledger) is Some,
        wallet.recovery_config is Some ==> wallet.recovery_cancelled(
            admin,
        ).execute_recovery_refusal(ledger) == Some(WalletError::NoPendingRecovery),
        wallet.recovery_cancelled(admin).admin == Some(admin),
{
}

/// Nobody but the admin can cancel a recovery.
pub proof fn law_others_cannot_cancel_a_recovery(wallet: WalletView, caller: Address)
    requires
        wallet.admin != Some(caller),
    ensures
        wallet.cancel_recovery_refusal(caller) is Some,
{
}

/// Only one recovery is in flight at a time.
pub proof fn law_one_recovery_at_a_time(
    wallet: WalletView,
    guardian: Address,
    other: Address,
    new_admin: Address,
)
    requires
        wallet.initiate_refusal(guardian) is None,
        wallet.is_guardian(other),
    ensures
        wallet.recovery_initiated(guardian, new_admin).initiate_refusal(other) == Some(
            WalletError::RecoveryAlreadyPending,
        ),
{
}

/// The initiator's approval counts, without starting the timelock, and cannot be
/// given a second time.
pub proof fn law_initiation_is_an_approval(
    wallet: WalletView,
    guardian: Address,
    new_admin: Address,
    ledger: Ledger,
)
    requires
        wallet.guardians_sound(),
        wallet.initiate_refusal(guardian) is None,
    ensures
        wallet.recovery_initiated(guardian, new_admin).recovery->0.approvals == seq![guardian],
        wallet.recovery_initiated(guardian, new_admin).recovery->0.ready_at is None,
        wallet.recovery_initiated(guardian, new_admin).approve_refusal(guardian) == Some(
            WalletError::AlreadyApproved,
        ),
        wallet.recovery_initiated(guardian, new_admin).execute_recovery_refusal(ledger) == Some(
            WalletError::RecoveryNotQuorate,
        ),
{
    let approvals = wallet.recovery_initiated(guardian, new_admin).recovery->0.approvals;
    assert(approvals[0] == guardian);
}

/// A revocation that loses the quorum clears the timelock: the recovery cannot be
/// executed, however late it is.
pub proof fn law_lost_quorum_clears_the_timelock(
    wallet: WalletView,
    guardian: Address,
    ledger: Ledger,
)
    requires
        wallet.recovery_sound(),
        wallet.revoke_refusal(guardian) is None,
        wallet.recovery->0.approvals.len() <= wallet.recovery_config->0.threshold,
    ensures
        wallet.approval_revoked(guardian).recovery->0.ready_at is None,
        wallet.approval_revoked(guardian).execute_recovery_refusal(ledger) == Some(
            WalletError::RecoveryNotQuorate,
        ),
{
    soundness::lemma_without(wallet.recovery->0.approvals, guardian);
}

/// Approving again after a lost quorum starts a timelock of the full delay: the
/// time that ran before does not count.
pub proof fn law_new_quorum_waits_anew(
    wallet: WalletView,
    guardian: Address,
    approved_in: Ledger,
    executed_in: Ledger,
)
    requires
        wallet.recovery_sound(),
        wallet.is_guardian(guardian),
        wallet.admin is Some,
        wallet.revoke_refusal(guardian) is None,
        wallet.recovery->0.approvals.len() == wallet.recovery_config->0.threshold,
    ensures
        ({
            let revoked = wallet.approval_revoked(guardian);
            let again = revoked.recovery_approved(approved_in, guardian);
            let ready_at = approved_in.after(wallet.recovery_config->0.delay_in_ledgers);
            &&& revoked.approve_refusal(guardian) is None
            &&& again.recovery->0.ready_at == Some(ready_at)
            &&& again.execute_recovery_refusal(executed_in) == (if executed_in.sequence < ready_at {
                Some(WalletError::RecoveryNotReady)
            } else {
                None
            })
        }),
{
    soundness::lemma_without(wallet.recovery->0.approvals, guardian);
}

/// Revoking an approval that was just given restores the approvals and keeps the
/// candidate. It restores the timelock, too, if that ran exactly while there was
/// a quorum; it can be otherwise only where the threshold was changed meanwhile.
pub proof fn law_revocation_undoes_approval(wallet: WalletView, ledger: Ledger, guardian: Address)
    requires
        wallet.approve_refusal(guardian) is None,
    ensures
        ({
            let approved = wallet.recovery_approved(ledger, guardian);
            let revoked = approved.approval_revoked(guardian);
            let before = wallet.recovery->0;
            &&& approved.revoke_refusal(guardian) is None
            &&& revoked.recovery is Some
            &&& revoked.recovery->0.approvals == before.approvals
            &&& revoked.recovery->0.new_admin == before.new_admin
            &&& (before.ready_at is Some) == (before.approvals.len()
                >= wallet.recovery_config->0.threshold) ==> revoked.recovery == wallet.recovery
        }),
{
    let before = wallet.recovery->0.approvals;
    let after = before.push(guardian);
    assert(after[before.len() as int] == guardian);
    assert(after.drop_last() =~= before);
    soundness::lemma_without(before, guardian);
    reveal(Seq::filter);
    assert(model::without(after, guardian) == model::without(before, guardian));
}

/// A recovery by `signers`: the first initiates it, the others approve, each in
/// a ledger of their own.
pub open spec fn recovery_by(
    signers: Seq<Address>,
    ledgers: Seq<Ledger>,
    new_admin: Address,
) -> Seq<Request>
    decreases signers.len(),
{
    if signers.len() <= 1 {
        seq![Request::InitiateRecovery { guardian: signers[0], new_admin }]
    } else {
        recovery_by(signers.drop_last(), ledgers.drop_last(), new_admin).push(
            Request::ApproveRecovery { ledger: ledgers.last(), guardian: signers.last() },
        )
    }
}

/// Every signature of a recovery counts, and the one that makes the quorum
/// starts the timelock.
pub proof fn law_signatures_are_collected(
    wallet: WalletView,
    signers: Seq<Address>,
    ledgers: Seq<Ledger>,
    new_admin: Address,
)
    requires
        wallet.guardians_sound(),
        wallet.recovery_config is Some,
        wallet.recovery is None,
        0 < signers.len() == ledgers.len(),
        signers.no_duplicates(),
        forall|i: int| 0 <= i < signers.len() ==> wallet.is_guardian(#[trigger] signers[i]),
    ensures
        ({
            let after = wallet.run(recovery_by(signers, ledgers, new_admin));
            let config = wallet.recovery_config->0;
            &&& after.recovery is Some
            &&& after.recovery->0.new_admin == new_admin
            &&& after.recovery->0.approvals == signers
            &&& after.recovery->0.ready_at == (if signers.len() < config.threshold {
                None
            } else {
                Some(ledgers[config.threshold - 1].after(config.delay_in_ledgers))
            })
            &&& after.recovery_config == wallet.recovery_config
            &&& after.admin == wallet.admin
            &&& after.index() == wallet.index()
        }),
    decreases signers.len(),
{
    let requests = recovery_by(signers, ledgers, new_admin);
    if signers.len() == 1 {
        assert(requests.drop_last() =~= Seq::<Request>::empty());
        assert(wallet.run(requests.drop_last()) == wallet);
        assert(signers =~= seq![signers[0]]);
    } else {
        let earlier = signers.drop_last();
        assert forall|i: int| 0 <= i < earlier.len() implies wallet.is_guardian(
            #[trigger] earlier[i],
        ) by {
            assert(wallet.is_guardian(signers[i]));
        }
        law_signatures_are_collected(wallet, earlier, ledgers.drop_last(), new_admin);
        assert(requests.drop_last() =~= recovery_by(earlier, ledgers.drop_last(), new_admin));
        assert(!earlier.contains(signers.last())) by {
            if earlier.contains(signers.last()) {
                assert(signers[earlier.index_of(signers.last())] == signers[signers.len() - 1]);
            }
        }
        assert(wallet.is_guardian(signers[signers.len() - 1]));
        assert(signers =~= earlier.push(signers.last()));
    }
}

/// As many guardians as the threshold asks for can hand the admin role to
/// whomever they agree on, without the admin: once they have signed and the
/// timelock has elapsed, and not before.
pub proof fn law_quorum_recovers_the_admin_role(
    wallet: WalletView,
    signers: Seq<Address>,
    ledgers: Seq<Ledger>,
    new_admin: Address,
    executed_in: Ledger,
)
    requires
        wallet.guardians_sound(),
        wallet.admin is Some,
        wallet.recovery_config is Some,
        wallet.recovery is None,
        wallet.recovery_config->0.threshold <= signers.len() == ledgers.len(),
        signers.no_duplicates(),
        forall|i: int| 0 <= i < signers.len() ==> wallet.is_guardian(#[trigger] signers[i]),
    ensures
        ({
            let signed = wallet.run(recovery_by(signers, ledgers, new_admin));
            let config = wallet.recovery_config->0;
            let ready_at = ledgers[config.threshold - 1].after(config.delay_in_ledgers);
            let after = signed.step(Request::ExecuteRecovery { ledger: executed_in });
            after.admin == (if executed_in.sequence < ready_at {
                wallet.admin
            } else {
                Some(new_admin)
            })
        }),
{
    law_signatures_are_collected(wallet, signers, ledgers, new_admin);
}

/// A threshold that one guardian meets alone is refused, and so is one that the
/// guardians cannot reach, or any with fewer than three of them.
pub proof fn law_threshold_needs_several_guardians(
    wallet: WalletView,
    admin: Address,
    threshold: u32,
)
    requires
        wallet.admin_refusal(admin) is None,
    ensures
        (wallet.set_recovery_config_refusal(admin, threshold) is None) == {
            &&& wallet.guardians.len() >= 3
            &&& 2 <= threshold <= wallet.guardians.len()
        },
{
}

} // verus!
