//! The balance arithmetic that storage applies atomically when a contribution
//! is settled, a payout moves or a scholarship pool is funded and drawn.

use vstd::prelude::*;

use crate::contributions::{spec_contribution_transition, ContributionTransition, VaultLedgerEntry, VaultLedgerEntryType};
use crate::json::{entry, is_object_of, is_text, key_at, text_value, value_at, JsonEntry, JsonValue};
use crate::payouts::{spec_available, spec_payout_transition, PayoutTransition};
use crate::platform::{new_uuid, now_micros};
use crate::records::{Contribution, PayoutRequest};
use crate::repos::PersistenceError;
use crate::status::{ContributionStatus, PayoutStatus};
use crate::text::{opt_str_view, opt_view, owned};

verus! {

/// The running totals of a savings vault.
#[derive(Clone, Copy, Debug, PartialEq, Eq, Structural)]
pub struct VaultBalances {
    pub total_contributed_minor: i64,
    pub total_locked_minor: i64,
    pub total_disbursed_minor: i64,
    pub version: i64,
}

impl VaultBalances {
    /// Funds neither locked for approved payouts nor disbursed.
    pub open spec fn available(self) -> int {
        spec_available(
            self.total_contributed_minor as int,
            self.total_locked_minor as int,
            self.total_disbursed_minor as int,
        )
    }
}

/// What settling a contribution does to its vault.
pub open spec fn spec_settlement(
    vault: VaultBalances,
    current: ContributionStatus,
    target: ContributionStatus,
    amount_minor: i64,
) -> Result<(VaultBalances, Option<VaultLedgerEntryType>), ()> {
    if current == target {
        Ok((vault, None))
    } else if target == ContributionStatus::Confirmed {
        Ok(
            (
                VaultBalances {
                    total_contributed_minor: (vault.total_contributed_minor + amount_minor) as i64,
                    version: (vault.version + 1) as i64,
                    ..vault
                },
                Some(VaultLedgerEntryType::ContributionConfirmed),
            ),
        )
    } else if target == ContributionStatus::Reversed {
        if vault.total_contributed_minor < amount_minor {
            Err(())
        } else {
            Ok(
                (
                    VaultBalances {
                        total_contributed_minor: (vault.total_contributed_minor - amount_minor) as i64,
                        version: (vault.version + 1) as i64,
                        ..vault
                    },
                    Some(VaultLedgerEntryType::ContributionReversed),
                ),
            )
        }
    } else {
        Ok((vault, None))
    }
}

/// Settles a contribution of `amount_minor` from `current` to `target` status
/// against its vault: a confirmation adds the amount to the vault's total and
/// records a ledger entry, a reversal takes it back (refused when the total
/// would become negative), other moves leave the vault alone, and settling to
/// the status the contribution already has changes nothing.
pub fn settle_contribution_totals(
    vault: VaultBalances,
    current: ContributionStatus,
    target: ContributionStatus,
    amount_minor: i64,
) -> (r: Result<(VaultBalances, Option<VaultLedgerEntryType>), PersistenceError>)
    requires
        current != target && target == ContributionStatus::Confirmed ==> i64::MIN
            <= vault.total_contributed_minor + amount_minor <= i64::MAX,
        current != target && target == ContributionStatus::Reversed ==> i64::MIN
            <= vault.total_contributed_minor - amount_minor <= i64::MAX,
        vault.version < i64::MAX,
    ensures
        match spec_settlement(vault, current, target, amount_minor) {
            Ok(v) => r == Ok::<(VaultBalances, Option<VaultLedgerEntryType>), PersistenceError>(v),
            Err(_) => r matches Err(e) && e matches PersistenceError::Conflict(m) && m@
                == "vault balance would become negative"@,
        },
{
    if current == target {
        return Ok((vault, None));
    }
    match target {
        ContributionStatus::Confirmed => Ok(
            (
                VaultBalances {
                    total_contributed_minor: vault.total_contributed_minor + amount_minor,
                    version: vault.version + 1,
                    ..vault
                },
                Some(VaultLedgerEntryType::ContributionConfirmed),
            ),
        ),
        ContributionStatus::Reversed => {
            if vault.total_contributed_minor < amount_minor {
                return Err(PersistenceError::Conflict(owned("vault balance would become negative")));
            }
            Ok(
                (
                    VaultBalances {
                        total_contributed_minor: vault.total_contributed_minor - amount_minor,
                        version: vault.version + 1,
                        ..vault
                    },
                    Some(VaultLedgerEntryType::ContributionReversed),
                ),
            )
        },
        _ => Ok((vault, None)),
    }
}

/// The ledger entry that records a settled contribution: who settled it, its
/// amount and reference, the vault's total after the settlement, and the
/// contribution's new status as metadata.
pub fn ledger_entry_for(
    vault_id: u128,
    balance_after_minor: i64,
    contribution: &Contribution,
    actor_user_id: u128,
    entry_type: VaultLedgerEntryType,
) -> (e: VaultLedgerEntry)
    ensures
        e.vault_id == vault_id,
        e.contribution_id == Some(contribution.id),
        e.actor_user_id == Some(actor_user_id),
        e.entry_type == entry_type,
        e.amount == contribution.amount,
        e.balance_after_minor == balance_after_minor,
        opt_view(e.external_reference) == opt_view(contribution.external_reference),
        e.created_at == e.updated_at,
        is_object_of(e.metadata, 1),
        key_at(e.metadata, 0) == "contribution_status"@,
        is_text(value_at(e.metadata, 0), contribution.status.spec_text()),
{
    let external_reference = match &contribution.external_reference {
        Some(r) => Some(owned(r.as_str())),
        None => None,
    };
    let mut metadata: Vec<JsonEntry> = Vec::new();
    metadata.push(entry("contribution_status", text_value(contribution.status.as_str())));
    let now = now_micros();
    VaultLedgerEntry {
        id: new_uuid(),
        vault_id,
        contribution_id: Some(contribution.id),
        actor_user_id: Some(actor_user_id),
        entry_type,
        amount: contribution.amount.duplicate(),
        balance_after_minor,
        external_reference,
        metadata: JsonValue::Object(metadata),
        created_at: now,
        updated_at: now,
    }
}

/// A stored text replaced by a new one where one is given, kept otherwise.
pub open spec fn spec_coalesce(given: Option<Seq<char>>, stored: Option<Seq<char>>) -> Option<Seq<char>> {
    match given {
        Some(t) => Some(t),
        None => stored,
    }
}

fn coalesce_text(given: Option<&str>, stored: Option<String>) -> (r: Option<String>)
    ensures
        opt_view(r) == spec_coalesce(opt_str_view(given), opt_view(stored)),
{
    match given {
        Some(t) => Some(owned(t)),
        None => stored,
    }
}

/// The contribution as a settlement stores it at `now`: the new status, and
/// the payment reference where one is given (the earlier one kept otherwise).
pub fn settled_contribution(
    contribution: Contribution,
    target: ContributionStatus,
    external_reference: Option<&str>,
    now: i64,
) -> (c: Contribution)
    ensures
        c == (Contribution {
            status: target,
            external_reference: c.external_reference,
            updated_at: now,
            ..contribution
        }),
        opt_view(c.external_reference) == spec_coalesce(
            opt_str_view(external_reference),
            opt_view(contribution.external_reference),
        ),
{
    let external_reference = coalesce_text(external_reference, contribution.external_reference);
    Contribution { status: target, external_reference, updated_at: now, ..contribution }
}

/// The payout as a review step stores it at `now`: the new status, the notes
/// and payment reference where given (earlier ones kept otherwise), and the
/// user who reviewed it with the time of the review.
pub fn reviewed_payout(
    payout: PayoutRequest,
    target: PayoutStatus,
    review_notes: Option<&str>,
    external_payout_reference: Option<&str>,
    reviewed_by_user_id: u128,
    now: i64,
) -> (p: PayoutRequest)
    ensures
        p == (PayoutRequest {
            status: target,
            review_notes: p.review_notes,
            external_payout_reference: p.external_payout_reference,
            reviewed_by: Some(reviewed_by_user_id),
            reviewed_at: Some(now),
            updated_at: now,
            ..payout
        }),
        opt_view(p.review_notes) == spec_coalesce(opt_str_view(review_notes), opt_view(payout.review_notes)),
        opt_view(p.external_payout_reference) == spec_coalesce(
            opt_str_view(external_payout_reference),
            opt_view(payout.external_payout_reference),
        ),
{
    let notes = coalesce_text(review_notes, payout.review_notes);
    let reference = coalesce_text(external_payout_reference, payout.external_payout_reference);
    PayoutRequest {
        status: target,
        review_notes: notes,
        external_payout_reference: reference,
        reviewed_by: Some(reviewed_by_user_id),
        reviewed_at: Some(now),
        updated_at: now,
        ..payout
    }
}

/// Confirming a pending contribution and then reversing it gives back the
/// vault's earlier total, and each step records one ledger entry.
pub proof fn lemma_confirm_then_reverse_restores(vault: VaultBalances, amount_minor: i64)
    requires
        vault.total_contributed_minor + amount_minor <= i64::MAX,
        vault.total_contributed_minor >= 0,
        vault.version < i64::MAX - 1,
        amount_minor >= 0,
    ensures
        ({
            let s1 = spec_settlement(vault, ContributionStatus::Pending, ContributionStatus::Confirmed, amount_minor);
            let s2 = spec_settlement(s1->Ok_0.0, ContributionStatus::Confirmed, ContributionStatus::Reversed, amount_minor);
            &&& s1 is Ok
            &&& s1->Ok_0.1 == Some(VaultLedgerEntryType::ContributionConfirmed)
            &&& s2 is Ok
            &&& s2->Ok_0.1 == Some(VaultLedgerEntryType::ContributionReversed)
            &&& s2->Ok_0.0.total_contributed_minor == vault.total_contributed_minor
            &&& s2->Ok_0.0.total_locked_minor == vault.total_locked_minor
            &&& s2->Ok_0.0.total_disbursed_minor == vault.total_disbursed_minor
        }),
{
}

/// Settling a contribution to the status it already has changes nothing and
/// records no ledger entry, so a repeated confirmation counts once.
pub proof fn lemma_settlement_idempotent(vault: VaultBalances, status: ContributionStatus, amount_minor: i64)
    ensures
        spec_settlement(vault, status, status, amount_minor) == Ok::<
            (VaultBalances, Option<VaultLedgerEntryType>),
            (),
        >((vault, None)),
{
}

/// Settlement never touches the locked or disbursed totals.
pub proof fn lemma_settlement_keeps_payout_totals(
    vault: VaultBalances,
    current: ContributionStatus,
    target: ContributionStatus,
    amount_minor: i64,
)
    ensures
        spec_settlement(vault, current, target, amount_minor) is Ok ==> ({
            let v = spec_settlement(vault, current, target, amount_minor)->Ok_0.0;
            v.total_locked_minor == vault.total_locked_minor && v.total_disbursed_minor
                == vault.total_disbursed_minor
        }),
{
}

/// What a payout transition does to its vault.
pub open spec fn spec_payout_effect(
    vault: VaultBalances,
    current: PayoutStatus,
    target: PayoutStatus,
    amount_minor: i64,
) -> Result<VaultBalances, ()> {
    if current == target {
        Ok(vault)
    } else if target == PayoutStatus::Approved {
        Ok(
            VaultBalances {
                total_locked_minor: (vault.total_locked_minor + amount_minor) as i64,
                version: (vault.version + 1) as i64,
                ..vault
            },
        )
    } else if target == PayoutStatus::Completed {
        if vault.total_locked_minor < amount_minor {
            Err(())
        } else {
            Ok(
                VaultBalances {
                    total_locked_minor: (vault.total_locked_minor - amount_minor) as i64,
                    total_disbursed_minor: (vault.total_disbursed_minor + amount_minor) as i64,
                    version: (vault.version + 1) as i64,
                    ..vault
                },
            )
        }
    } else if target == PayoutStatus::Failed && vault.total_locked_minor >= amount_minor {
        Ok(
            VaultBalances {
                total_locked_minor: (vault.total_locked_minor - amount_minor) as i64,
                version: (vault.version + 1) as i64,
                ..vault
            },
        )
    } else {
        Ok(vault)
    }
}

/// Moves a payout of `amount_minor` from `current` to `target` status against
/// its vault: approval locks the amount, completion moves it from locked to
/// disbursed (refused when less is locked), failure releases the lock when it
/// is held, other moves leave the vault alone, and a move to the status the
/// payout already has changes nothing.
pub fn apply_payout_totals(
    vault: VaultBalances,
    current: PayoutStatus,
    target: PayoutStatus,
    amount_minor: i64,
) -> (r: Result<VaultBalances, PersistenceError>)
    requires
        current != target && target == PayoutStatus::Approved ==> i64::MIN
            <= vault.total_locked_minor + amount_minor <= i64::MAX,
        current != target && target == PayoutStatus::Completed ==> i64::MIN
            <= vault.total_disbursed_minor + amount_minor <= i64::MAX && i64::MIN
            <= vault.total_locked_minor - amount_minor <= i64::MAX,
        current != target && target == PayoutStatus::Failed ==> i64::MIN
            <= vault.total_locked_minor - amount_minor <= i64::MAX,
        vault.version < i64::MAX,
    ensures
        match spec_payout_effect(vault, current, target, amount_minor) {
            Ok(v) => r == Ok::<VaultBalances, PersistenceError>(v),
            Err(_) => r matches Err(e) && e matches PersistenceError::Conflict(m) && m@
                == "vault locked balance underflow"@,
        },
{
    if current == target {
        return Ok(vault);
    }
    match target {
        PayoutStatus::Approved => Ok(
            VaultBalances {
                total_locked_minor: vault.total_locked_minor + amount_minor,
                version: vault.version + 1,
                ..vault
            },
        ),
        PayoutStatus::Completed => {
            if vault.total_locked_minor < amount_minor {
                return Err(PersistenceError::Conflict(owned("vault locked balance underflow")));
            }
            Ok(
                VaultBalances {
                    total_locked_minor: vault.total_locked_minor - amount_minor,
                    total_disbursed_minor: vault.total_disbursed_minor + amount_minor,
                    version: vault.version + 1,
                    ..vault
                },
            )
        },
        PayoutStatus::Failed => {
            if vault.total_locked_minor >= amount_minor {
                Ok(
                    VaultBalances {
                        total_locked_minor: vault.total_locked_minor - amount_minor,
                        version: vault.version + 1,
                        ..vault
                    },
                )
            } else {
                Ok(vault)
            }
        },
        _ => Ok(vault),
    }
}

/// Only approval, completion and failure touch a vault: a payout moved to any
/// other status (review, rejection, processing, or back to pending) leaves the
/// vault's totals and version exactly as they were, and no payout move ever
/// changes what was contributed.
pub proof fn lemma_other_payout_moves_leave_vault(
    vault: VaultBalances,
    current: PayoutStatus,
    target: PayoutStatus,
    amount_minor: i64,
)
    ensures
        target != PayoutStatus::Approved && target != PayoutStatus::Completed && target != PayoutStatus::Failed
            ==> spec_payout_effect(vault, current, target, amount_minor) == Ok::<VaultBalances, ()>(vault),
        spec_payout_effect(vault, current, target, amount_minor) matches Ok(v) ==> v.total_contributed_minor
            == vault.total_contributed_minor,
{
}

/// A payout that is approved, processed and completed ends with its amount
/// disbursed, nothing of it locked, and the vault's contributions untouched.
pub proof fn lemma_payout_lifecycle_disburses(vault: VaultBalances, amount_minor: i64)
    requires
        0 <= amount_minor,
        0 <= vault.total_locked_minor,
        vault.total_locked_minor + amount_minor <= i64::MAX,
        vault.total_disbursed_minor + amount_minor <= i64::MAX,
        vault.version < i64::MAX - 2,
    ensures
        ({
            let s1 = spec_payout_effect(vault, PayoutStatus::UnderReview, PayoutStatus::Approved, amount_minor);
            let s2 = spec_payout_effect(s1->Ok_0, PayoutStatus::Approved, PayoutStatus::Processing, amount_minor);
            let s3 = spec_payout_effect(s2->Ok_0, PayoutStatus::Processing, PayoutStatus::Completed, amount_minor);
            &&& s1 is Ok && s2 is Ok && s3 is Ok
            &&& s3->Ok_0.total_locked_minor == vault.total_locked_minor
            &&& s3->Ok_0.total_disbursed_minor == vault.total_disbursed_minor + amount_minor
            &&& s3->Ok_0.total_contributed_minor == vault.total_contributed_minor
            &&& s3->Ok_0.available() == vault.available() - amount_minor
        }),
{
}

/// A payout that is approved and then fails gives its lock back.
pub proof fn lemma_failed_payout_releases_lock(vault: VaultBalances, amount_minor: i64)
    requires
        0 <= amount_minor,
        0 <= vault.total_locked_minor,
        vault.total_locked_minor + amount_minor <= i64::MAX,
        vault.version < i64::MAX - 2,
    ensures
        ({
            let s1 = spec_payout_effect(vault, PayoutStatus::UnderReview, PayoutStatus::Approved, amount_minor);
            let s2 = spec_payout_effect(s1->Ok_0, PayoutStatus::Approved, PayoutStatus::Processing, amount_minor);
            let s3 = spec_payout_effect(s2->Ok_0, PayoutStatus::Processing, PayoutStatus::Failed, amount_minor);
            &&& s1 is Ok && s2 is Ok && s3 is Ok
            &&& s3->Ok_0.total_locked_minor == vault.total_locked_minor
            &&& s3->Ok_0.total_disbursed_minor == vault.total_disbursed_minor
            &&& s3->Ok_0.available() == vault.available()
        }),
{
}

/// An approval that passed the available-funds check leaves the vault with
/// non-negative available funds.
pub proof fn lemma_approval_keeps_funds_available(vault: VaultBalances, amount_minor: i64)
    requires
        amount_minor <= vault.available(),
        i64::MIN <= vault.total_locked_minor + amount_minor <= i64::MAX,
        vault.version < i64::MAX,
    ensures
        ({
            let s1 = spec_payout_effect(vault, PayoutStatus::UnderReview, PayoutStatus::Approved, amount_minor);
            &&& s1 is Ok
            &&& s1->Ok_0.available() >= 0
            &&& s1->Ok_0.available() == vault.available() - amount_minor
        }),
{
}

/// Confirming a pending contribution twice settles it once: the first
/// confirmation moves it to confirmed, adds its amount to the vault and records
/// one ledger entry; the second finds it confirmed and changes nothing.
pub proof fn lemma_confirming_twice_settles_once(vault: VaultBalances, amount_minor: i64)
    requires
        vault.total_contributed_minor + amount_minor <= i64::MAX,
        i64::MIN <= vault.total_contributed_minor + amount_minor,
        vault.version < i64::MAX,
    ensures
        spec_contribution_transition(ContributionStatus::Pending, ContributionTransition::Confirm)
            == Ok::<ContributionStatus, crate::contributions::ContributionRuleViolation>(ContributionStatus::Confirmed),
        ({
            let first = spec_settlement(vault, ContributionStatus::Pending, ContributionStatus::Confirmed, amount_minor);
            &&& first matches Ok((v1, Some(e))) && e == VaultLedgerEntryType::ContributionConfirmed
            &&& first->Ok_0.0.total_contributed_minor == vault.total_contributed_minor + amount_minor
            &&& spec_contribution_transition(ContributionStatus::Confirmed, ContributionTransition::Confirm)
                == Ok::<ContributionStatus, crate::contributions::ContributionRuleViolation>(ContributionStatus::Confirmed)
            &&& spec_settlement(first->Ok_0.0, ContributionStatus::Confirmed, ContributionStatus::Confirmed, amount_minor)
                == Ok::<(VaultBalances, Option<VaultLedgerEntryType>), ()>((first->Ok_0.0, None))
        }),
{
}

/// A pending payout is approved only after review: moving it to review leaves
/// the vault alone, approving it then locks its amount, and approving it
/// straight from pending is refused.
pub proof fn lemma_review_then_approve_locks(vault: VaultBalances, amount_minor: i64)
    requires
        i64::MIN <= vault.total_locked_minor + amount_minor <= i64::MAX,
        vault.version < i64::MAX,
    ensures
        spec_payout_transition(PayoutStatus::Pending, PayoutTransition::Approve) is Err,
        spec_payout_transition(PayoutStatus::Pending, PayoutTransition::MoveToReview)
            == Ok::<PayoutStatus, crate::payouts::PayoutRuleViolation>(PayoutStatus::UnderReview),
        spec_payout_effect(vault, PayoutStatus::Pending, PayoutStatus::UnderReview, amount_minor)
            == Ok::<VaultBalances, ()>(vault),
        spec_payout_transition(PayoutStatus::UnderReview, PayoutTransition::Approve)
            == Ok::<PayoutStatus, crate::payouts::PayoutRuleViolation>(PayoutStatus::Approved),
        spec_payout_effect(vault, PayoutStatus::UnderReview, PayoutStatus::Approved, amount_minor)
            == Ok::<VaultBalances, ()>(VaultBalances {
                total_locked_minor: (vault.total_locked_minor + amount_minor) as i64,
                version: (vault.version + 1) as i64,
                ..vault
            }),
{
}

/// A scholarship pool's balance after a donation of `amount`.
pub open spec fn spec_pool_after_funding(available: int, amount: int) -> int {
    available + amount
}

/// A scholarship pool's balance after an award of `amount` is approved.
pub open spec fn spec_pool_after_approval(available: int, amount: int) -> int {
    available - amount
}

/// A scholarship pool's balance after an award of `amount` is revoked.
pub open spec fn spec_pool_after_revocation(available: int, amount: int) -> int {
    available + amount
}

/// The new balance of a scholarship pool after a donation.
pub fn pool_balance_after_funding(available_minor: i64, amount_minor: i64) -> (r: i64)
    requires
        i64::MIN <= available_minor + amount_minor <= i64::MAX,
    ensures
        r == spec_pool_after_funding(available_minor as int, amount_minor as int),
{
    available_minor + amount_minor
}

/// The new balance of a scholarship pool after an award is approved.
pub fn pool_balance_after_approval(available_minor: i64, amount_minor: i64) -> (r: i64)
    requires
        i64::MIN <= available_minor - amount_minor <= i64::MAX,
    ensures
        r == spec_pool_after_approval(available_minor as int, amount_minor as int),
{
    available_minor - amount_minor
}

/// The new balance of a scholarship pool after an award is revoked: the award returns to it.
pub fn pool_balance_after_revocation(available_minor: i64, award_minor: i64) -> (r: i64)
    requires
        i64::MIN <= available_minor + award_minor <= i64::MAX,
    ensures
        r == spec_pool_after_revocation(available_minor as int, award_minor as int),
{
    available_minor + award_minor
}

/// Approving an award and then revoking it gives the pool back its balance,
/// and an approval that passed the balance check never leaves the pool short.
pub proof fn lemma_revocation_restores_pool(available: int, amount: int)
    requires
        0 <= amount <= available,
    ensures
        spec_pool_after_revocation(spec_pool_after_approval(available, amount), amount) == available,
        spec_pool_after_approval(available, amount) >= 0,
{
}

/// A donation followed by an approval of the same amount leaves the pool as it was.
pub proof fn lemma_funding_then_award_of_same_amount(available: int, amount: int)
    ensures
        spec_pool_after_approval(spec_pool_after_funding(available, amount), amount) == available,
{
}

} // verus!
