//! Payout requests from a vault to a school: who may request and review them,
//! what makes them payable and which review transitions are allowed.

use vstd::prelude::*;

use crate::audit::AuditEvent;
use crate::auth::{AuthenticatedUser, UserRole};
use crate::json::{
    entry, int_value, is_int, is_object_of, is_text, is_uuid, key_at, text_value, uuid_value,
    value_at, JsonEntry, JsonValue,
};
use crate::platform::{new_uuid, now_micros};
use crate::records::{AuditLog, Milestone, PayoutRequest, SavingsVault, School};
use crate::repos::PersistenceError;
use crate::shared::{Currency, Money};
use crate::status::{MilestoneStatus, PayoutStatus, SchoolVerificationStatus};
use crate::text::{is_blank, owned, push_text, str_eq, trim};

verus! {

/// A review or settlement step of a payout request.
#[derive(Clone, Copy, Debug, PartialEq, Eq, Structural)]
pub enum PayoutTransition {
    MoveToReview,
    Approve,
    Reject,
    MarkProcessing,
    Complete,
    Fail,
}

impl PayoutTransition {
    pub open spec fn spec_target(self) -> PayoutStatus {
        match self {
            PayoutTransition::MoveToReview => PayoutStatus::UnderReview,
            PayoutTransition::Approve => PayoutStatus::Approved,
            PayoutTransition::Reject => PayoutStatus::Rejected,
            PayoutTransition::MarkProcessing => PayoutStatus::Processing,
            PayoutTransition::Complete => PayoutStatus::Completed,
            PayoutTransition::Fail => PayoutStatus::Failed,
        }
    }

    /// The status that this step leads to.
    pub fn target_status(self) -> (s: PayoutStatus)
        ensures
            s == self.spec_target(),
    {
        match self {
            PayoutTransition::MoveToReview => PayoutStatus::UnderReview,
            PayoutTransition::Approve => PayoutStatus::Approved,
            PayoutTransition::Reject => PayoutStatus::Rejected,
            PayoutTransition::MarkProcessing => PayoutStatus::Processing,
            PayoutTransition::Complete => PayoutStatus::Completed,
            PayoutTransition::Fail => PayoutStatus::Failed,
        }
    }
}

/// Rules of payouts that a request broke.
#[derive(Clone, Copy, Debug, PartialEq, Eq, Structural)]
pub enum PayoutRuleViolation {
    AmountMustBePositive,
    UnauthorizedRequester,
    UnauthorizedReviewer,
    SchoolNotVerified,
    MilestoneDoesNotBelongToVault,
    MilestoneNotPayable,
    CurrencyMismatch,
    InsufficientAvailableFunds,
    InvalidStatusTransition { from: PayoutStatus, to: PayoutStatus },
}

impl PayoutRuleViolation {
    pub open spec fn spec_message(&self) -> Seq<char> {
        match self {
            PayoutRuleViolation::AmountMustBePositive => "payout amount must be positive"@,
            PayoutRuleViolation::UnauthorizedRequester => "user cannot request payout"@,
            PayoutRuleViolation::UnauthorizedReviewer => "user cannot review payout"@,
            PayoutRuleViolation::SchoolNotVerified => "school is not verified"@,
            PayoutRuleViolation::MilestoneDoesNotBelongToVault => "milestone does not belong to the specified vault"@,
            PayoutRuleViolation::MilestoneNotPayable => "milestone is not payable in its current state"@,
            PayoutRuleViolation::CurrencyMismatch => "payout currency must match vault currency"@,
            PayoutRuleViolation::InsufficientAvailableFunds => "vault has insufficient available funds"@,
            PayoutRuleViolation::InvalidStatusTransition { from, to } => "invalid payout transition from "@
                + from.spec_text() + " to "@ + to.spec_text(),
        }
    }

    /// The text shown for this violation.
    pub fn message(&self) -> (m: String)
        ensures
            m@ == self.spec_message(),
    {
        match self {
            PayoutRuleViolation::AmountMustBePositive => owned("payout amount must be positive"),
            PayoutRuleViolation::UnauthorizedRequester => owned("user cannot request payout"),
            PayoutRuleViolation::UnauthorizedReviewer => owned("user cannot review payout"),
            PayoutRuleViolation::SchoolNotVerified => owned("school is not verified"),
            PayoutRuleViolation::MilestoneDoesNotBelongToVault => owned("milestone does not belong to the specified vault"),
            PayoutRuleViolation::MilestoneNotPayable => owned("milestone is not payable in its current state"),
            PayoutRuleViolation::CurrencyMismatch => owned("payout currency must match vault currency"),
            PayoutRuleViolation::InsufficientAvailableFunds => owned("vault has insufficient available funds"),
            PayoutRuleViolation::InvalidStatusTransition { from, to } => {
                let mut s = owned("invalid payout transition from ");
                push_text(&mut s, from.as_str());
                push_text(&mut s, " to ");
                push_text(&mut s, to.as_str());
                s
            },
        }
    }
}

/// Only parents request payouts.
pub fn validate_requester_role(role: UserRole) -> (r: Result<(), PayoutRuleViolation>)
    ensures
        r is Ok <==> role == UserRole::Parent,
        r matches Err(e) ==> e == PayoutRuleViolation::UnauthorizedRequester,
{
    if role == UserRole::Parent {
        return Ok(());
    }
    Err(PayoutRuleViolation::UnauthorizedRequester)
}

/// Only platform administrators review payouts.
pub fn validate_reviewer_role(role: UserRole) -> (r: Result<(), PayoutRuleViolation>)
    ensures
        r is Ok <==> role == UserRole::PlatformAdmin,
        r matches Err(e) ==> e == PayoutRuleViolation::UnauthorizedReviewer,
{
    if role == UserRole::PlatformAdmin {
        return Ok(());
    }
    Err(PayoutRuleViolation::UnauthorizedReviewer)
}

/// Payouts go only to verified schools.
pub fn validate_school_verified(status: SchoolVerificationStatus) -> (r: Result<(), PayoutRuleViolation>)
    ensures
        r is Ok <==> status == SchoolVerificationStatus::Verified,
        r matches Err(e) ==> e == PayoutRuleViolation::SchoolNotVerified,
{
    if status == SchoolVerificationStatus::Verified {
        return Ok(());
    }
    Err(PayoutRuleViolation::SchoolNotVerified)
}

/// A payout must move a positive amount.
pub fn validate_payout_amount(amount_minor: i64) -> (r: Result<(), PayoutRuleViolation>)
    ensures
        r is Ok <==> amount_minor > 0,
        r matches Err(e) ==> e == PayoutRuleViolation::AmountMustBePositive,
{
    if amount_minor <= 0 {
        return Err(PayoutRuleViolation::AmountMustBePositive);
    }
    Ok(())
}

/// A payout must be in the vault's currency.
pub fn validate_currency_match(payout_currency: &str, vault_currency: &str) -> (r: Result<
    (),
    PayoutRuleViolation,
>)
    ensures
        r is Ok <==> payout_currency@ == vault_currency@,
        r matches Err(e) ==> e == PayoutRuleViolation::CurrencyMismatch,
{
    if str_eq(payout_currency, vault_currency) {
        return Ok(());
    }
    Err(PayoutRuleViolation::CurrencyMismatch)
}

/// The milestone of a payout must belong to the payout's vault.
pub fn validate_milestone_association(milestone_vault_id: u128, requested_vault_id: u128) -> (r:
    Result<(), PayoutRuleViolation>)
    ensures
        r is Ok <==> milestone_vault_id == requested_vault_id,
        r matches Err(e) ==> e == PayoutRuleViolation::MilestoneDoesNotBelongToVault,
{
    if milestone_vault_id == requested_vault_id {
        return Ok(());
    }
    Err(PayoutRuleViolation::MilestoneDoesNotBelongToVault)
}

/// Milestones that can still be paid: planned, funded or partially paid.
pub open spec fn spec_milestone_payable(status: MilestoneStatus) -> bool {
    status == MilestoneStatus::Planned || status == MilestoneStatus::Funded || status
        == MilestoneStatus::PartiallyPaid
}

pub fn validate_milestone_payable(status: MilestoneStatus) -> (r: Result<(), PayoutRuleViolation>)
    ensures
        r is Ok <==> spec_milestone_payable(status),
        r matches Err(e) ==> e == PayoutRuleViolation::MilestoneNotPayable,
{
    match status {
        MilestoneStatus::Planned | MilestoneStatus::Funded | MilestoneStatus::PartiallyPaid => Ok(()),
        _ => Err(PayoutRuleViolation::MilestoneNotPayable),
    }
}

/// Funds of a vault that are neither locked for approved payouts nor disbursed.
pub open spec fn spec_available(contributed: int, locked: int, disbursed: int) -> int {
    contributed - locked - disbursed
}

/// A payout may not exceed the vault's available funds.
pub fn ensure_available_funds(
    total_contributed_minor: i64,
    total_locked_minor: i64,
    total_disbursed_minor: i64,
    payout_amount_minor: i64,
) -> (r: Result<(), PayoutRuleViolation>)
    requires
        i64::MIN <= total_contributed_minor - total_locked_minor <= i64::MAX,
        i64::MIN <= total_contributed_minor - total_locked_minor - total_disbursed_minor
            <= i64::MAX,
    ensures
        r is Ok <==> payout_amount_minor <= spec_available(
            total_contributed_minor as int,
            total_locked_minor as int,
            total_disbursed_minor as int,
        ),
        r matches Err(e) ==> e == PayoutRuleViolation::InsufficientAvailableFunds,
{
    let available = total_contributed_minor - total_locked_minor - total_disbursed_minor;
    if available >= payout_amount_minor {
        return Ok(());
    }
    Err(PayoutRuleViolation::InsufficientAvailableFunds)
}

/// The review moves that change a payout's status.
pub open spec fn spec_payout_step_allowed(from: PayoutStatus, to: PayoutStatus) -> bool {
    (from == PayoutStatus::Pending && to == PayoutStatus::UnderReview) || (from
        == PayoutStatus::Pending && to == PayoutStatus::Rejected) || (from
        == PayoutStatus::UnderReview && to == PayoutStatus::Approved) || (from
        == PayoutStatus::UnderReview && to == PayoutStatus::Rejected) || (from
        == PayoutStatus::Approved && to == PayoutStatus::Processing) || (from
        == PayoutStatus::Processing && to == PayoutStatus::Completed) || (from
        == PayoutStatus::Processing && to == PayoutStatus::Failed)
}

/// The outcome of a review step: the target status when the move is allowed or
/// the payout is already there, a violation otherwise.
pub open spec fn spec_payout_transition(current: PayoutStatus, transition: PayoutTransition) -> Result<
    PayoutStatus,
    PayoutRuleViolation,
> {
    let target = transition.spec_target();
    if spec_payout_step_allowed(current, target) || current == target {
        Ok(target)
    } else {
        Err(PayoutRuleViolation::InvalidStatusTransition { from: current, to: target })
    }
}

pub fn validate_transition(current: PayoutStatus, transition: PayoutTransition) -> (r: Result<
    PayoutStatus,
    PayoutRuleViolation,
>)
    ensures
        r == spec_payout_transition(current, transition),
{
    let target = transition.target_status();
    match (current, target) {
        (PayoutStatus::Pending, PayoutStatus::UnderReview)
        | (PayoutStatus::Pending, PayoutStatus::Rejected)
        | (PayoutStatus::UnderReview, PayoutStatus::Approved)
        | (PayoutStatus::UnderReview, PayoutStatus::Rejected)
        | (PayoutStatus::Approved, PayoutStatus::Processing)
        | (PayoutStatus::Processing, PayoutStatus::Completed)
        | (PayoutStatus::Processing, PayoutStatus::Failed) => Ok(target),
        (from, to) => {
            if from == to {
                Ok(to)
            } else {
                Err(PayoutRuleViolation::InvalidStatusTransition { from, to })
            }
        },
    }
}

/// Repeating a review step that succeeded is accepted and changes nothing.
pub proof fn lemma_payout_transition_idempotent(current: PayoutStatus, transition: PayoutTransition)
    requires
        spec_payout_transition(current, transition) is Ok,
    ensures
        spec_payout_transition(spec_payout_transition(current, transition)->Ok_0, transition)
            == spec_payout_transition(current, transition),
{
}

/// The payout lifecycle is open end to end: a pending payout is moved to
/// review or rejected, one under review is approved or rejected, an approved
/// one is marked processing, and a processing one is completed or fails; each
/// of these moves gives exactly its target status, and any accepted step ends
/// in the status the step names.
pub proof fn lemma_payout_lifecycle_moves(current: PayoutStatus, transition: PayoutTransition)
    ensures
        spec_payout_transition(PayoutStatus::Pending, PayoutTransition::MoveToReview)
            == Ok::<PayoutStatus, PayoutRuleViolation>(PayoutStatus::UnderReview),
        spec_payout_transition(PayoutStatus::Pending, PayoutTransition::Reject)
            == Ok::<PayoutStatus, PayoutRuleViolation>(PayoutStatus::Rejected),
        spec_payout_transition(PayoutStatus::UnderReview, PayoutTransition::Approve)
            == Ok::<PayoutStatus, PayoutRuleViolation>(PayoutStatus::Approved),
        spec_payout_transition(PayoutStatus::UnderReview, PayoutTransition::Reject)
            == Ok::<PayoutStatus, PayoutRuleViolation>(PayoutStatus::Rejected),
        spec_payout_transition(PayoutStatus::Approved, PayoutTransition::MarkProcessing)
            == Ok::<PayoutStatus, PayoutRuleViolation>(PayoutStatus::Processing),
        spec_payout_transition(PayoutStatus::Processing, PayoutTransition::Complete)
            == Ok::<PayoutStatus, PayoutRuleViolation>(PayoutStatus::Completed),
        spec_payout_transition(PayoutStatus::Processing, PayoutTransition::Fail)
            == Ok::<PayoutStatus, PayoutRuleViolation>(PayoutStatus::Failed),
        spec_payout_transition(current, transition) matches Ok(s) ==> s == transition.spec_target(),
        spec_payout_transition(current, transition) matches Err(v) ==> v
            == (PayoutRuleViolation::InvalidStatusTransition { from: current, to: transition.spec_target() }),
{
}

/// Rejected, completed and failed payouts are final.
pub proof fn lemma_payout_final_states(current: PayoutStatus, transition: PayoutTransition)
    requires
        current == PayoutStatus::Rejected || current == PayoutStatus::Completed || current
            == PayoutStatus::Failed,
    ensures
        spec_payout_transition(current, transition) is Ok <==> transition.spec_target() == current,
{
}

/// A payout is approved only out of review (or when it already is approved).
pub proof fn lemma_payout_approval_needs_review(current: PayoutStatus)
    ensures
        spec_payout_transition(current, PayoutTransition::Approve) is Ok <==> (current
            == PayoutStatus::UnderReview || current == PayoutStatus::Approved),
{
}



/// Failures of the payout services.
#[derive(Debug)]
pub enum PayoutError {
    Validation(String),
    Forbidden,
    NotFound,
    Conflict(String),
    Repository(String),
}

/// `e` is the service error for the violation `v`: authorization failures
/// are forbidden; refused transitions, missing funds and unverified schools
/// are conflicts; the rest are validation failures.
pub open spec fn spec_payout_error_for(v: PayoutRuleViolation, e: PayoutError) -> bool {
    match v {
        PayoutRuleViolation::UnauthorizedRequester | PayoutRuleViolation::UnauthorizedReviewer => e is Forbidden,
        PayoutRuleViolation::InvalidStatusTransition { .. }
        | PayoutRuleViolation::InsufficientAvailableFunds
        | PayoutRuleViolation::SchoolNotVerified => e matches PayoutError::Conflict(m) && m@ == v.spec_message(),
        _ => e matches PayoutError::Validation(m) && m@ == v.spec_message(),
    }
}

impl PayoutError {
    /// The service error for a storage failure.
    pub fn from_persistence(value: PersistenceError) -> (e: PayoutError)
        ensures
            match value {
                PersistenceError::NotFound => e is NotFound,
                PersistenceError::Conflict(m) => e matches PayoutError::Conflict(n) && n == m,
                PersistenceError::Validation(m) => e matches PayoutError::Validation(n) && n == m,
                PersistenceError::Repository(m) => e matches PayoutError::Repository(n) && n == m,
            },
    {
        match value {
            PersistenceError::NotFound => PayoutError::NotFound,
            PersistenceError::Conflict(m) => PayoutError::Conflict(m),
            PersistenceError::Validation(m) => PayoutError::Validation(m),
            PersistenceError::Repository(m) => PayoutError::Repository(m),
        }
    }

    /// The service error for a broken rule.
    pub fn from_violation(value: PayoutRuleViolation) -> (e: PayoutError)
        ensures
            spec_payout_error_for(value, e),
    {
        match value {
            PayoutRuleViolation::UnauthorizedRequester | PayoutRuleViolation::UnauthorizedReviewer => PayoutError::Forbidden,
            PayoutRuleViolation::InvalidStatusTransition { .. }
            | PayoutRuleViolation::InsufficientAvailableFunds
            | PayoutRuleViolation::SchoolNotVerified => PayoutError::Conflict(value.message()),
            _ => PayoutError::Validation(value.message()),
        }
    }
}

/// Why a payout request or review is refused, before it is put into words.
#[derive(Clone, Copy, Debug, PartialEq, Eq, Structural)]
pub enum PayoutFailure {
    Forbidden,
    NotFound,
    Rule(PayoutRuleViolation),
}

/// `e` is the service error for the refusal `f`.
pub open spec fn spec_failure_error(f: PayoutFailure, e: PayoutError) -> bool {
    match f {
        PayoutFailure::Forbidden => e is Forbidden,
        PayoutFailure::NotFound => e is NotFound,
        PayoutFailure::Rule(v) => spec_payout_error_for(v, e),
    }
}

/// A request to pay a school from a vault for a milestone.
#[derive(Debug)]
pub struct CreatePayoutRequestInput {
    pub vault_id: u128,
    pub milestone_id: u128,
    pub school_id: u128,
    pub amount_minor: i64,
    pub currency: Currency,
    pub idempotency_key: String,
}

/// A review step on a payout, with optional notes and payment reference.
#[derive(Debug)]
pub struct ReviewPayoutInput {
    pub payout_id: u128,
    pub review_notes: Option<String>,
    pub external_payout_reference: Option<String>,
}

/// Whether the vault totals can be combined into available funds without overflow.
pub open spec fn totals_in_range(v: SavingsVault) -> bool {
    i64::MIN <= v.total_contributed_minor - v.total_locked_minor <= i64::MAX && i64::MIN
        <= v.total_contributed_minor - v.total_locked_minor - v.total_disbursed_minor <= i64::MAX
}

/// Whether a stored payout is the same request as one repeated under its idempotency key.
pub open spec fn spec_same_payout(existing: PayoutRequest, actor_user_id: u128, input: CreatePayoutRequestInput) -> bool {
    existing.vault_id == input.vault_id && existing.milestone_id == input.milestone_id
        && existing.school_id == input.school_id && existing.requested_by == actor_user_id
        && existing.amount.amount_minor == input.amount_minor && existing.amount.currency.same_as(
        &input.currency,
    )
}

/// The first reason a new payout request is refused before its funds are
/// counted, checked in the service's order.
pub open spec fn spec_request_refusal_before_funds(
    actor: AuthenticatedUser,
    input: CreatePayoutRequestInput,
    vault: Option<SavingsVault>,
    milestone: Option<Milestone>,
    school: Option<School>,
) -> Option<PayoutFailure> {
    if vault is None {
        Some(PayoutFailure::NotFound)
    } else if vault->Some_0.owner_user_id != actor.user_id {
        Some(PayoutFailure::Forbidden)
    } else if milestone is None || school is None {
        Some(PayoutFailure::NotFound)
    } else if milestone->Some_0.vault_id != input.vault_id {
        Some(PayoutFailure::Rule(PayoutRuleViolation::MilestoneDoesNotBelongToVault))
    } else if !spec_milestone_payable(milestone->Some_0.status) {
        Some(PayoutFailure::Rule(PayoutRuleViolation::MilestoneNotPayable))
    } else if input.currency.spec_text() != vault->Some_0.currency@ {
        Some(PayoutFailure::Rule(PayoutRuleViolation::CurrencyMismatch))
    } else if school->Some_0.verification_status != SchoolVerificationStatus::Verified {
        Some(PayoutFailure::Rule(PayoutRuleViolation::SchoolNotVerified))
    } else {
        None
    }
}

/// The first reason a new payout request is refused, checked in the service's order.
pub open spec fn spec_request_refusal(
    actor: AuthenticatedUser,
    input: CreatePayoutRequestInput,
    vault: Option<SavingsVault>,
    milestone: Option<Milestone>,
    school: Option<School>,
) -> Option<PayoutFailure> {
    match spec_request_refusal_before_funds(actor, input, vault, milestone, school) {
        Some(f) => Some(f),
        None => if input.amount_minor > spec_available(
            vault->Some_0.total_contributed_minor as int,
            vault->Some_0.total_locked_minor as int,
            vault->Some_0.total_disbursed_minor as int,
        ) {
            Some(PayoutFailure::Rule(PayoutRuleViolation::InsufficientAvailableFunds))
        } else {
            None
        },
    }
}

/// Whether a payout request gets as far as counting the vault's available
/// funds: every earlier check passes and no request is stored under its key.
pub open spec fn spec_request_reaches_funds_check(
    actor: AuthenticatedUser,
    input: CreatePayoutRequestInput,
    has_existing: bool,
    vault: Option<SavingsVault>,
    milestone: Option<Milestone>,
    school: Option<School>,
) -> bool {
    &&& actor.role == UserRole::Parent
    &&& input.amount_minor > 0
    &&& !has_existing
    &&& spec_request_refusal_before_funds(actor, input, vault, milestone, school) is None
}

/// What a payout request comes to.
#[derive(Debug)]
pub enum PayoutRequestDecision {
    /// The same request was already stored under the key.
    Existing(PayoutRequest),
    /// A new pending payout to store with its audit entry.
    Create(PayoutRequest, AuditLog),
}

/// The pending payout and audit entry that a new request stores.
pub open spec fn spec_new_payout(
    p: PayoutRequest,
    log: AuditLog,
    actor: AuthenticatedUser,
    input: CreatePayoutRequestInput,
    vault: SavingsVault,
    milestone: Milestone,
    school: School,
) -> bool {
    &&& p.vault_id == input.vault_id && p.milestone_id == input.milestone_id && p.school_id == input.school_id
    &&& p.requested_by == actor.user_id
    &&& p.amount.amount_minor == input.amount_minor && p.amount.currency == input.currency
    &&& p.idempotency_key == Some(input.idempotency_key)
    &&& p.status == PayoutStatus::Pending
    &&& p.review_notes is None && p.external_payout_reference is None
    &&& p.reviewed_by is None && p.reviewed_at is None
    &&& p.created_at == p.updated_at
    &&& log.actor_user_id == Some(actor.user_id)
    &&& log.entity_type@ == "payout_request"@
    &&& log.entity_id == Some(p.id)
    &&& log.action@ == "payout.requested"@
    &&& is_object_of(log.metadata, 7)
    &&& key_at(log.metadata, 0) == "vault_id"@ && is_uuid(value_at(log.metadata, 0), vault.id)
    &&& key_at(log.metadata, 1) == "milestone_id"@ && is_uuid(value_at(log.metadata, 1), milestone.id)
    &&& key_at(log.metadata, 2) == "school_id"@ && is_uuid(value_at(log.metadata, 2), school.id)
    &&& key_at(log.metadata, 3) == "school_verification_status"@ && is_text(value_at(log.metadata, 3), school.verification_status.spec_text())
    &&& key_at(log.metadata, 4) == "amount_minor"@ && is_int(value_at(log.metadata, 4), input.amount_minor as int)
    &&& key_at(log.metadata, 5) == "currency"@ && is_text(value_at(log.metadata, 5), input.currency.spec_text())
    &&& key_at(log.metadata, 6) == "status"@ && is_text(value_at(log.metadata, 6), "pending"@)
}

/// Requests a payout: parents only, a positive amount; a repeated request
/// under the same idempotency key returns the stored one when it is the same
/// and is a conflict otherwise. A new request needs the actor's own vault, a
/// milestone of that vault that can still be paid, the vault's currency, a
/// verified school and enough available funds.
pub fn decide_payout_request(
    actor: &AuthenticatedUser,
    input: CreatePayoutRequestInput,
    existing: Option<PayoutRequest>,
    vault: Option<&SavingsVault>,
    milestone: Option<&Milestone>,
    school: Option<&School>,
) -> (r: Result<PayoutRequestDecision, PayoutError>)
    requires
        spec_request_reaches_funds_check(
            *actor,
            input,
            existing is Some,
            match vault { Some(v) => Some(*v), None => None },
            match milestone { Some(m) => Some(*m), None => None },
            match school { Some(s) => Some(*s), None => None },
        ) ==> totals_in_range(*vault->Some_0),
    ensures
        actor.role != UserRole::Parent ==> (r matches Err(e) && e is Forbidden),
        actor.role == UserRole::Parent && input.amount_minor <= 0 ==> (r matches Err(e)
            && spec_payout_error_for(PayoutRuleViolation::AmountMustBePositive, e)),
        actor.role == UserRole::Parent && input.amount_minor > 0 && existing is Some ==> (if spec_same_payout(existing->Some_0, actor.user_id, input) {
            r matches Ok(PayoutRequestDecision::Existing(x)) && x == existing->Some_0
        } else {
            r matches Err(e) && e matches PayoutError::Conflict(m) && m@ == "idempotency key already used for a different payout request"@
        }),
        actor.role == UserRole::Parent && input.amount_minor > 0 && existing is None ==> (match spec_request_refusal(
            *actor,
            input,
            match vault { Some(v) => Some(*v), None => None },
            match milestone { Some(m) => Some(*m), None => None },
            match school { Some(s) => Some(*s), None => None },
        ) {
            Some(f) => r matches Err(e) && spec_failure_error(f, e),
            None => r matches Ok(PayoutRequestDecision::Create(p, log)) && spec_new_payout(p, log, *actor, input, *vault->Some_0, *milestone->Some_0, *school->Some_0),
        }),
{
    if let Err(x) = validate_requester_role(actor.role) {
        return Err(PayoutError::from_violation(x));
    }
    if let Err(x) = validate_payout_amount(input.amount_minor) {
        return Err(PayoutError::from_violation(x));
    }
    if let Some(x) = existing {
        if x.vault_id == input.vault_id && x.milestone_id == input.milestone_id && x.school_id
            == input.school_id && x.requested_by == actor.user_id && x.amount.amount_minor
            == input.amount_minor && x.amount.currency == input.currency {
            return Ok(PayoutRequestDecision::Existing(x));
        }
        return Err(PayoutError::Conflict(owned("idempotency key already used for a different payout request")));
    }
    let v = match vault {
        None => return Err(PayoutError::NotFound),
        Some(v) => v,
    };
    if v.owner_user_id != actor.user_id {
        return Err(PayoutError::Forbidden);
    }
    let m = match milestone {
        None => return Err(PayoutError::NotFound),
        Some(m) => m,
    };
    let sc = match school {
        None => return Err(PayoutError::NotFound),
        Some(sc) => sc,
    };
    if let Err(x) = validate_milestone_association(m.vault_id, input.vault_id) {
        return Err(PayoutError::from_violation(x));
    }
    if let Err(x) = validate_milestone_payable(m.status) {
        return Err(PayoutError::from_violation(x));
    }
    if let Err(x) = validate_currency_match(input.currency.as_str(), v.currency.as_str()) {
        return Err(PayoutError::from_violation(x));
    }
    if let Err(x) = validate_school_verified(sc.verification_status) {
        return Err(PayoutError::from_violation(x));
    }
    if let Err(x) = ensure_available_funds(
        v.total_contributed_minor,
        v.total_locked_minor,
        v.total_disbursed_minor,
        input.amount_minor,
    ) {
        return Err(PayoutError::from_violation(x));
    }
    let now = now_micros();
    let payout = PayoutRequest {
        id: new_uuid(),
        vault_id: input.vault_id,
        milestone_id: input.milestone_id,
        school_id: input.school_id,
        requested_by: actor.user_id,
        amount: Money { amount_minor: input.amount_minor, currency: input.currency },
        idempotency_key: Some(input.idempotency_key),
        status: PayoutStatus::Pending,
        review_notes: None,
        external_payout_reference: None,
        reviewed_by: None,
        reviewed_at: None,
        created_at: now,
        updated_at: now,
    };
    let mut log = AuditEvent::payout_requested(actor.user_id, &payout).into_log();
    let mut md: Vec<JsonEntry> = Vec::new();
    md.push(entry("vault_id", uuid_value(v.id)));
    md.push(entry("milestone_id", uuid_value(m.id)));
    md.push(entry("school_id", uuid_value(sc.id)));
    md.push(entry("school_verification_status", text_value(sc.verification_status.as_str())));
    md.push(entry("amount_minor", int_value(payout.amount.amount_minor)));
    md.push(entry("currency", text_value(payout.amount.currency.as_str())));
    md.push(entry("status", text_value(payout.status.as_str())));
    log.metadata = JsonValue::Object(md);
    Ok(PayoutRequestDecision::Create(payout, log))
}



/// The action recorded for each review step.
pub open spec fn spec_review_action(transition: PayoutTransition) -> Seq<char> {
    match transition {
        PayoutTransition::MoveToReview => "payout.review_started"@,
        PayoutTransition::Approve => "payout.approved"@,
        PayoutTransition::Reject => "payout.rejected"@,
        PayoutTransition::MarkProcessing => "payout.processing_started"@,
        PayoutTransition::Complete => "payout.completed"@,
        PayoutTransition::Fail => "payout.failed"@,
    }
}

pub fn review_action(transition: PayoutTransition) -> (a: &'static str)
    ensures
        a@ == spec_review_action(transition),
{
    match transition {
        PayoutTransition::MoveToReview => "payout.review_started",
        PayoutTransition::Approve => "payout.approved",
        PayoutTransition::Reject => "payout.rejected",
        PayoutTransition::MarkProcessing => "payout.processing_started",
        PayoutTransition::Complete => "payout.completed",
        PayoutTransition::Fail => "payout.failed",
    }
}

/// Steps that need a verified school: approval and everything after it.
pub open spec fn spec_needs_verified_school(transition: PayoutTransition) -> bool {
    transition == PayoutTransition::Approve || transition == PayoutTransition::MarkProcessing
        || transition == PayoutTransition::Complete || transition == PayoutTransition::Fail
}

/// The first reason a review step on `payout` is refused once the move itself
/// is allowed, before any funds are counted, checked in the service's order.
pub open spec fn spec_review_refusal_before_funds(
    payout: PayoutRequest,
    transition: PayoutTransition,
    school: Option<School>,
    milestone: Option<Milestone>,
    vault: Option<SavingsVault>,
) -> Option<PayoutFailure> {
    if school is None || milestone is None || vault is None {
        Some(PayoutFailure::NotFound)
    } else if milestone->Some_0.vault_id != payout.vault_id {
        Some(PayoutFailure::Rule(PayoutRuleViolation::MilestoneDoesNotBelongToVault))
    } else if !spec_milestone_payable(milestone->Some_0.status) {
        Some(PayoutFailure::Rule(PayoutRuleViolation::MilestoneNotPayable))
    } else if spec_needs_verified_school(transition) && school->Some_0.verification_status
        != SchoolVerificationStatus::Verified {
        Some(PayoutFailure::Rule(PayoutRuleViolation::SchoolNotVerified))
    } else {
        None
    }
}

/// The first reason a review step on `payout` is refused once the move itself
/// is allowed, checked in the service's order.
pub open spec fn spec_review_refusal(
    payout: PayoutRequest,
    transition: PayoutTransition,
    school: Option<School>,
    milestone: Option<Milestone>,
    vault: Option<SavingsVault>,
) -> Option<PayoutFailure> {
    match spec_review_refusal_before_funds(payout, transition, school, milestone, vault) {
        Some(f) => Some(f),
        None => if transition == PayoutTransition::Approve && payout.amount.amount_minor > spec_available(
            vault->Some_0.total_contributed_minor as int,
            vault->Some_0.total_locked_minor as int,
            vault->Some_0.total_disbursed_minor as int,
        ) {
            Some(PayoutFailure::Rule(PayoutRuleViolation::InsufficientAvailableFunds))
        } else {
            None
        },
    }
}

/// Whether a review step gets as far as counting the vault's available funds:
/// an administrator approves an existing payout that is not yet approved, the
/// move is allowed and every earlier check passes.
pub open spec fn spec_review_reaches_funds_check(
    actor: AuthenticatedUser,
    transition: PayoutTransition,
    payout: Option<PayoutRequest>,
    school: Option<School>,
    milestone: Option<Milestone>,
    vault: Option<SavingsVault>,
) -> bool {
    &&& actor.role == UserRole::PlatformAdmin
    &&& transition == PayoutTransition::Approve
    &&& payout is Some
    &&& spec_payout_transition(payout->Some_0.status, transition) matches Ok(t) && t != payout->Some_0.status
    &&& spec_review_refusal_before_funds(payout->Some_0, transition, school, milestone, vault) is None
}

/// Whether optional notes hold more than whitespace.
pub open spec fn spec_notes_present(notes: Option<String>) -> bool {
    match notes {
        Some(n) => trim(n@).len() > 0,
        None => false,
    }
}

/// What a review step comes to.
#[derive(Debug)]
pub enum ReviewDecision {
    /// The payout already has the target status: it is returned unchanged.
    Unchanged(PayoutRequest),
    /// Move the payout to `target` and store the audit entry with it.
    Transition { target: PayoutStatus, audit: AuditLog },
}

/// The audit entry of a review step.
pub open spec fn spec_review_audit(
    audit: AuditLog,
    actor: AuthenticatedUser,
    input: ReviewPayoutInput,
    transition: PayoutTransition,
    payout: PayoutRequest,
    school: School,
    milestone: Milestone,
    vault: SavingsVault,
    target: PayoutStatus,
) -> bool {
    &&& audit.actor_user_id == Some(actor.user_id)
    &&& audit.entity_type@ == "payout_request"@
    &&& audit.entity_id == Some(payout.id)
    &&& audit.action@ == spec_review_action(transition)
    &&& is_object_of(audit.metadata, 8)
    &&& key_at(audit.metadata, 0) == "vault_id"@ && is_uuid(value_at(audit.metadata, 0), vault.id)
    &&& key_at(audit.metadata, 1) == "milestone_id"@ && is_uuid(value_at(audit.metadata, 1), milestone.id)
    &&& key_at(audit.metadata, 2) == "school_id"@ && is_uuid(value_at(audit.metadata, 2), school.id)
    &&& key_at(audit.metadata, 3) == "school_verification_status"@ && is_text(value_at(audit.metadata, 3), school.verification_status.spec_text())
    &&& key_at(audit.metadata, 4) == "from_status"@ && is_text(value_at(audit.metadata, 4), payout.status.spec_text())
    &&& key_at(audit.metadata, 5) == "to_status"@ && is_text(value_at(audit.metadata, 5), target.spec_text())
    &&& key_at(audit.metadata, 6) == "review_notes_present"@ && value_at(audit.metadata, 6) == JsonValue::Bool(spec_notes_present(input.review_notes))
    &&& key_at(audit.metadata, 7) == "external_payout_reference_present"@ && value_at(audit.metadata, 7) == JsonValue::Bool(input.external_payout_reference is Some)
}

/// A review step on a payout: platform administrators only, an existing
/// payout, an allowed transition (a payout already in the target status is
/// returned as it is); then the school, milestone and vault must exist, the
/// milestone must belong to the vault and still be payable, the school must
/// be verified from approval on, and approval needs enough available funds.
pub fn decide_review(
    actor: &AuthenticatedUser,
    input: &ReviewPayoutInput,
    transition: PayoutTransition,
    payout: Option<PayoutRequest>,
    school: Option<&School>,
    milestone: Option<&Milestone>,
    vault: Option<&SavingsVault>,
) -> (r: Result<ReviewDecision, PayoutError>)
    requires
        spec_review_reaches_funds_check(
            *actor,
            transition,
            payout,
            match school { Some(v) => Some(*v), None => None },
            match milestone { Some(v) => Some(*v), None => None },
            match vault { Some(v) => Some(*v), None => None },
        ) ==> totals_in_range(*vault->Some_0),
    ensures
        actor.role != UserRole::PlatformAdmin ==> (r matches Err(e) && e is Forbidden),
        actor.role == UserRole::PlatformAdmin && payout is None ==> (r matches Err(e) && e is NotFound),
        actor.role == UserRole::PlatformAdmin && payout is Some ==> (match spec_payout_transition(payout->Some_0.status, transition) {
            Err(v) => r matches Err(e) && spec_payout_error_for(v, e),
            Ok(t) => if t == payout->Some_0.status {
                r matches Ok(ReviewDecision::Unchanged(x)) && x == payout->Some_0
            } else {
                match spec_review_refusal(
                    payout->Some_0,
                    transition,
                    match school { Some(v) => Some(*v), None => None },
                    match milestone { Some(v) => Some(*v), None => None },
                    match vault { Some(v) => Some(*v), None => None },
                ) {
                    Some(f) => r matches Err(e) && spec_failure_error(f, e),
                    None => r matches Ok(ReviewDecision::Transition { target, audit }) && target == t
                        && spec_review_audit(audit, *actor, *input, transition, payout->Some_0, *school->Some_0, *milestone->Some_0, *vault->Some_0, t),
                }
            },
        }),
{
    if let Err(x) = validate_reviewer_role(actor.role) {
        return Err(PayoutError::from_violation(x));
    }
    let p = match payout {
        None => return Err(PayoutError::NotFound),
        Some(p) => p,
    };
    let target = match validate_transition(p.status, transition) {
        Ok(t) => t,
        Err(x) => return Err(PayoutError::from_violation(x)),
    };
    if p.status == target {
        return Ok(ReviewDecision::Unchanged(p));
    }
    let sc = match school {
        None => return Err(PayoutError::NotFound),
        Some(x) => x,
    };
    let m = match milestone {
        None => return Err(PayoutError::NotFound),
        Some(x) => x,
    };
    let v = match vault {
        None => return Err(PayoutError::NotFound),
        Some(x) => x,
    };
    if let Err(x) = validate_milestone_association(m.vault_id, p.vault_id) {
        return Err(PayoutError::from_violation(x));
    }
    if let Err(x) = validate_milestone_payable(m.status) {
        return Err(PayoutError::from_violation(x));
    }
    if transition == PayoutTransition::Approve || transition == PayoutTransition::MarkProcessing
        || transition == PayoutTransition::Complete || transition == PayoutTransition::Fail {
        if let Err(x) = validate_school_verified(sc.verification_status) {
            return Err(PayoutError::from_violation(x));
        }
    }
    if transition == PayoutTransition::Approve {
        if let Err(x) = ensure_available_funds(
            v.total_contributed_minor,
            v.total_locked_minor,
            v.total_disbursed_minor,
            p.amount.amount_minor,
        ) {
            return Err(PayoutError::from_violation(x));
        }
    }
    let mut audit = AuditEvent::payout_decision(actor.user_id, &p, target.as_str()).into_log();
    audit.action = owned(review_action(transition));
    let notes_present = match &input.review_notes {
        Some(n) => !is_blank(n.as_str()),
        None => false,
    };
    let mut md: Vec<JsonEntry> = Vec::new();
    md.push(entry("vault_id", uuid_value(v.id)));
    md.push(entry("milestone_id", uuid_value(m.id)));
    md.push(entry("school_id", uuid_value(sc.id)));
    md.push(entry("school_verification_status", text_value(sc.verification_status.as_str())));
    md.push(entry("from_status", text_value(p.status.as_str())));
    md.push(entry("to_status", text_value(target.as_str())));
    md.push(entry("review_notes_present", JsonValue::Bool(notes_present)));
    md.push(entry("external_payout_reference_present", JsonValue::Bool(input.external_payout_reference.is_some())));
    audit.metadata = JsonValue::Object(md);
    Ok(ReviewDecision::Transition { target, audit })
}

/// Whether a payout request gets as far as counting the vault's available
/// funds, where the vault's totals must combine within `i64`.
pub fn payout_request_reaches_funds_check(
    actor: &AuthenticatedUser,
    input: &CreatePayoutRequestInput,
    has_existing: bool,
    vault: Option<&SavingsVault>,
    milestone: Option<&Milestone>,
    school: Option<&School>,
) -> (b: bool)
    ensures
        b == spec_request_reaches_funds_check(
            *actor,
            *input,
            has_existing,
            match vault { Some(v) => Some(*v), None => None },
            match milestone { Some(m) => Some(*m), None => None },
            match school { Some(s) => Some(*s), None => None },
        ),
{
    if actor.role != UserRole::Parent || input.amount_minor <= 0 || has_existing {
        return false;
    }
    let v = match vault {
        None => return false,
        Some(v) => v,
    };
    if v.owner_user_id != actor.user_id {
        return false;
    }
    let (m, sc) = match (milestone, school) {
        (Some(m), Some(sc)) => (m, sc),
        _ => return false,
    };
    validate_milestone_association(m.vault_id, input.vault_id).is_ok() && validate_milestone_payable(
        m.status,
    ).is_ok() && validate_currency_match(input.currency.as_str(), v.currency.as_str()).is_ok()
        && validate_school_verified(sc.verification_status).is_ok()
}

/// Whether a review step gets as far as counting the vault's available funds,
/// where the vault's totals must combine within `i64`.
pub fn review_reaches_funds_check(
    actor: &AuthenticatedUser,
    transition: PayoutTransition,
    payout: Option<&PayoutRequest>,
    school: Option<&School>,
    milestone: Option<&Milestone>,
    vault: Option<&SavingsVault>,
) -> (b: bool)
    ensures
        b == spec_review_reaches_funds_check(
            *actor,
            transition,
            match payout { Some(p) => Some(*p), None => None },
            match school { Some(v) => Some(*v), None => None },
            match milestone { Some(v) => Some(*v), None => None },
            match vault { Some(v) => Some(*v), None => None },
        ),
{
    if actor.role != UserRole::PlatformAdmin || transition != PayoutTransition::Approve {
        return false;
    }
    let p = match payout {
        None => return false,
        Some(p) => p,
    };
    match validate_transition(p.status, transition) {
        Ok(t) => {
            if t == p.status {
                return false;
            }
        },
        Err(_) => return false,
    }
    let (sc, m, v) = match (school, milestone, vault) {
        (Some(sc), Some(m), Some(v)) => (sc, m, v),
        _ => return false,
    };
    validate_milestone_association(m.vault_id, p.vault_id).is_ok() && validate_milestone_payable(m.status).is_ok()
        && validate_school_verified(sc.verification_status).is_ok()
}

/// A payout is shown to the parent that requested it and to platform administrators.
pub fn check_payout_access(actor: &AuthenticatedUser, payout: Option<PayoutRequest>) -> (r: Result<PayoutRequest, PayoutError>)
    ensures
        match payout {
            None => r matches Err(e) && e is NotFound,
            Some(p) => if actor.user_id == p.requested_by || actor.role == UserRole::PlatformAdmin {
                r matches Ok(x) && x == p
            } else {
                r matches Err(e) && e is Forbidden
            },
        },
{
    match payout {
        None => Err(PayoutError::NotFound),
        Some(p) => {
            if actor.user_id != p.requested_by && actor.role != UserRole::PlatformAdmin {
                return Err(PayoutError::Forbidden);
            }
            Ok(p)
        },
    }
}

/// A vault's payouts are listed to its owner and to platform administrators.
pub fn check_vault_payouts_access(actor: &AuthenticatedUser, vault: Option<&SavingsVault>) -> (r: Result<(), PayoutError>)
    ensures
        match vault {
            None => r matches Err(e) && e is NotFound,
            Some(v) => if actor.user_id == v.owner_user_id || actor.role == UserRole::PlatformAdmin {
                r is Ok
            } else {
                r matches Err(e) && e is Forbidden
            },
        },
{
    match vault {
        None => Err(PayoutError::NotFound),
        Some(v) => {
            if actor.user_id != v.owner_user_id && actor.role != UserRole::PlatformAdmin {
                return Err(PayoutError::Forbidden);
            }
            Ok(())
        },
    }
}

} // verus!
