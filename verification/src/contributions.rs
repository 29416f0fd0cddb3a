//! Contributions into savings vaults: who may fund or settle them, and which
//! settlement transitions are allowed.

use vstd::prelude::*;

use crate::audit::AuditEvent;
use crate::auth::{AuthenticatedUser, UserRole};
use crate::json::{
    entry, int_value, is_int, is_object_of, is_text, is_uuid, key_at, text_value, uuid_value,
    value_at, JsonEntry, JsonValue,
};
use crate::platform::{new_uuid, now_micros};
use crate::records::{AuditLog, Contribution, SavingsVault, VaultContributor};
use crate::repos::PersistenceError;
use crate::shared::{Currency, Money};
use crate::status::{ContributionSourceType, ContributionStatus, StatusText};
use crate::text::{owned, push_text, str_eq};

verus! {

/// Kind of movement that a vault ledger entry records.
#[derive(Clone, Copy, Debug, PartialEq, Eq, Structural)]
pub enum VaultLedgerEntryType {
    ContributionConfirmed,
    ContributionReversed,
}

impl VaultLedgerEntryType {
    /// The text that stands for this value.
    pub open spec fn spec_text(self) -> Seq<char> {
        match self {
            VaultLedgerEntryType::ContributionConfirmed => "contribution_confirmed"@,
            VaultLedgerEntryType::ContributionReversed => "contribution_reversed"@,
        }
    }

    /// The value that a text stands for, if any.
    pub open spec fn spec_parse(text: Seq<char>) -> Option<VaultLedgerEntryType> {
        if text == "contribution_confirmed"@ {
            Some(VaultLedgerEntryType::ContributionConfirmed)
        } else if text == "contribution_reversed"@ {
            Some(VaultLedgerEntryType::ContributionReversed)
        } else {
            None
        }
    }

    pub fn as_str(&self) -> (text: &'static str)
        ensures
            text@ == self.spec_text(),
    {
        match self {
            VaultLedgerEntryType::ContributionConfirmed => "contribution_confirmed",
            VaultLedgerEntryType::ContributionReversed => "contribution_reversed",
        }
    }

    pub fn from_str(value: &str) -> (parsed: Result<VaultLedgerEntryType, &'static str>)
        ensures
            parsed matches Ok(v) ==> Self::spec_parse(value@) == Some(v),
            parsed matches Err(e) ==> Self::spec_parse(value@) is None && e@ == "invalid vault ledger entry type"@,
    {
        if str_eq(value, "contribution_confirmed") {
            Ok(VaultLedgerEntryType::ContributionConfirmed)
        } else if str_eq(value, "contribution_reversed") {
            Ok(VaultLedgerEntryType::ContributionReversed)
        } else {
            Err("invalid vault ledger entry type")
        }
    }
}

/// Reading back the text of a value gives the value.
pub proof fn lemma_vault_ledger_entry_type_text_round_trip(value: VaultLedgerEntryType)
    ensures
        VaultLedgerEntryType::spec_parse(value.spec_text()) == Some(value),
{
    reveal_strlit("contribution_confirmed");
    reveal_strlit("contribution_reversed");
    assert("contribution_confirmed"@[13] != "contribution_reversed"@[13]);
}


/// An entry of a vault's ledger.
#[derive(Debug)]
pub struct VaultLedgerEntry {
    pub id: u128,
    pub vault_id: u128,
    pub contribution_id: Option<u128>,
    pub actor_user_id: Option<u128>,
    pub entry_type: VaultLedgerEntryType,
    pub amount: Money,
    pub balance_after_minor: i64,
    pub external_reference: Option<String>,
    pub metadata: JsonValue,
    pub created_at: i64,
    pub updated_at: i64,
}

/// A settlement step of a contribution.
#[derive(Clone, Copy, Debug, PartialEq, Eq, Structural)]
pub enum ContributionTransition {
    Confirm,
    Fail,
    Reverse,
}

impl ContributionTransition {
    pub open spec fn spec_target(self) -> ContributionStatus {
        match self {
            ContributionTransition::Confirm => ContributionStatus::Confirmed,
            ContributionTransition::Fail => ContributionStatus::Failed,
            ContributionTransition::Reverse => ContributionStatus::Reversed,
        }
    }

    /// The status that this step leads to.
    pub fn target_status(&self) -> (s: ContributionStatus)
        ensures
            s == self.spec_target(),
    {
        match self {
            ContributionTransition::Confirm => ContributionStatus::Confirmed,
            ContributionTransition::Fail => ContributionStatus::Failed,
            ContributionTransition::Reverse => ContributionStatus::Reversed,
        }
    }
}

/// Rules of contributions that a request broke.
#[derive(Clone, Copy, Debug, PartialEq, Eq, Structural)]
pub enum ContributionRuleViolation {
    AmountMustBePositive,
    CurrencyMismatch,
    UnauthorizedContributor,
    UnauthorizedSettlementActor,
    InvalidStatusTransition { from: ContributionStatus, to: ContributionStatus },
}

impl ContributionRuleViolation {
    pub open spec fn spec_message(&self) -> Seq<char> {
        match self {
            ContributionRuleViolation::AmountMustBePositive => "contribution amount must be positive"@,
            ContributionRuleViolation::CurrencyMismatch => "contribution currency must match vault currency"@,
            ContributionRuleViolation::UnauthorizedContributor => "user is not allowed to contribute to this vault"@,
            ContributionRuleViolation::UnauthorizedSettlementActor => "user is not allowed to settle contributions"@,
            ContributionRuleViolation::InvalidStatusTransition { from, to } => "invalid contribution transition from "@
                + from.spec_text() + " to "@ + to.spec_text(),
        }
    }

    /// The text shown for this violation.
    pub fn message(&self) -> (m: String)
        ensures
            m@ == self.spec_message(),
    {
        match self {
            ContributionRuleViolation::AmountMustBePositive => owned("contribution amount must be positive"),
            ContributionRuleViolation::CurrencyMismatch => owned("contribution currency must match vault currency"),
            ContributionRuleViolation::UnauthorizedContributor => owned("user is not allowed to contribute to this vault"),
            ContributionRuleViolation::UnauthorizedSettlementActor => owned("user is not allowed to settle contributions"),
            ContributionRuleViolation::InvalidStatusTransition { from, to } => {
                let mut s = owned("invalid contribution transition from ");
                push_text(&mut s, from.as_str());
                push_text(&mut s, " to ");
                push_text(&mut s, to.as_str());
                s
            },
        }
    }
}

/// A contribution must move a positive amount.
pub fn validate_contribution_amount(amount_minor: i64) -> (r: Result<(), ContributionRuleViolation>)
    ensures
        r is Ok <==> amount_minor > 0,
        r matches Err(e) ==> e == ContributionRuleViolation::AmountMustBePositive,
{
    if amount_minor <= 0 {
        return Err(ContributionRuleViolation::AmountMustBePositive);
    }
    Ok(())
}

/// A contribution must be in the vault's currency.
pub fn validate_contribution_currency(contribution_currency: &str, vault_currency: &str) -> (r: Result<
    (),
    ContributionRuleViolation,
>)
    ensures
        r is Ok <==> contribution_currency@ == vault_currency@,
        r matches Err(e) ==> e == ContributionRuleViolation::CurrencyMismatch,
{
    if !str_eq(contribution_currency, vault_currency) {
        return Err(ContributionRuleViolation::CurrencyMismatch);
    }
    Ok(())
}

/// Who may see or fund a vault: its owner acting as a parent, or a contributor
/// or parent that the owner added to the vault.
pub open spec fn spec_can_view_or_fund_vault(
    actor_role: UserRole,
    actor_user_id: u128,
    vault_owner_user_id: u128,
    is_explicit_contributor: bool,
) -> bool {
    (actor_user_id == vault_owner_user_id && actor_role == UserRole::Parent) || (
    is_explicit_contributor && (actor_role == UserRole::Contributor || actor_role
        == UserRole::Parent))
}

pub fn can_view_or_fund_vault(
    actor_role: UserRole,
    actor_user_id: u128,
    vault_owner_user_id: u128,
    is_explicit_contributor: bool,
) -> (r: Result<(), ContributionRuleViolation>)
    ensures
        r is Ok <==> spec_can_view_or_fund_vault(
            actor_role,
            actor_user_id,
            vault_owner_user_id,
            is_explicit_contributor,
        ),
        r matches Err(e) ==> e == ContributionRuleViolation::UnauthorizedContributor,
{
    if actor_user_id == vault_owner_user_id && actor_role == UserRole::Parent {
        return Ok(());
    }
    if is_explicit_contributor && (actor_role == UserRole::Contributor || actor_role
        == UserRole::Parent) {
        return Ok(());
    }
    Err(ContributionRuleViolation::UnauthorizedContributor)
}

/// Only platform administrators settle contributions.
pub fn can_settle_contribution(actor_role: UserRole) -> (r: Result<(), ContributionRuleViolation>)
    ensures
        r is Ok <==> actor_role == UserRole::PlatformAdmin,
        r matches Err(e) ==> e == ContributionRuleViolation::UnauthorizedSettlementActor,
{
    if actor_role == UserRole::PlatformAdmin {
        return Ok(());
    }
    Err(ContributionRuleViolation::UnauthorizedSettlementActor)
}

/// The settlement moves that change a contribution's status: a pending
/// contribution is confirmed or fails, a confirmed one is reversed.
pub open spec fn spec_contribution_step_allowed(from: ContributionStatus, to: ContributionStatus) -> bool {
    (from == ContributionStatus::Pending && to == ContributionStatus::Confirmed) || (from
        == ContributionStatus::Pending && to == ContributionStatus::Failed) || (from
        == ContributionStatus::Confirmed && to == ContributionStatus::Reversed)
}

/// The outcome of a settlement step: the target status when the move is allowed
/// or the contribution is already there, a violation otherwise.
pub open spec fn spec_contribution_transition(
    current: ContributionStatus,
    transition: ContributionTransition,
) -> Result<ContributionStatus, ContributionRuleViolation> {
    let target = transition.spec_target();
    if spec_contribution_step_allowed(current, target) || current == target {
        Ok(target)
    } else {
        Err(ContributionRuleViolation::InvalidStatusTransition { from: current, to: target })
    }
}

pub fn validate_transition(current: ContributionStatus, transition: ContributionTransition) -> (r:
    Result<ContributionStatus, ContributionRuleViolation>)
    ensures
        r == spec_contribution_transition(current, transition),
{
    let target = transition.target_status();
    match (current, target) {
        (ContributionStatus::Pending, ContributionStatus::Confirmed)
        | (ContributionStatus::Pending, ContributionStatus::Failed)
        | (ContributionStatus::Confirmed, ContributionStatus::Reversed) => Ok(target),
        (from, to) => {
            if from == to {
                Ok(to)
            } else {
                Err(ContributionRuleViolation::InvalidStatusTransition { from, to })
            }
        },
    }
}

/// Repeating a settlement step that succeeded is accepted and changes nothing.
pub proof fn lemma_contribution_transition_idempotent(
    current: ContributionStatus,
    transition: ContributionTransition,
)
    requires
        spec_contribution_transition(current, transition) is Ok,
    ensures
        spec_contribution_transition(spec_contribution_transition(current, transition)->Ok_0, transition)
            == spec_contribution_transition(current, transition),
{
}

/// Settlement is open end to end: a pending contribution is confirmed or
/// fails, and a confirmed one is reversed, each move giving exactly its target
/// status; any accepted step ends in the status the step names.
pub proof fn lemma_contribution_lifecycle_moves(current: ContributionStatus, transition: ContributionTransition)
    ensures
        spec_contribution_transition(ContributionStatus::Pending, ContributionTransition::Confirm)
            == Ok::<ContributionStatus, ContributionRuleViolation>(ContributionStatus::Confirmed),
        spec_contribution_transition(ContributionStatus::Pending, ContributionTransition::Fail)
            == Ok::<ContributionStatus, ContributionRuleViolation>(ContributionStatus::Failed),
        spec_contribution_transition(ContributionStatus::Confirmed, ContributionTransition::Reverse)
            == Ok::<ContributionStatus, ContributionRuleViolation>(ContributionStatus::Reversed),
        spec_contribution_transition(current, transition) matches Ok(s) ==> s == transition.spec_target(),
        spec_contribution_transition(current, transition) matches Err(v) ==> v
            == (ContributionRuleViolation::InvalidStatusTransition { from: current, to: transition.spec_target() }),
{
}

/// Failed and reversed contributions are final: every step away from them is refused.
pub proof fn lemma_contribution_final_states(
    current: ContributionStatus,
    transition: ContributionTransition,
)
    requires
        current == ContributionStatus::Failed || current == ContributionStatus::Reversed,
    ensures
        spec_contribution_transition(current, transition) is Ok <==> transition.spec_target()
            == current,
{
}

/// No step leads a contribution back to pending.
pub proof fn lemma_contribution_never_back_to_pending(
    current: ContributionStatus,
    transition: ContributionTransition,
)
    ensures
        spec_contribution_transition(current, transition) matches Ok(s) ==> s
            != ContributionStatus::Pending,
{
}



/// Failures of the contribution services.
#[derive(Debug)]
pub enum ContributionError {
    Validation(String),
    Forbidden,
    NotFound,
    Conflict(String),
    Repository(String),
}

impl ContributionError {
    /// The service error for a storage failure.
    pub fn from_persistence(value: PersistenceError) -> (e: ContributionError)
        ensures
            match value {
                PersistenceError::NotFound => e is NotFound,
                PersistenceError::Conflict(m) => e matches ContributionError::Conflict(n) && n == m,
                PersistenceError::Validation(m) => e matches ContributionError::Validation(n) && n == m,
                PersistenceError::Repository(m) => e matches ContributionError::Repository(n) && n == m,
            },
    {
        match value {
            PersistenceError::NotFound => ContributionError::NotFound,
            PersistenceError::Conflict(m) => ContributionError::Conflict(m),
            PersistenceError::Validation(m) => ContributionError::Validation(m),
            PersistenceError::Repository(m) => ContributionError::Repository(m),
        }
    }

    /// The service error for a broken rule: authorization failures are
    /// forbidden, refused transitions conflicts, the rest validation failures.
    pub fn from_violation(value: ContributionRuleViolation) -> (e: ContributionError)
        ensures
            spec_from_violation(value, e),
    {
        match value {
            ContributionRuleViolation::UnauthorizedContributor
            | ContributionRuleViolation::UnauthorizedSettlementActor => ContributionError::Forbidden,
            ContributionRuleViolation::InvalidStatusTransition { .. } => ContributionError::Conflict(
                value.message(),
            ),
            _ => ContributionError::Validation(value.message()),
        }
    }
}

/// `e` is the service error for the violation `v`.
pub open spec fn spec_from_violation(v: ContributionRuleViolation, e: ContributionError) -> bool {
    match v {
        ContributionRuleViolation::UnauthorizedContributor
        | ContributionRuleViolation::UnauthorizedSettlementActor => e is Forbidden,
        ContributionRuleViolation::InvalidStatusTransition { .. } => e matches ContributionError::Conflict(m)
            && m@ == v.spec_message(),
        _ => e matches ContributionError::Validation(m) && m@ == v.spec_message(),
    }
}

/// A request to pay into a vault.
#[derive(Debug)]
pub struct RecordContributionIntentInput {
    pub vault_id: u128,
    pub amount_minor: i64,
    pub currency: Currency,
    pub source_type: ContributionSourceType,
    pub external_reference: Option<String>,
    pub idempotency_key: String,
}

/// A settlement of a contribution, with the reference of the payment if any.
#[derive(Debug)]
pub struct SettlementInput {
    pub contribution_id: u128,
    pub external_reference: Option<String>,
}

/// Whether a stored contribution is the same intent as a request under the
/// same idempotency key.
pub open spec fn spec_same_intent(
    existing: Contribution,
    actor_user_id: u128,
    input: RecordContributionIntentInput,
) -> bool {
    existing.vault_id == input.vault_id && existing.contributor_user_id == actor_user_id
        && existing.amount.amount_minor == input.amount_minor && existing.amount.currency.same_as(
        &input.currency,
    ) && existing.source_type == input.source_type
}

pub fn ensure_same_intent(
    existing: &Contribution,
    actor_user_id: u128,
    input: &RecordContributionIntentInput,
) -> (r: Result<(), ContributionError>)
    ensures
        r is Ok <==> spec_same_intent(*existing, actor_user_id, *input),
        r matches Err(e) ==> e matches ContributionError::Conflict(m) && m@
            == "idempotency key already used for a different contribution intent"@,
{
    if existing.vault_id != input.vault_id || existing.contributor_user_id != actor_user_id
        || existing.amount.amount_minor != input.amount_minor || existing.amount.currency
        != input.currency || existing.source_type != input.source_type {
        return Err(
            ContributionError::Conflict(
                owned("idempotency key already used for a different contribution intent"),
            ),
        );
    }
    Ok(())
}

/// Whether `user_id` is among the contributors a vault's owner added.
pub open spec fn spec_is_listed(contributors: Seq<VaultContributor>, user_id: u128) -> bool {
    exists|i: int| 0 <= i < contributors.len() && #[trigger] contributors[i].contributor_user_id == user_id
}

pub fn is_listed_contributor(contributors: &Vec<VaultContributor>, user_id: u128) -> (r: bool)
    ensures
        r == spec_is_listed(contributors@, user_id),
{
    let mut i: usize = 0;
    while i < contributors.len()
        invariant
            i <= contributors.len(),
            forall|j: int| 0 <= j < i ==> #[trigger] contributors@[j].contributor_user_id != user_id,
        decreases contributors.len() - i,
    {
        if contributors[i].contributor_user_id == user_id {
            return true;
        }
        i = i + 1;
    }
    false
}

/// Who may list a vault's contributions: the vault exists and the actor may see it.
pub fn check_vault_access(
    actor: &AuthenticatedUser,
    vault: Option<&SavingsVault>,
    contributors: &Vec<VaultContributor>,
) -> (r: Result<(), ContributionError>)
    ensures
        match vault {
            None => r matches Err(e) && e is NotFound,
            Some(v) => if spec_can_view_or_fund_vault(
                actor.role,
                actor.user_id,
                v.owner_user_id,
                spec_is_listed(contributors@, actor.user_id),
            ) {
                r is Ok
            } else {
                r matches Err(e) && e is Forbidden
            },
        },
{
    match vault {
        None => Err(ContributionError::NotFound),
        Some(v) => {
            let listed = is_listed_contributor(contributors, actor.user_id);
            match can_view_or_fund_vault(actor.role, actor.user_id, v.owner_user_id, listed) {
                Ok(()) => Ok(()),
                Err(x) => Err(ContributionError::from_violation(x)),
            }
        },
    }
}

/// What recording a contribution intent comes to.
#[derive(Debug)]
pub enum IntentDecision {
    /// The same intent was already recorded under the key: it is returned as it is.
    Existing(Contribution),
    /// A new pending contribution to store together with its audit entry.
    Create(Contribution, AuditLog),
}

/// The checks that a new intent must pass before its idempotency key is looked up.
pub open spec fn spec_intent_admissible(
    actor: AuthenticatedUser,
    input: RecordContributionIntentInput,
    vault: SavingsVault,
    contributors: Seq<VaultContributor>,
) -> bool {
    &&& (actor.role == UserRole::Parent || actor.role == UserRole::Contributor)
    &&& input.amount_minor > 0
    &&& spec_can_view_or_fund_vault(
        actor.role,
        actor.user_id,
        vault.owner_user_id,
        spec_is_listed(contributors, actor.user_id),
    )
    &&& input.currency.spec_text() == vault.currency@
}

/// The pending contribution and audit entry that a new intent stores.
pub open spec fn spec_new_intent(
    c: Contribution,
    log: AuditLog,
    actor: AuthenticatedUser,
    input: RecordContributionIntentInput,
) -> bool {
    &&& c.vault_id == input.vault_id
    &&& c.contributor_user_id == actor.user_id
    &&& c.amount.amount_minor == input.amount_minor
    &&& c.amount.currency == input.currency
    &&& c.status == ContributionStatus::Pending
    &&& c.source_type == input.source_type
    &&& c.external_reference == input.external_reference
    &&& c.idempotency_key == Some(input.idempotency_key)
    &&& c.created_at == c.updated_at
    &&& log.actor_user_id == Some(actor.user_id)
    &&& log.entity_type@ == "contribution"@
    &&& log.entity_id == Some(c.id)
    &&& log.action@ == "contribution.recorded"@
    &&& is_object_of(log.metadata, 7)
    &&& key_at(log.metadata, 0) == "vault_id"@ && is_uuid(value_at(log.metadata, 0), c.vault_id)
    &&& key_at(log.metadata, 1) == "contributor_user_id"@ && is_uuid(value_at(log.metadata, 1), c.contributor_user_id)
    &&& key_at(log.metadata, 2) == "amount_minor"@ && is_int(value_at(log.metadata, 2), c.amount.amount_minor as int)
    &&& key_at(log.metadata, 3) == "currency"@ && is_text(value_at(log.metadata, 3), c.amount.currency.spec_text())
    &&& key_at(log.metadata, 4) == "source_type"@ && is_text(value_at(log.metadata, 4), c.source_type.spec_text())
    &&& key_at(log.metadata, 5) == "status"@ && is_text(value_at(log.metadata, 5), "pending"@)
    &&& key_at(log.metadata, 6) == "idempotency_key"@ && is_text(value_at(log.metadata, 6), input.idempotency_key@)
}

/// Records an intent to contribute: parents and contributors only, a positive
/// amount, a vault they may fund, in its currency. A repeated request under
/// the same idempotency key returns the stored contribution when it is the
/// same intent and is a conflict otherwise; a new one is stored as pending.
pub fn decide_contribution_intent(
    actor: &AuthenticatedUser,
    input: RecordContributionIntentInput,
    vault: Option<&SavingsVault>,
    contributors: &Vec<VaultContributor>,
    existing: Option<Contribution>,
) -> (r: Result<IntentDecision, ContributionError>)
    ensures
        !(actor.role == UserRole::Parent || actor.role == UserRole::Contributor) ==> (r matches Err(e)
            && e is Forbidden),
        (actor.role == UserRole::Parent || actor.role == UserRole::Contributor) && input.amount_minor
            <= 0 ==> (r matches Err(e) && spec_from_violation(
            ContributionRuleViolation::AmountMustBePositive,
            e,
        )),
        (actor.role == UserRole::Parent || actor.role == UserRole::Contributor) && input.amount_minor
            > 0 && vault is None ==> (r matches Err(e) && e is NotFound),
        vault is Some && (actor.role == UserRole::Parent || actor.role == UserRole::Contributor)
            && input.amount_minor > 0 && !spec_can_view_or_fund_vault(
            actor.role,
            actor.user_id,
            vault->Some_0.owner_user_id,
            spec_is_listed(contributors@, actor.user_id),
        ) ==> (r matches Err(e) && e is Forbidden),
        vault is Some && (actor.role == UserRole::Parent || actor.role == UserRole::Contributor)
            && input.amount_minor > 0 && spec_can_view_or_fund_vault(
            actor.role,
            actor.user_id,
            vault->Some_0.owner_user_id,
            spec_is_listed(contributors@, actor.user_id),
        ) && input.currency.spec_text() != vault->Some_0.currency@ ==> (r matches Err(e)
            && spec_from_violation(ContributionRuleViolation::CurrencyMismatch, e)),
        vault is Some && spec_intent_admissible(*actor, input, *vault->Some_0, contributors@) ==> (
        match existing {
            Some(x) => if spec_same_intent(x, actor.user_id, input) {
                r matches Ok(IntentDecision::Existing(y)) && y == x
            } else {
                r matches Err(e) && e is Conflict
            },
            None => r matches Ok(IntentDecision::Create(c, log)) && spec_new_intent(c, log, *actor, input),
        }),
{
    if !(actor.role == UserRole::Parent || actor.role == UserRole::Contributor) {
        return Err(ContributionError::Forbidden);
    }
    if let Err(x) = validate_contribution_amount(input.amount_minor) {
        return Err(ContributionError::from_violation(x));
    }
    let v = match vault {
        None => return Err(ContributionError::NotFound),
        Some(v) => v,
    };
    let listed = is_listed_contributor(contributors, actor.user_id);
    if let Err(x) = can_view_or_fund_vault(actor.role, actor.user_id, v.owner_user_id, listed) {
        return Err(ContributionError::from_violation(x));
    }
    if let Err(x) = validate_contribution_currency(input.currency.as_str(), v.currency.as_str()) {
        return Err(ContributionError::from_violation(x));
    }
    if let Some(x) = existing {
        ensure_same_intent(&x, actor.user_id, &input)?;
        return Ok(IntentDecision::Existing(x));
    }
    let now = now_micros();
    let amount = Money { amount_minor: input.amount_minor, currency: input.currency };
    let contribution = Contribution {
        id: new_uuid(),
        vault_id: input.vault_id,
        contributor_user_id: actor.user_id,
        amount,
        status: ContributionStatus::Pending,
        source_type: input.source_type,
        external_reference: input.external_reference,
        idempotency_key: Some(input.idempotency_key.clone()),
        created_at: now,
        updated_at: now,
    };
    let mut log = AuditEvent::contribution_recorded(actor.user_id, &contribution).into_log();
    let mut m: Vec<JsonEntry> = Vec::new();
    m.push(entry("vault_id", uuid_value(contribution.vault_id)));
    m.push(entry("contributor_user_id", uuid_value(contribution.contributor_user_id)));
    m.push(entry("amount_minor", int_value(contribution.amount.amount_minor)));
    m.push(entry("currency", text_value(contribution.amount.currency.as_str())));
    m.push(entry("source_type", text_value(contribution.source_type.as_str())));
    m.push(entry("status", text_value(contribution.status.as_str())));
    m.push(entry("idempotency_key", text_value(input.idempotency_key.as_str())));
    log.metadata = JsonValue::Object(m);
    Ok(IntentDecision::Create(contribution, log))
}

/// The action recorded for each settlement step.
pub open spec fn spec_settlement_action(transition: ContributionTransition) -> Seq<char> {
    match transition {
        ContributionTransition::Confirm => "contribution.confirmed"@,
        ContributionTransition::Fail => "contribution.failed"@,
        ContributionTransition::Reverse => "contribution.reversed"@,
    }
}

pub fn settlement_action(transition: ContributionTransition) -> (a: &'static str)
    ensures
        a@ == spec_settlement_action(transition),
{
    match transition {
        ContributionTransition::Confirm => "contribution.confirmed",
        ContributionTransition::Fail => "contribution.failed",
        ContributionTransition::Reverse => "contribution.reversed",
    }
}

/// What a settlement request comes to.
#[derive(Debug)]
pub enum SettlementDecision {
    /// The contribution already has the target status: it is returned unchanged.
    Unchanged(Contribution),
    /// Move the contribution to `target` and store the audit entry with it.
    Settle { target: ContributionStatus, audit: AuditLog },
}

/// The outcome of settling the existing contribution `c`.
pub open spec fn spec_settlement_outcome(
    actor: AuthenticatedUser,
    input: SettlementInput,
    transition: ContributionTransition,
    c: Contribution,
    r: Result<SettlementDecision, ContributionError>,
) -> bool {
    match spec_contribution_transition(c.status, transition) {
        Err(v) => r matches Err(e) && spec_from_violation(v, e),
        Ok(t) => if t == c.status {
            r matches Ok(SettlementDecision::Unchanged(x)) && x == c
        } else {
            r matches Ok(SettlementDecision::Settle { target, audit }) && {
                &&& target == t
                &&& audit.actor_user_id == Some(actor.user_id)
                &&& audit.entity_type@ == "contribution"@
                &&& audit.entity_id == Some(c.id)
                &&& audit.action@ == spec_settlement_action(transition)
                &&& is_object_of(audit.metadata, 4)
                &&& key_at(audit.metadata, 0) == "vault_id"@ && is_uuid(value_at(audit.metadata, 0), c.vault_id)
                &&& key_at(audit.metadata, 1) == "from_status"@ && is_text(value_at(audit.metadata, 1), c.status.spec_text())
                &&& key_at(audit.metadata, 2) == "to_status"@ && is_text(value_at(audit.metadata, 2), t.spec_text())
                &&& key_at(audit.metadata, 3) == "external_reference_present"@ && value_at(audit.metadata, 3)
                    == JsonValue::Bool(input.external_reference is Some)
            }
        },
    }
}

/// Settles a contribution: platform administrators only, an existing
/// contribution, an allowed transition; a contribution already in the target
/// status is returned as it is, otherwise the move is to be stored with an
/// audit entry that says whether a payment reference came with it.
pub fn decide_settlement(
    actor: &AuthenticatedUser,
    input: &SettlementInput,
    transition: ContributionTransition,
    current: Option<Contribution>,
) -> (r: Result<SettlementDecision, ContributionError>)
    ensures
        actor.role != UserRole::PlatformAdmin ==> (r matches Err(e) && e is Forbidden),
        actor.role == UserRole::PlatformAdmin && current is None ==> (r matches Err(e) && e is NotFound),
        actor.role == UserRole::PlatformAdmin && current is Some ==> spec_settlement_outcome(
            *actor,
            *input,
            transition,
            current->Some_0,
            r,
        ),
{
    if let Err(x) = can_settle_contribution(actor.role) {
        return Err(ContributionError::from_violation(x));
    }
    let c = match current {
        None => return Err(ContributionError::NotFound),
        Some(c) => c,
    };
    let target = match validate_transition(c.status, transition) {
        Ok(t) => t,
        Err(x) => return Err(ContributionError::from_violation(x)),
    };
    if c.status == target {
        return Ok(SettlementDecision::Unchanged(c));
    }
    let mut audit = AuditEvent::contribution_status_changed(
        actor.user_id,
        &c,
        target.as_str(),
        input.external_reference.is_some(),
    ).into_log();
    audit.action = owned(settlement_action(transition));
    Ok(SettlementDecision::Settle { target, audit })
}


impl StatusText for VaultLedgerEntryType {
    open spec fn spec_parse_text(text: Seq<char>) -> Option<VaultLedgerEntryType> {
        VaultLedgerEntryType::spec_parse(text)
    }

    open spec fn spec_parse_error() -> Seq<char> {
        "invalid vault ledger entry type"@
    }

    fn parse_text(value: &str) -> (r: Result<VaultLedgerEntryType, &'static str>) {
        VaultLedgerEntryType::from_str(value)
    }
}

} // verus!
