//! Savings plans, milestones and vault contributors: who may create them and
//! what a new one holds. Each decision takes the records the caller loaded
//! and returns the record to store, or the error the request is answered with.

use vstd::prelude::*;

use crate::auth::{AuthenticatedUser, UserRole};
use crate::platform::{new_uuid, now_micros};
use crate::records::{ChildProfile, Milestone, SavingsPlan, SavingsVault, VaultContributor};
use crate::repos::PersistenceError;
use crate::shared::{Currency, Money};
use crate::status::{MilestoneStatus, PayoutType, PlanStatus};
use crate::text::{is_blank, opt_view, owned, sanitize_optional, spec_sanitize, str_eq, trim, trim_text};

verus! {

/// Failures of the savings services.
#[derive(Debug)]
pub enum SavingsError {
    Validation(String),
    Forbidden,
    NotFound,
    Repository(String),
}

impl SavingsError {
    /// The service error for a storage failure: conflicts are reported as
    /// validation failures.
    pub fn from_persistence(value: PersistenceError) -> (e: SavingsError)
        ensures
            match value {
                PersistenceError::NotFound => e is NotFound,
                PersistenceError::Conflict(m) => e matches SavingsError::Validation(n) && n == m,
                PersistenceError::Validation(m) => e matches SavingsError::Validation(n) && n == m,
                PersistenceError::Repository(m) => e matches SavingsError::Repository(n) && n == m,
            },
    {
        match value {
            PersistenceError::NotFound => SavingsError::NotFound,
            PersistenceError::Conflict(m) => SavingsError::Validation(m),
            PersistenceError::Validation(m) => SavingsError::Validation(m),
            PersistenceError::Repository(m) => SavingsError::Repository(m),
        }
    }
}

/// A new savings plan for a child profile.
#[derive(Debug)]
pub struct CreatePlanInput {
    pub child_profile_id: u128,
    pub name: String,
    pub description: Option<String>,
    pub target_amount_minor: i64,
    pub currency: Currency,
}

/// A new milestone of a vault; the due date is a day number.
#[derive(Debug)]
pub struct CreateMilestoneInput {
    pub vault_id: u128,
    pub title: String,
    pub description: Option<String>,
    pub due_date: i32,
    pub target_amount_minor: i64,
    pub currency: Currency,
    pub payout_type: PayoutType,
}

/// A user the vault's owner lets contribute, under a label.
#[derive(Debug)]
pub struct AddContributorInput {
    pub vault_id: u128,
    pub contributor_user_id: u128,
    pub role_label: String,
}

/// `e` is a validation failure with the message `m`.
pub open spec fn is_validation(e: SavingsError, m: Seq<char>) -> bool {
    e matches SavingsError::Validation(n) && n@ == m
}

/// The draft plan that a parent's request creates.
pub open spec fn spec_new_plan(plan: SavingsPlan, actor: AuthenticatedUser, input: CreatePlanInput) -> bool {
    &&& plan.child_profile_id == input.child_profile_id
    &&& plan.owner_user_id == actor.user_id
    &&& plan.name@ == trim(input.name@)
    &&& opt_view(plan.description) == spec_sanitize(opt_view(input.description))
    &&& plan.target_amount.amount_minor == input.target_amount_minor
    &&& plan.target_amount.currency == input.currency
    &&& plan.status == PlanStatus::Draft
    &&& plan.created_at == plan.updated_at
}

/// Creates a savings plan: parents only, a name that is not blank, a child
/// profile of their own and a target that is not negative. The plan starts
/// as a draft with its texts trimmed.
pub fn decide_create_plan(actor: &AuthenticatedUser, input: CreatePlanInput, child: Option<&ChildProfile>) -> (r:
    Result<SavingsPlan, SavingsError>)
    ensures
        actor.role != UserRole::Parent ==> (r matches Err(e) && e is Forbidden),
        actor.role == UserRole::Parent && trim(input.name@).len() == 0 ==> (r matches Err(e)
            && is_validation(e, "name is required"@)),
        actor.role == UserRole::Parent && trim(input.name@).len() > 0 ==> match child {
            None => r matches Err(e) && e is NotFound,
            Some(c) => if c.owner_user_id != actor.user_id {
                r matches Err(e) && e is Forbidden
            } else if input.target_amount_minor < 0 {
                r matches Err(e) && is_validation(e, "amount must be non-negative"@)
            } else {
                r matches Ok(plan) && spec_new_plan(plan, *actor, input)
            },
        },
{
    if actor.role != UserRole::Parent {
        return Err(SavingsError::Forbidden);
    }
    if is_blank(input.name.as_str()) {
        return Err(SavingsError::Validation(owned("name is required")));
    }
    let c = match child {
        None => return Err(SavingsError::NotFound),
        Some(c) => c,
    };
    if c.owner_user_id != actor.user_id {
        return Err(SavingsError::Forbidden);
    }
    let target_amount = match Money::new(input.target_amount_minor, input.currency) {
        Ok(m) => m,
        Err(e) => return Err(SavingsError::Validation(owned(e))),
    };
    let now = now_micros();
    Ok(SavingsPlan {
        id: new_uuid(),
        child_profile_id: input.child_profile_id,
        owner_user_id: actor.user_id,
        name: trim_text(input.name.as_str()),
        description: sanitize_optional(input.description),
        target_amount,
        status: PlanStatus::Draft,
        created_at: now,
        updated_at: now,
    })
}

/// The planned milestone that a vault owner's request creates; what it has
/// been funded with starts at zero in the vault's currency.
pub open spec fn spec_new_milestone(
    m: Milestone,
    input: CreateMilestoneInput,
    vault: SavingsVault,
) -> bool {
    &&& m.vault_id == input.vault_id
    &&& m.title@ == trim(input.title@)
    &&& opt_view(m.description) == spec_sanitize(opt_view(input.description))
    &&& m.due_date == input.due_date
    &&& m.target_amount.amount_minor == input.target_amount_minor
    &&& m.target_amount.currency == input.currency
    &&& m.funded_amount.amount_minor == 0
    &&& m.funded_amount.currency matches Currency::Fiat(code) && code@ == vault.currency@
    &&& m.payout_type == input.payout_type
    &&& m.status == MilestoneStatus::Planned
    &&& m.created_at == m.updated_at
}

/// Creates a milestone: the vault must exist and belong to the actor, the
/// title must not be blank, the currency must be the vault's and the target
/// must not be negative.
pub fn decide_create_milestone(
    actor: &AuthenticatedUser,
    input: CreateMilestoneInput,
    vault: Option<&SavingsVault>,
) -> (r: Result<Milestone, SavingsError>)
    ensures
        match vault {
            None => r matches Err(e) && e is NotFound,
            Some(v) => if v.owner_user_id != actor.user_id {
                r matches Err(e) && e is Forbidden
            } else if trim(input.title@).len() == 0 {
                r matches Err(e) && is_validation(e, "title is required"@)
            } else if v.currency@ != input.currency.spec_text() {
                r matches Err(e) && is_validation(e, "milestone currency must match vault"@)
            } else if input.target_amount_minor < 0 {
                r matches Err(e) && is_validation(e, "amount must be non-negative"@)
            } else {
                r matches Ok(m) && spec_new_milestone(m, input, *v)
            },
        },
{
    let v = match vault {
        None => return Err(SavingsError::NotFound),
        Some(v) => v,
    };
    if v.owner_user_id != actor.user_id {
        return Err(SavingsError::Forbidden);
    }
    if is_blank(input.title.as_str()) {
        return Err(SavingsError::Validation(owned("title is required")));
    }
    if !str_eq(v.currency.as_str(), input.currency.as_str()) {
        return Err(SavingsError::Validation(owned("milestone currency must match vault")));
    }
    let target_amount = match Money::new(input.target_amount_minor, input.currency) {
        Ok(m) => m,
        Err(e) => return Err(SavingsError::Validation(owned(e))),
    };
    let now = now_micros();
    Ok(Milestone {
        id: new_uuid(),
        vault_id: input.vault_id,
        title: trim_text(input.title.as_str()),
        description: sanitize_optional(input.description),
        due_date: input.due_date,
        target_amount,
        funded_amount: Money { amount_minor: 0, currency: Currency::Fiat(v.currency.clone()) },
        payout_type: input.payout_type,
        status: MilestoneStatus::Planned,
        created_at: now,
        updated_at: now,
    })
}

/// Adds a contributor to a vault: the vault must exist and belong to the
/// actor, and the label must not be blank; it is stored trimmed.
pub fn decide_add_contributor(
    actor: &AuthenticatedUser,
    input: AddContributorInput,
    vault: Option<&SavingsVault>,
) -> (r: Result<VaultContributor, SavingsError>)
    ensures
        match vault {
            None => r matches Err(e) && e is NotFound,
            Some(v) => if v.owner_user_id != actor.user_id {
                r matches Err(e) && e is Forbidden
            } else if trim(input.role_label@).len() == 0 {
                r matches Err(e) && is_validation(e, "role_label is required"@)
            } else {
                r matches Ok(c) && c.vault_id == input.vault_id && c.contributor_user_id
                    == input.contributor_user_id && c.role_label@ == trim(input.role_label@)
                    && c.created_at == c.updated_at
            },
        },
{
    let v = match vault {
        None => return Err(SavingsError::NotFound),
        Some(v) => v,
    };
    if v.owner_user_id != actor.user_id {
        return Err(SavingsError::Forbidden);
    }
    if is_blank(input.role_label.as_str()) {
        return Err(SavingsError::Validation(owned("role_label is required")));
    }
    let now = now_micros();
    Ok(VaultContributor {
        id: new_uuid(),
        vault_id: input.vault_id,
        contributor_user_id: input.contributor_user_id,
        role_label: trim_text(input.role_label.as_str()),
        created_at: now,
        updated_at: now,
    })
}

} // verus!
