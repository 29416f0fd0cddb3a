//! Scholarship services: what creating and funding a pool, applying to it,
//! deciding an application and moving an award store. Each decision takes the
//! records the caller loaded and returns what is to be written, with its
//! audit entry, or the error the request is answered with.

use vstd::prelude::*;

use crate::auth::{AuthenticatedUser, UserRole};
use crate::json::{
    entry, int_value, is_int, is_object_of, is_opt_text, is_opt_uuid, is_text, is_uuid, key_at,
    opt_text_value, opt_uuid_value, text_value, uuid_value, value_at, JsonEntry, JsonValue,
};
use crate::ledger::{
    pool_balance_after_approval, pool_balance_after_revocation, spec_pool_after_approval,
    spec_pool_after_revocation,
};
use crate::platform::{new_uuid, now_micros};
use crate::records::{
    AuditLog, ChildProfile, DonorContribution, ScholarshipApplication, ScholarshipAward, ScholarshipPool,
};
use crate::repos::{PersistenceError, ScholarshipReviewDecisionResult};
use crate::audit::AuditEvent;
use crate::scholarships::{
    spec_award_transition, validate_award_transition, AwardTransition, can_apply, can_review, ensure_pool_balance, validate_application_reviewable, can_fund_pool, spec_pool_restrictions, validate_child_profile_access, validate_currency,
    validate_pool_is_open, validate_pool_restrictions, validate_positive_amount, ScholarshipRuleViolation,
};
use crate::shared::{Currency, Money};
use crate::status::{
    DonorContributionStatus, ScholarshipApplicationStatus, ScholarshipAwardStatus, ScholarshipPoolStatus,
};
use crate::text::{is_blank, opt_view, owned, sanitize_optional, spec_sanitize, trim};

verus! {

/// Failures of the scholarship services.
#[derive(Debug)]
pub enum ScholarshipError {
    Validation(String),
    Forbidden,
    NotFound,
    Conflict(String),
    Repository(String),
}

/// `e` is the service error for the violation `v`: access failures are
/// forbidden; a closed pool, a short balance and refused award steps are
/// conflicts; the rest are validation failures.
pub open spec fn spec_scholarship_error_for(v: ScholarshipRuleViolation, e: ScholarshipError) -> bool {
    match v {
        ScholarshipRuleViolation::Forbidden
        | ScholarshipRuleViolation::ChildProfileAccessDenied => e is Forbidden,
        ScholarshipRuleViolation::PoolClosed
        | ScholarshipRuleViolation::InsufficientPoolBalance
        | ScholarshipRuleViolation::InvalidAwardTransition
        | ScholarshipRuleViolation::MissingDisbursementTarget => e matches ScholarshipError::Conflict(m)
            && m@ == v.spec_message(),
        _ => e matches ScholarshipError::Validation(m) && m@ == v.spec_message(),
    }
}

impl ScholarshipError {
    /// The service error for a storage failure.
    pub fn from_persistence(value: PersistenceError) -> (e: ScholarshipError)
        ensures
            match value {
                PersistenceError::NotFound => e is NotFound,
                PersistenceError::Conflict(m) => e matches ScholarshipError::Conflict(n) && n == m,
                PersistenceError::Validation(m) => e matches ScholarshipError::Validation(n) && n == m,
                PersistenceError::Repository(m) => e matches ScholarshipError::Repository(n) && n == m,
            },
    {
        match value {
            PersistenceError::NotFound => ScholarshipError::NotFound,
            PersistenceError::Conflict(m) => ScholarshipError::Conflict(m),
            PersistenceError::Validation(m) => ScholarshipError::Validation(m),
            PersistenceError::Repository(m) => ScholarshipError::Repository(m),
        }
    }

    /// The service error for a broken rule.
    pub fn from_violation(value: ScholarshipRuleViolation) -> (e: ScholarshipError)
        ensures
            spec_scholarship_error_for(value, e),
    {
        match value {
            ScholarshipRuleViolation::Forbidden
            | ScholarshipRuleViolation::ChildProfileAccessDenied => ScholarshipError::Forbidden,
            ScholarshipRuleViolation::PoolClosed
            | ScholarshipRuleViolation::InsufficientPoolBalance
            | ScholarshipRuleViolation::InvalidAwardTransition
            | ScholarshipRuleViolation::MissingDisbursementTarget => ScholarshipError::Conflict(
                value.message(),
            ),
            _ => ScholarshipError::Validation(value.message()),
        }
    }
}

/// A new scholarship pool and the restrictions its applications must meet.
#[derive(Debug)]
pub struct CreateScholarshipPoolInput {
    pub name: String,
    pub description: Option<String>,
    pub currency: Currency,
    pub geography_restriction: Option<String>,
    pub education_level_restriction: Option<String>,
    pub school_id_restriction: Option<u128>,
    pub category_restriction: Option<String>,
}

/// A donation into a pool.
#[derive(Debug)]
pub struct FundScholarshipPoolInput {
    pub pool_id: u128,
    pub amount_minor: i64,
    pub currency: Currency,
    pub external_reference: Option<String>,
    pub idempotency_key: String,
}

/// An application to a pool on behalf of a child profile.
#[derive(Debug)]
pub struct CreateScholarshipApplicationInput {
    pub pool_id: u128,
    pub child_profile_id: u128,
    pub student_country: Option<String>,
    pub education_level: Option<String>,
    pub school_id: Option<u128>,
    pub category: Option<String>,
    pub notes: Option<String>,
}

/// A decision on an application: the amount awarded when it is approved.
#[derive(Debug)]
pub struct DecideScholarshipApplicationInput {
    pub application_id: u128,
    pub amount_minor: i64,
    pub currency: Currency,
    pub decision_notes: Option<String>,
}

/// A step on an award, with where a disbursement goes.
#[derive(Debug)]
pub struct UpdateScholarshipAwardInput {
    pub award_id: u128,
    pub decision_notes: Option<String>,
    pub linked_payout_request_id: Option<u128>,
    pub linked_vault_id: Option<u128>,
}

/// An application, its award and its pool after a decision.
#[derive(Debug)]
pub struct ScholarshipReviewDecision {
    pub application: ScholarshipApplication,
    pub award: ScholarshipAward,
    pub pool: ScholarshipPool,
}

impl From<ScholarshipReviewDecisionResult> for ScholarshipReviewDecision {
    fn from(value: ScholarshipReviewDecisionResult) -> (d: ScholarshipReviewDecision) {
        ScholarshipReviewDecision { application: value.application, award: value.award, pool: value.pool }
    }
}

impl vstd::std_specs::convert::FromSpecImpl<ScholarshipReviewDecisionResult> for ScholarshipReviewDecision {
    open spec fn obeys_from_spec() -> bool {
        true
    }

    open spec fn from_spec(v: ScholarshipReviewDecisionResult) -> ScholarshipReviewDecision {
        ScholarshipReviewDecision { application: v.application, award: v.award, pool: v.pool }
    }
}

/// `log` is a fresh scholarship audit entry by `actor_user_id` about `entity_id`.
pub open spec fn spec_scholarship_audit(
    log: AuditLog,
    actor_user_id: u128,
    action: Seq<char>,
    entity_id: u128,
) -> bool {
    &&& log.actor_user_id == Some(actor_user_id)
    &&& log.entity_type@ == "scholarship"@
    &&& log.entity_id == Some(entity_id)
    &&& log.action@ == action
    &&& log.request_id is None && log.correlation_id is None
    &&& log.created_at == log.updated_at
}

fn scholarship_audit(actor_user_id: u128, action: &str, entity_id: u128, metadata: JsonValue) -> (log:
    AuditLog)
    ensures
        spec_scholarship_audit(log, actor_user_id, action@, entity_id),
        log.metadata == metadata,
{
    let now = now_micros();
    AuditLog {
        id: new_uuid(),
        actor_user_id: Some(actor_user_id),
        entity_type: owned("scholarship"),
        entity_id: Some(entity_id),
        action: owned(action),
        request_id: None,
        correlation_id: None,
        metadata,
        created_at: now,
        updated_at: now,
    }
}

/// Whether optional notes, cleaned, say anything.
pub open spec fn spec_notes_given(notes: Option<String>) -> bool {
    spec_sanitize(opt_view(notes)) is Some
}

fn notes_given(notes: &Option<String>) -> (r: bool)
    ensures
        r == spec_notes_given(*notes),
{
    match notes {
        Some(n) => !is_blank(n.as_str()),
        None => false,
    }
}

/// The open pool, without funds, and the audit entry that creating it stores.
pub open spec fn spec_new_pool(
    pool: ScholarshipPool,
    log: AuditLog,
    actor: AuthenticatedUser,
    input: CreateScholarshipPoolInput,
) -> bool {
    &&& pool.owner_user_id == actor.user_id
    &&& pool.name == input.name
    &&& opt_view(pool.description) == spec_sanitize(opt_view(input.description))
    &&& pool.status == ScholarshipPoolStatus::Open
    &&& pool.available_funds.amount_minor == 0 && pool.available_funds.currency == input.currency
    &&& opt_view(pool.geography_restriction) == spec_sanitize(opt_view(input.geography_restriction))
    &&& opt_view(pool.education_level_restriction) == spec_sanitize(
        opt_view(input.education_level_restriction),
    )
    &&& pool.school_id_restriction == input.school_id_restriction
    &&& opt_view(pool.category_restriction) == spec_sanitize(opt_view(input.category_restriction))
    &&& pool.created_at == pool.updated_at
    &&& spec_scholarship_audit(log, actor.user_id, "scholarship_pool.created"@, pool.id)
    &&& is_object_of(log.metadata, 6)
    &&& key_at(log.metadata, 0) == "owner_user_id"@ && is_uuid(value_at(log.metadata, 0), actor.user_id)
    &&& key_at(log.metadata, 1) == "currency"@ && is_text(value_at(log.metadata, 1), input.currency.spec_text())
    &&& key_at(log.metadata, 2) == "geography_restriction"@ && is_opt_text(value_at(log.metadata, 2), opt_view(pool.geography_restriction))
    &&& key_at(log.metadata, 3) == "education_level_restriction"@ && is_opt_text(value_at(log.metadata, 3), opt_view(pool.education_level_restriction))
    &&& key_at(log.metadata, 4) == "school_id_restriction"@ && is_opt_uuid(value_at(log.metadata, 4), pool.school_id_restriction)
    &&& key_at(log.metadata, 5) == "category_restriction"@ && is_opt_text(value_at(log.metadata, 5), opt_view(pool.category_restriction))
}

fn opt_ref(o: &Option<String>) -> (r: Option<&str>)
    ensures
        match o {
            Some(s) => r matches Some(t) && t@ == s@,
            None => r is None,
        },
{
    match o {
        Some(s) => Some(s.as_str()),
        None => None,
    }
}

/// Creates a scholarship pool: donors and platform administrators only, and a
/// name that is not blank. The pool opens empty in the requested currency,
/// with its optional texts cleaned.
pub fn decide_create_pool(actor: &AuthenticatedUser, input: CreateScholarshipPoolInput) -> (r: Result<
    (ScholarshipPool, AuditLog),
    ScholarshipError,
>)
    ensures
        !(actor.role == UserRole::Donor || actor.role == UserRole::PlatformAdmin) ==> (r matches Err(e)
            && e is Forbidden),
        (actor.role == UserRole::Donor || actor.role == UserRole::PlatformAdmin) && trim(input.name@).len()
            == 0 ==> (r matches Err(e) && e matches ScholarshipError::Validation(m) && m@
            == "name is required"@),
        (actor.role == UserRole::Donor || actor.role == UserRole::PlatformAdmin) && trim(input.name@).len()
            > 0 ==> (r matches Ok((pool, log)) && spec_new_pool(pool, log, *actor, input)),
{
    if !(actor.role == UserRole::Donor || actor.role == UserRole::PlatformAdmin) {
        return Err(ScholarshipError::Forbidden);
    }
    if is_blank(input.name.as_str()) {
        return Err(ScholarshipError::Validation(owned("name is required")));
    }
    let now = now_micros();
    let pool = ScholarshipPool {
        id: new_uuid(),
        owner_user_id: actor.user_id,
        name: input.name,
        description: sanitize_optional(input.description),
        status: ScholarshipPoolStatus::Open,
        available_funds: Money { amount_minor: 0, currency: input.currency },
        geography_restriction: sanitize_optional(input.geography_restriction),
        education_level_restriction: sanitize_optional(input.education_level_restriction),
        school_id_restriction: input.school_id_restriction,
        category_restriction: sanitize_optional(input.category_restriction),
        created_at: now,
        updated_at: now,
    };
    let mut m: Vec<JsonEntry> = Vec::new();
    m.push(entry("owner_user_id", uuid_value(pool.owner_user_id)));
    m.push(entry("currency", text_value(pool.available_funds.currency.as_str())));
    m.push(entry("geography_restriction", opt_text_value(opt_ref(&pool.geography_restriction))));
    m.push(entry("education_level_restriction", opt_text_value(opt_ref(&pool.education_level_restriction))));
    m.push(entry("school_id_restriction", opt_uuid_value(pool.school_id_restriction)));
    m.push(entry("category_restriction", opt_text_value(opt_ref(&pool.category_restriction))));
    let log = scholarship_audit(actor.user_id, "scholarship_pool.created", pool.id, JsonValue::Object(m));
    Ok((pool, log))
}


/// Why a scholarship request is refused, before it is put into words.
#[derive(Clone, Copy, Debug, PartialEq, Eq, Structural)]
pub enum ScholarshipFailure {
    NotFound,
    Rule(ScholarshipRuleViolation),
}

/// `e` is the service error for the refusal `f`.
pub open spec fn spec_failure_error(f: ScholarshipFailure, e: ScholarshipError) -> bool {
    match f {
        ScholarshipFailure::NotFound => e is NotFound,
        ScholarshipFailure::Rule(v) => spec_scholarship_error_for(v, e),
    }
}

/// Donors and platform administrators see the donations made to a pool.
pub fn check_donation_listing(actor: &AuthenticatedUser) -> (r: Result<(), ScholarshipError>)
    ensures
        r is Ok <==> (actor.role == UserRole::Donor || actor.role == UserRole::PlatformAdmin),
        r matches Err(e) ==> e is Forbidden,
{
    if !(actor.role == UserRole::Donor || actor.role == UserRole::PlatformAdmin) {
        return Err(ScholarshipError::Forbidden);
    }
    Ok(())
}

/// A pool by its identifier, or not found.
pub fn found_pool(pool: Option<ScholarshipPool>) -> (r: Result<ScholarshipPool, ScholarshipError>)
    ensures
        match pool {
            Some(p) => r == Ok::<ScholarshipPool, ScholarshipError>(p),
            None => r matches Err(e) && e is NotFound,
        },
{
    match pool {
        Some(p) => Ok(p),
        None => Err(ScholarshipError::NotFound),
    }
}

/// The first reason a donation is refused, checked in the service's order.
pub open spec fn spec_funding_refusal(
    actor: AuthenticatedUser,
    input: FundScholarshipPoolInput,
    pool: Option<ScholarshipPool>,
) -> Option<ScholarshipFailure> {
    if !(actor.role == UserRole::Donor || actor.role == UserRole::PlatformAdmin) {
        Some(ScholarshipFailure::Rule(ScholarshipRuleViolation::Forbidden))
    } else if input.amount_minor <= 0 {
        Some(ScholarshipFailure::Rule(ScholarshipRuleViolation::AmountMustBePositive))
    } else if pool is None {
        Some(ScholarshipFailure::NotFound)
    } else if pool->Some_0.status != ScholarshipPoolStatus::Open {
        Some(ScholarshipFailure::Rule(ScholarshipRuleViolation::PoolClosed))
    } else if pool->Some_0.available_funds.currency.spec_text() != input.currency.spec_text() {
        Some(ScholarshipFailure::Rule(ScholarshipRuleViolation::CurrencyMismatch))
    } else {
        None
    }
}

/// The confirmed donation and the audit entry that funding a pool stores.
pub open spec fn spec_new_donation(
    c: DonorContribution,
    log: AuditLog,
    actor: AuthenticatedUser,
    input: FundScholarshipPoolInput,
    pool: ScholarshipPool,
) -> bool {
    &&& c.pool_id == pool.id
    &&& c.donor_user_id == actor.user_id
    &&& c.amount.amount_minor == input.amount_minor && c.amount.currency == input.currency
    &&& c.status == DonorContributionStatus::Confirmed
    &&& opt_view(c.external_reference) == spec_sanitize(opt_view(input.external_reference))
    &&& c.idempotency_key == Some(input.idempotency_key)
    &&& c.created_at == c.updated_at
    &&& spec_scholarship_audit(log, actor.user_id, "scholarship_pool.funded"@, pool.id)
    &&& is_object_of(log.metadata, 4)
    &&& key_at(log.metadata, 0) == "donor_user_id"@ && is_uuid(value_at(log.metadata, 0), actor.user_id)
    &&& key_at(log.metadata, 1) == "amount_minor"@ && is_int(value_at(log.metadata, 1), input.amount_minor as int)
    &&& key_at(log.metadata, 2) == "currency"@ && is_text(value_at(log.metadata, 2), input.currency.spec_text())
    &&& key_at(log.metadata, 3) == "external_reference_present"@ && value_at(log.metadata, 3)
        == JsonValue::Bool(c.external_reference is Some)
}

/// Funds a pool: donors and platform administrators only, a positive amount,
/// an open pool and its currency. The donation is stored as confirmed.
pub fn decide_fund_pool(
    actor: &AuthenticatedUser,
    input: FundScholarshipPoolInput,
    pool: Option<&ScholarshipPool>,
) -> (r: Result<(DonorContribution, AuditLog), ScholarshipError>)
    ensures
        match spec_funding_refusal(*actor, input, match pool { Some(p) => Some(*p), None => None }) {
            Some(f) => r matches Err(e) && spec_failure_error(f, e),
            None => r matches Ok((c, log)) && spec_new_donation(c, log, *actor, input, *pool->Some_0),
        },
{
    if let Err(x) = can_fund_pool(actor.role) {
        return Err(ScholarshipError::from_violation(x));
    }
    if let Err(x) = validate_positive_amount(input.amount_minor) {
        return Err(ScholarshipError::from_violation(x));
    }
    let p = match pool {
        None => return Err(ScholarshipError::NotFound),
        Some(p) => p,
    };
    if let Err(x) = validate_pool_is_open(p) {
        return Err(ScholarshipError::from_violation(x));
    }
    if let Err(x) = validate_currency(p.available_funds.currency.as_str(), input.currency.as_str()) {
        return Err(ScholarshipError::from_violation(x));
    }
    let now = now_micros();
    let contribution = DonorContribution {
        id: new_uuid(),
        pool_id: p.id,
        donor_user_id: actor.user_id,
        amount: Money { amount_minor: input.amount_minor, currency: input.currency },
        status: DonorContributionStatus::Confirmed,
        external_reference: sanitize_optional(input.external_reference),
        idempotency_key: Some(input.idempotency_key),
        created_at: now,
        updated_at: now,
    };
    let mut m: Vec<JsonEntry> = Vec::new();
    m.push(entry("donor_user_id", uuid_value(actor.user_id)));
    m.push(entry("amount_minor", int_value(contribution.amount.amount_minor)));
    m.push(entry("currency", text_value(contribution.amount.currency.as_str())));
    m.push(entry("external_reference_present", JsonValue::Bool(contribution.external_reference.is_some())));
    let log = scholarship_audit(actor.user_id, "scholarship_pool.funded", p.id, JsonValue::Object(m));
    Ok((contribution, log))
}

/// The education level an application is checked with: its own, or else the child's.
pub open spec fn spec_effective_level(given: Option<String>, child: ChildProfile) -> Option<String> {
    match given {
        Some(l) => Some(l),
        None => child.education_level,
    }
}

/// The first reason an application is refused, checked in the service's order.
pub open spec fn spec_application_refusal(
    actor: AuthenticatedUser,
    input: CreateScholarshipApplicationInput,
    pool: Option<ScholarshipPool>,
    child: Option<ChildProfile>,
) -> Option<ScholarshipFailure> {
    if !(actor.role == UserRole::Parent || actor.role == UserRole::Student) {
        Some(ScholarshipFailure::Rule(ScholarshipRuleViolation::Forbidden))
    } else if pool is None {
        Some(ScholarshipFailure::NotFound)
    } else if pool->Some_0.status != ScholarshipPoolStatus::Open {
        Some(ScholarshipFailure::Rule(ScholarshipRuleViolation::PoolClosed))
    } else if child is None {
        Some(ScholarshipFailure::NotFound)
    } else if !(actor.role == UserRole::Student || actor.user_id == child->Some_0.owner_user_id) {
        Some(ScholarshipFailure::Rule(ScholarshipRuleViolation::ChildProfileAccessDenied))
    } else {
        match spec_pool_restrictions(
            pool->Some_0,
            opt_view(input.student_country),
            opt_view(spec_effective_level(input.education_level, child->Some_0)),
            input.school_id,
            opt_view(input.category),
        ) {
            Err(v) => Some(ScholarshipFailure::Rule(v)),
            Ok(_) => None,
        }
    }
}

/// The submitted application and the audit entry that applying stores.
pub open spec fn spec_new_application(
    a: ScholarshipApplication,
    log: AuditLog,
    actor: AuthenticatedUser,
    input: CreateScholarshipApplicationInput,
    pool: ScholarshipPool,
    child: ChildProfile,
) -> bool {
    &&& a.pool_id == pool.id
    &&& a.applicant_user_id == actor.user_id
    &&& a.child_profile_id == child.id
    &&& opt_view(a.student_country) == spec_sanitize(opt_view(input.student_country))
    &&& opt_view(a.education_level) == spec_sanitize(opt_view(spec_effective_level(input.education_level, child)))
    &&& a.school_id == input.school_id
    &&& opt_view(a.category) == spec_sanitize(opt_view(input.category))
    &&& a.status == ScholarshipApplicationStatus::Submitted
    &&& opt_view(a.notes) == spec_sanitize(opt_view(input.notes))
    &&& a.created_at == a.updated_at
    &&& spec_scholarship_audit(log, actor.user_id, "scholarship_application.submitted"@, a.id)
    &&& is_object_of(log.metadata, 6)
    &&& key_at(log.metadata, 0) == "pool_id"@ && is_uuid(value_at(log.metadata, 0), pool.id)
    &&& key_at(log.metadata, 1) == "child_profile_id"@ && is_uuid(value_at(log.metadata, 1), child.id)
    &&& key_at(log.metadata, 2) == "student_country"@ && is_opt_text(value_at(log.metadata, 2), opt_view(a.student_country))
    &&& key_at(log.metadata, 3) == "education_level"@ && is_opt_text(value_at(log.metadata, 3), opt_view(a.education_level))
    &&& key_at(log.metadata, 4) == "school_id"@ && is_opt_uuid(value_at(log.metadata, 4), a.school_id)
    &&& key_at(log.metadata, 5) == "category"@ && is_opt_text(value_at(log.metadata, 5), opt_view(a.category))
}

fn copy_opt(o: &Option<String>) -> (r: Option<String>)
    ensures
        r == *o,
{
    match o {
        Some(s) => Some(s.clone()),
        None => None,
    }
}

/// Applies to a pool: parents and students only, an open pool, a child
/// profile the actor may apply with, and the pool's restrictions met (the
/// child's education level stands in for a missing one).
pub fn decide_application(
    actor: &AuthenticatedUser,
    input: CreateScholarshipApplicationInput,
    pool: Option<&ScholarshipPool>,
    child: Option<&ChildProfile>,
) -> (r: Result<(ScholarshipApplication, AuditLog), ScholarshipError>)
    ensures
        match spec_application_refusal(
            *actor,
            input,
            match pool { Some(p) => Some(*p), None => None },
            match child { Some(c) => Some(*c), None => None },
        ) {
            Some(f) => r matches Err(e) && spec_failure_error(f, e),
            None => r matches Ok((a, log)) && spec_new_application(a, log, *actor, input, *pool->Some_0, *child->Some_0),
        },
{
    if let Err(x) = can_apply(actor.role) {
        return Err(ScholarshipError::from_violation(x));
    }
    let p = match pool {
        None => return Err(ScholarshipError::NotFound),
        Some(p) => p,
    };
    if let Err(x) = validate_pool_is_open(p) {
        return Err(ScholarshipError::from_violation(x));
    }
    let c = match child {
        None => return Err(ScholarshipError::NotFound),
        Some(c) => c,
    };
    if let Err(x) = validate_child_profile_access(actor.role, actor.user_id, c.owner_user_id) {
        return Err(ScholarshipError::from_violation(x));
    }
    let education_level = match &input.education_level {
        Some(l) => Some(l.clone()),
        None => copy_opt(&c.education_level),
    };
    if let Err(x) = validate_pool_restrictions(
        p,
        opt_ref(&input.student_country),
        opt_ref(&education_level),
        input.school_id,
        opt_ref(&input.category),
    ) {
        return Err(ScholarshipError::from_violation(x));
    }
    let now = now_micros();
    let application = ScholarshipApplication {
        id: new_uuid(),
        pool_id: p.id,
        applicant_user_id: actor.user_id,
        child_profile_id: c.id,
        student_country: sanitize_optional(input.student_country),
        education_level: sanitize_optional(education_level),
        school_id: input.school_id,
        category: sanitize_optional(input.category),
        status: ScholarshipApplicationStatus::Submitted,
        notes: sanitize_optional(input.notes),
        created_at: now,
        updated_at: now,
    };
    let mut m: Vec<JsonEntry> = Vec::new();
    m.push(entry("pool_id", uuid_value(application.pool_id)));
    m.push(entry("child_profile_id", uuid_value(application.child_profile_id)));
    m.push(entry("student_country", opt_text_value(opt_ref(&application.student_country))));
    m.push(entry("education_level", opt_text_value(opt_ref(&application.education_level))));
    m.push(entry("school_id", opt_uuid_value(application.school_id)));
    m.push(entry("category", opt_text_value(opt_ref(&application.category))));
    let log = scholarship_audit(
        actor.user_id,
        "scholarship_application.submitted",
        application.id,
        JsonValue::Object(m),
    );
    Ok((application, log))
}


/// What a decision on an application stores: the application's new status,
/// the award, the pool's remaining balance and the audit entry.
#[derive(Debug)]
pub struct ApplicationDecision {
    pub application_id: u128,
    pub application_status: ScholarshipApplicationStatus,
    pub award: ScholarshipAward,
    pub pool_available_funds_minor: i64,
    pub audit: AuditLog,
}

/// The first reason a decision on an application is refused, checked in the
/// service's order; `approving` adds the checks on the awarded amount.
pub open spec fn spec_decision_refusal(
    actor: AuthenticatedUser,
    input: DecideScholarshipApplicationInput,
    approving: bool,
    application: Option<ScholarshipApplication>,
    pool: Option<ScholarshipPool>,
) -> Option<ScholarshipFailure> {
    if actor.role != UserRole::PlatformAdmin {
        Some(ScholarshipFailure::Rule(ScholarshipRuleViolation::Forbidden))
    } else if approving && input.amount_minor <= 0 {
        Some(ScholarshipFailure::Rule(ScholarshipRuleViolation::AmountMustBePositive))
    } else if application is None {
        Some(ScholarshipFailure::NotFound)
    } else if !(application->Some_0.status == ScholarshipApplicationStatus::Submitted
        || application->Some_0.status == ScholarshipApplicationStatus::UnderReview) {
        Some(ScholarshipFailure::Rule(ScholarshipRuleViolation::InvalidAwardTransition))
    } else if pool is None {
        Some(ScholarshipFailure::NotFound)
    } else if approving && pool->Some_0.available_funds.currency.spec_text() != input.currency.spec_text() {
        Some(ScholarshipFailure::Rule(ScholarshipRuleViolation::CurrencyMismatch))
    } else if approving && input.amount_minor > pool->Some_0.available_funds.amount_minor {
        Some(ScholarshipFailure::Rule(ScholarshipRuleViolation::InsufficientPoolBalance))
    } else {
        None
    }
}

/// The award of a decision on `application` with status `status`.
pub open spec fn spec_new_award(
    award: ScholarshipAward,
    actor: AuthenticatedUser,
    input: DecideScholarshipApplicationInput,
    application: ScholarshipApplication,
    status: ScholarshipAwardStatus,
) -> bool {
    &&& award.application_id == application.id
    &&& award.decided_by == actor.user_id
    &&& award.amount.amount_minor == input.amount_minor && award.amount.currency == input.currency
    &&& award.status == status
    &&& opt_view(award.decision_notes) == spec_sanitize(opt_view(input.decision_notes))
    &&& award.linked_payout_request_id is None && award.linked_vault_id is None
    &&& award.created_at == award.updated_at
}

/// The audit entry of a decision: an award entry by the deciding administrator, with the given action.
pub open spec fn spec_decision_audit(
    log: AuditLog,
    actor: AuthenticatedUser,
    award: ScholarshipAward,
    action: Seq<char>,
) -> bool {
    &&& log.actor_user_id == Some(actor.user_id)
    &&& log.entity_type@ == "scholarship_award"@
    &&& log.entity_id == Some(award.id)
    &&& log.action@ == action
    &&& log.request_id is None && log.correlation_id is None
}

/// Approves an application: platform administrators only, a positive
/// amount, an application still awaiting a decision, its pool, the pool's
/// currency and enough in the pool. The award is approved and the amount
/// leaves the pool's balance.
pub fn decide_approval(
    actor: &AuthenticatedUser,
    input: DecideScholarshipApplicationInput,
    application: Option<&ScholarshipApplication>,
    pool: Option<&ScholarshipPool>,
) -> (r: Result<ApplicationDecision, ScholarshipError>)
    ensures
        match spec_decision_refusal(
            *actor,
            input,
            true,
            match application { Some(a) => Some(*a), None => None },
            match pool { Some(p) => Some(*p), None => None },
        ) {
            Some(f) => r matches Err(e) && spec_failure_error(f, e),
            None => r matches Ok(d) && {
                let a = *application->Some_0;
                let p = *pool->Some_0;
                &&& d.application_id == a.id
                &&& d.application_status == ScholarshipApplicationStatus::Approved
                &&& spec_new_award(d.award, *actor, input, a, ScholarshipAwardStatus::Approved)
                &&& d.pool_available_funds_minor == spec_pool_after_approval(p.available_funds.amount_minor as int, input.amount_minor as int)
                &&& spec_decision_audit(d.audit, *actor, d.award, "scholarship_application.approved"@)
                &&& is_object_of(d.audit.metadata, 6)
                &&& key_at(d.audit.metadata, 0) == "pool_id"@ && is_uuid(value_at(d.audit.metadata, 0), a.pool_id)
                &&& key_at(d.audit.metadata, 1) == "award_id"@ && is_uuid(value_at(d.audit.metadata, 1), d.award.id)
                &&& key_at(d.audit.metadata, 2) == "decision"@ && is_text(value_at(d.audit.metadata, 2), "approved"@)
                &&& key_at(d.audit.metadata, 3) == "amount_minor"@ && is_int(value_at(d.audit.metadata, 3), input.amount_minor as int)
                &&& key_at(d.audit.metadata, 4) == "currency"@ && is_text(value_at(d.audit.metadata, 4), input.currency.spec_text())
                &&& key_at(d.audit.metadata, 5) == "decision_notes_present"@ && value_at(d.audit.metadata, 5)
                    == JsonValue::Bool(spec_notes_given(input.decision_notes))
            },
        },
{
    if let Err(x) = can_review(actor.role) {
        return Err(ScholarshipError::from_violation(x));
    }
    if let Err(x) = validate_positive_amount(input.amount_minor) {
        return Err(ScholarshipError::from_violation(x));
    }
    let a = match application {
        None => return Err(ScholarshipError::NotFound),
        Some(a) => a,
    };
    if let Err(x) = validate_application_reviewable(a.status) {
        return Err(ScholarshipError::from_violation(x));
    }
    let p = match pool {
        None => return Err(ScholarshipError::NotFound),
        Some(p) => p,
    };
    if let Err(x) = validate_currency(p.available_funds.currency.as_str(), input.currency.as_str()) {
        return Err(ScholarshipError::from_violation(x));
    }
    if let Err(x) = ensure_pool_balance(p.available_funds.amount_minor, input.amount_minor) {
        return Err(ScholarshipError::from_violation(x));
    }
    let now = now_micros();
    let award = ScholarshipAward {
        id: new_uuid(),
        application_id: a.id,
        decided_by: actor.user_id,
        amount: Money { amount_minor: input.amount_minor, currency: input.currency },
        status: ScholarshipAwardStatus::Approved,
        decision_notes: sanitize_optional(input.decision_notes),
        linked_payout_request_id: None,
        linked_vault_id: None,
        created_at: now,
        updated_at: now,
    };
    let mut audit = AuditEvent::scholarship_decision(actor.user_id, a.id, &award, p).into_log();
    audit.action = owned("scholarship_application.approved");
    let mut m: Vec<JsonEntry> = Vec::new();
    m.push(entry("pool_id", uuid_value(a.pool_id)));
    m.push(entry("award_id", uuid_value(award.id)));
    m.push(entry("decision", text_value("approved")));
    m.push(entry("amount_minor", int_value(award.amount.amount_minor)));
    m.push(entry("currency", text_value(award.amount.currency.as_str())));
    m.push(entry("decision_notes_present", JsonValue::Bool(award.decision_notes.is_some())));
    audit.metadata = JsonValue::Object(m);
    let remaining = pool_balance_after_approval(p.available_funds.amount_minor, input.amount_minor);
    Ok(ApplicationDecision {
        application_id: a.id,
        application_status: ScholarshipApplicationStatus::Approved,
        award,
        pool_available_funds_minor: remaining,
        audit,
    })
}

/// Rejects an application: platform administrators only, an application
/// still awaiting a decision and its pool; the amount given must not be
/// negative. The award is recorded as rejected and the pool keeps its balance.
pub fn decide_rejection(
    actor: &AuthenticatedUser,
    input: DecideScholarshipApplicationInput,
    application: Option<&ScholarshipApplication>,
    pool: Option<&ScholarshipPool>,
) -> (r: Result<ApplicationDecision, ScholarshipError>)
    ensures
        match spec_decision_refusal(
            *actor,
            input,
            false,
            match application { Some(a) => Some(*a), None => None },
            match pool { Some(p) => Some(*p), None => None },
        ) {
            Some(f) => r matches Err(e) && spec_failure_error(f, e),
            None => if input.amount_minor < 0 {
                r matches Err(e) && e matches ScholarshipError::Validation(m) && m@ == "amount must be non-negative"@
            } else {
                r matches Ok(d) && {
                    let a = *application->Some_0;
                    let p = *pool->Some_0;
                    &&& d.application_id == a.id
                    &&& d.application_status == ScholarshipApplicationStatus::Rejected
                    &&& spec_new_award(d.award, *actor, input, a, ScholarshipAwardStatus::Rejected)
                    &&& d.pool_available_funds_minor == p.available_funds.amount_minor
                    &&& spec_decision_audit(d.audit, *actor, d.award, "scholarship_application.rejected"@)
                    &&& is_object_of(d.audit.metadata, 4)
                    &&& key_at(d.audit.metadata, 0) == "pool_id"@ && is_uuid(value_at(d.audit.metadata, 0), a.pool_id)
                    &&& key_at(d.audit.metadata, 1) == "award_id"@ && is_uuid(value_at(d.audit.metadata, 1), d.award.id)
                    &&& key_at(d.audit.metadata, 2) == "decision"@ && is_text(value_at(d.audit.metadata, 2), "rejected"@)
                    &&& key_at(d.audit.metadata, 3) == "decision_notes_present"@ && value_at(d.audit.metadata, 3)
                        == JsonValue::Bool(spec_notes_given(input.decision_notes))
                }
            },
        },
{
    if let Err(x) = can_review(actor.role) {
        return Err(ScholarshipError::from_violation(x));
    }
    let a = match application {
        None => return Err(ScholarshipError::NotFound),
        Some(a) => a,
    };
    if let Err(x) = validate_application_reviewable(a.status) {
        return Err(ScholarshipError::from_violation(x));
    }
    let p = match pool {
        None => return Err(ScholarshipError::NotFound),
        Some(p) => p,
    };
    let amount = match Money::new(input.amount_minor, input.currency) {
        Ok(m) => m,
        Err(e) => return Err(ScholarshipError::Validation(owned(e))),
    };
    let now = now_micros();
    let award = ScholarshipAward {
        id: new_uuid(),
        application_id: a.id,
        decided_by: actor.user_id,
        amount,
        status: ScholarshipAwardStatus::Rejected,
        decision_notes: sanitize_optional(input.decision_notes),
        linked_payout_request_id: None,
        linked_vault_id: None,
        created_at: now,
        updated_at: now,
    };
    let mut audit = AuditEvent::scholarship_decision(actor.user_id, a.id, &award, p).into_log();
    audit.action = owned("scholarship_application.rejected");
    let mut m: Vec<JsonEntry> = Vec::new();
    m.push(entry("pool_id", uuid_value(a.pool_id)));
    m.push(entry("award_id", uuid_value(award.id)));
    m.push(entry("decision", text_value("rejected")));
    m.push(entry("decision_notes_present", JsonValue::Bool(award.decision_notes.is_some())));
    audit.metadata = JsonValue::Object(m);
    Ok(ApplicationDecision {
        application_id: a.id,
        application_status: ScholarshipApplicationStatus::Rejected,
        award,
        pool_available_funds_minor: p.available_funds.amount_minor,
        audit,
    })
}


/// What a step on an award stores: its new status and links, the pool's
/// balance afterwards and the audit entry.
#[derive(Debug)]
pub struct AwardStep {
    pub award_id: u128,
    pub status: ScholarshipAwardStatus,
    pub linked_payout_request_id: Option<u128>,
    pub linked_vault_id: Option<u128>,
    pub pool_available_funds_minor: i64,
    pub audit: AuditLog,
}

/// The first reason a step on an award is refused, checked in the service's order.
pub open spec fn spec_award_step_refusal(
    actor: AuthenticatedUser,
    input: UpdateScholarshipAwardInput,
    transition: AwardTransition,
    award: Option<ScholarshipAward>,
    application: Option<ScholarshipApplication>,
    pool: Option<ScholarshipPool>,
) -> Option<ScholarshipFailure> {
    if actor.role != UserRole::PlatformAdmin {
        Some(ScholarshipFailure::Rule(ScholarshipRuleViolation::Forbidden))
    } else if award is None {
        Some(ScholarshipFailure::NotFound)
    } else if let Err(v) = spec_award_transition(
        award->Some_0.status,
        transition,
        input.linked_payout_request_id,
        input.linked_vault_id,
    ) {
        Some(ScholarshipFailure::Rule(v))
    } else if application is None || pool is None {
        Some(ScholarshipFailure::NotFound)
    } else {
        None
    }
}

/// Disburses an approved award to a payout request or a vault: platform
/// administrators only, and the award, its application and pool must exist.
/// The award takes the links given; the pool keeps its balance.
pub fn decide_disbursement(
    actor: &AuthenticatedUser,
    input: &UpdateScholarshipAwardInput,
    award: Option<&ScholarshipAward>,
    application: Option<&ScholarshipApplication>,
    pool: Option<&ScholarshipPool>,
) -> (r: Result<AwardStep, ScholarshipError>)
    ensures
        match spec_award_step_refusal(
            *actor,
            *input,
            AwardTransition::Disburse,
            match award { Some(a) => Some(*a), None => None },
            match application { Some(a) => Some(*a), None => None },
            match pool { Some(p) => Some(*p), None => None },
        ) {
            Some(f) => r matches Err(e) && spec_failure_error(f, e),
            None => r matches Ok(d) && {
                let w = *award->Some_0;
                let p = *pool->Some_0;
                &&& d.award_id == w.id
                &&& spec_award_transition(
                    w.status,
                    AwardTransition::Disburse,
                    input.linked_payout_request_id,
                    input.linked_vault_id,
                ) == Ok::<ScholarshipAwardStatus, ScholarshipRuleViolation>(d.status)
                &&& d.linked_payout_request_id == input.linked_payout_request_id
                &&& d.linked_vault_id == input.linked_vault_id
                &&& d.pool_available_funds_minor == p.available_funds.amount_minor
                &&& spec_scholarship_audit(d.audit, actor.user_id, "scholarship_award.disbursed"@, w.id)
                &&& is_object_of(d.audit.metadata, 4)
                &&& key_at(d.audit.metadata, 0) == "pool_id"@ && is_uuid(value_at(d.audit.metadata, 0), p.id)
                &&& key_at(d.audit.metadata, 1) == "linked_payout_request_id"@ && is_opt_uuid(value_at(d.audit.metadata, 1), input.linked_payout_request_id)
                &&& key_at(d.audit.metadata, 2) == "linked_vault_id"@ && is_opt_uuid(value_at(d.audit.metadata, 2), input.linked_vault_id)
                &&& key_at(d.audit.metadata, 3) == "decision_notes_present"@ && value_at(d.audit.metadata, 3)
                    == JsonValue::Bool(spec_notes_given(input.decision_notes))
            },
        },
{
    if let Err(x) = can_review(actor.role) {
        return Err(ScholarshipError::from_violation(x));
    }
    let w = match award {
        None => return Err(ScholarshipError::NotFound),
        Some(w) => w,
    };
    let target = match validate_award_transition(
        w.status,
        AwardTransition::Disburse,
        input.linked_payout_request_id,
        input.linked_vault_id,
    ) {
        Ok(t) => t,
        Err(x) => return Err(ScholarshipError::from_violation(x)),
    };
    if application.is_none() {
        return Err(ScholarshipError::NotFound);
    }
    let p = match pool {
        None => return Err(ScholarshipError::NotFound),
        Some(p) => p,
    };
    let mut m: Vec<JsonEntry> = Vec::new();
    m.push(entry("pool_id", uuid_value(p.id)));
    m.push(entry("linked_payout_request_id", opt_uuid_value(input.linked_payout_request_id)));
    m.push(entry("linked_vault_id", opt_uuid_value(input.linked_vault_id)));
    m.push(entry("decision_notes_present", JsonValue::Bool(notes_given(&input.decision_notes))));
    let audit = scholarship_audit(actor.user_id, "scholarship_award.disbursed", w.id, JsonValue::Object(m));
    Ok(AwardStep {
        award_id: w.id,
        status: target,
        linked_payout_request_id: input.linked_payout_request_id,
        linked_vault_id: input.linked_vault_id,
        pool_available_funds_minor: p.available_funds.amount_minor,
        audit,
    })
}

/// Whether giving an award's amount back to a pool stays within range.
pub open spec fn restorable(award: Option<&ScholarshipAward>, pool: Option<&ScholarshipPool>) -> bool {
    match (award, pool) {
        (Some(w), Some(p)) => i64::MIN <= p.available_funds.amount_minor + w.amount.amount_minor
            <= i64::MAX,
        _ => true,
    }
}

/// Whether a revocation gets as far as giving the award's amount back to the
/// pool, where the sum must stay within `i64`: every check before it passes.
pub fn revocation_reaches_pool_update(
    actor: &AuthenticatedUser,
    input: &UpdateScholarshipAwardInput,
    award: Option<&ScholarshipAward>,
    application: Option<&ScholarshipApplication>,
    pool: Option<&ScholarshipPool>,
) -> (b: bool)
    ensures
        b == (spec_award_step_refusal(
            *actor,
            *input,
            AwardTransition::Revoke,
            match award { Some(a) => Some(*a), None => None },
            match application { Some(a) => Some(*a), None => None },
            match pool { Some(p) => Some(*p), None => None },
        ) is None),
{
    if actor.role != UserRole::PlatformAdmin {
        return false;
    }
    let w = match award {
        None => return false,
        Some(w) => w,
    };
    if validate_award_transition(w.status, AwardTransition::Revoke, input.linked_payout_request_id, input.linked_vault_id).is_err() {
        return false;
    }
    application.is_some() && pool.is_some()
}

/// Revokes an approved award: platform administrators only, and the award,
/// its application and pool must exist. The award keeps its links and its
/// amount goes back into the pool.
pub fn decide_revocation(
    actor: &AuthenticatedUser,
    input: &UpdateScholarshipAwardInput,
    award: Option<&ScholarshipAward>,
    application: Option<&ScholarshipApplication>,
    pool: Option<&ScholarshipPool>,
) -> (r: Result<AwardStep, ScholarshipError>)
    requires
        spec_award_step_refusal(
            *actor,
            *input,
            AwardTransition::Revoke,
            match award { Some(a) => Some(*a), None => None },
            match application { Some(a) => Some(*a), None => None },
            match pool { Some(p) => Some(*p), None => None },
        ) is None ==> restorable(award, pool),
    ensures
        match spec_award_step_refusal(
            *actor,
            *input,
            AwardTransition::Revoke,
            match award { Some(a) => Some(*a), None => None },
            match application { Some(a) => Some(*a), None => None },
            match pool { Some(p) => Some(*p), None => None },
        ) {
            Some(f) => r matches Err(e) && spec_failure_error(f, e),
            None => r matches Ok(d) && {
                let w = *award->Some_0;
                let p = *pool->Some_0;
                &&& d.award_id == w.id
                &&& spec_award_transition(
                    w.status,
                    AwardTransition::Revoke,
                    input.linked_payout_request_id,
                    input.linked_vault_id,
                ) == Ok::<ScholarshipAwardStatus, ScholarshipRuleViolation>(d.status)
                &&& d.linked_payout_request_id == w.linked_payout_request_id
                &&& d.linked_vault_id == w.linked_vault_id
                &&& d.pool_available_funds_minor == spec_pool_after_revocation(p.available_funds.amount_minor as int, w.amount.amount_minor as int)
                &&& spec_scholarship_audit(d.audit, actor.user_id, "scholarship_award.revoked"@, w.id)
                &&& is_object_of(d.audit.metadata, 2)
                &&& key_at(d.audit.metadata, 0) == "pool_id"@ && is_uuid(value_at(d.audit.metadata, 0), p.id)
                &&& key_at(d.audit.metadata, 1) == "decision_notes_present"@ && value_at(d.audit.metadata, 1)
                    == JsonValue::Bool(spec_notes_given(input.decision_notes))
            },
        },
{
    if let Err(x) = can_review(actor.role) {
        return Err(ScholarshipError::from_violation(x));
    }
    let w = match award {
        None => return Err(ScholarshipError::NotFound),
        Some(w) => w,
    };
    let target = match validate_award_transition(
        w.status,
        AwardTransition::Revoke,
        input.linked_payout_request_id,
        input.linked_vault_id,
    ) {
        Ok(t) => t,
        Err(x) => return Err(ScholarshipError::from_violation(x)),
    };
    if application.is_none() {
        return Err(ScholarshipError::NotFound);
    }
    let p = match pool {
        None => return Err(ScholarshipError::NotFound),
        Some(p) => p,
    };
    let restored = pool_balance_after_revocation(p.available_funds.amount_minor, w.amount.amount_minor);
    let mut m: Vec<JsonEntry> = Vec::new();
    m.push(entry("pool_id", uuid_value(p.id)));
    m.push(entry("decision_notes_present", JsonValue::Bool(notes_given(&input.decision_notes))));
    let audit = scholarship_audit(actor.user_id, "scholarship_award.revoked", w.id, JsonValue::Object(m));
    Ok(AwardStep {
        award_id: w.id,
        status: target,
        linked_payout_request_id: w.linked_payout_request_id,
        linked_vault_id: w.linked_vault_id,
        pool_available_funds_minor: restored,
        audit,
    })
}

} // verus!
