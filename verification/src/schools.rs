//! Schools that payouts go to: registration and verification by platform
//! administrators, and who may search the verified ones.

use vstd::prelude::*;

use crate::audit::{AuditAction, AuditEntityType, AuditEvent};
use crate::auth::{AuthenticatedUser, UserRole};
use crate::json::{entry, is_object_of, is_text, key_at, text_value, value_at, JsonEntry, JsonValue};
use crate::platform::{new_uuid, now_micros};
use crate::records::{AuditLog, School};
use crate::repos::PersistenceError;
use crate::status::{SchoolPayoutMethod, SchoolVerificationStatus};
use crate::text::{is_blank, owned, trim};

verus! {

/// Failures of the school services.
#[derive(Debug)]
pub enum SchoolError {
    Validation(String),
    Forbidden,
    NotFound,
    Conflict(String),
    Repository(String),
}

impl SchoolError {
    /// The service error for a storage failure.
    pub fn from_persistence(value: PersistenceError) -> (e: SchoolError)
        ensures
            match value {
                PersistenceError::NotFound => e is NotFound,
                PersistenceError::Conflict(m) => e matches SchoolError::Conflict(n) && n == m,
                PersistenceError::Validation(m) => e matches SchoolError::Validation(n) && n == m,
                PersistenceError::Repository(m) => e matches SchoolError::Repository(n) && n == m,
            },
    {
        match value {
            PersistenceError::NotFound => SchoolError::NotFound,
            PersistenceError::Conflict(m) => SchoolError::Conflict(m),
            PersistenceError::Validation(m) => SchoolError::Validation(m),
            PersistenceError::Repository(m) => SchoolError::Repository(m),
        }
    }
}

/// A school to register, with where its payouts go.
#[derive(Debug)]
pub struct CreateSchoolInput {
    pub legal_name: String,
    pub display_name: String,
    pub country: String,
    pub payout_method: SchoolPayoutMethod,
    pub payout_reference: String,
}

/// A new verification status for a school.
#[derive(Debug)]
pub struct VerifySchoolInput {
    pub school_id: u128,
    pub verification_status: SchoolVerificationStatus,
}

/// Only platform administrators manage schools.
pub fn require_platform_admin(role: UserRole) -> (r: Result<(), SchoolError>)
    ensures
        r is Ok <==> role == UserRole::PlatformAdmin,
        r matches Err(e) ==> e is Forbidden,
{
    if role == UserRole::PlatformAdmin {
        return Ok(());
    }
    Err(SchoolError::Forbidden)
}

/// The first required field of a school that is blank, by its error message.
pub open spec fn spec_missing_field(input: CreateSchoolInput) -> Option<Seq<char>> {
    if trim(input.legal_name@).len() == 0 {
        Some("legal_name is required"@)
    } else if trim(input.display_name@).len() == 0 {
        Some("display_name is required"@)
    } else if trim(input.country@).len() == 0 {
        Some("country is required"@)
    } else if trim(input.payout_reference@).len() == 0 {
        Some("payout_reference is required"@)
    } else {
        None
    }
}

/// Names, country and payout reference must not be blank.
pub fn validate_school_fields(input: &CreateSchoolInput) -> (r: Result<(), SchoolError>)
    ensures
        match spec_missing_field(*input) {
            None => r is Ok,
            Some(m) => r matches Err(e) && e matches SchoolError::Validation(n) && n@ == m,
        },
{
    if is_blank(input.legal_name.as_str()) {
        return Err(SchoolError::Validation(owned("legal_name is required")));
    }
    if is_blank(input.display_name.as_str()) {
        return Err(SchoolError::Validation(owned("display_name is required")));
    }
    if is_blank(input.country.as_str()) {
        return Err(SchoolError::Validation(owned("country is required")));
    }
    if is_blank(input.payout_reference.as_str()) {
        return Err(SchoolError::Validation(owned("payout_reference is required")));
    }
    Ok(())
}

/// The pending school and audit entry that a registration stores.
pub open spec fn spec_new_school(
    school: School,
    log: AuditLog,
    actor: AuthenticatedUser,
    input: CreateSchoolInput,
) -> bool {
    &&& school.legal_name == input.legal_name
    &&& school.display_name == input.display_name
    &&& school.country == input.country
    &&& school.payout_method == input.payout_method
    &&& school.payout_reference == input.payout_reference
    &&& school.verification_status == SchoolVerificationStatus::Pending
    &&& school.verified_by is None && school.verified_at is None
    &&& school.created_at == school.updated_at
    &&& log.actor_user_id == Some(actor.user_id)
    &&& log.entity_type@ == "school"@
    &&& log.entity_id == Some(school.id)
    &&& log.action@ == "school.created"@
    &&& is_object_of(log.metadata, 4)
    &&& key_at(log.metadata, 0) == "display_name"@ && is_text(value_at(log.metadata, 0), input.display_name@)
    &&& key_at(log.metadata, 1) == "country"@ && is_text(value_at(log.metadata, 1), input.country@)
    &&& key_at(log.metadata, 2) == "payout_method"@ && is_text(value_at(log.metadata, 2), input.payout_method.spec_text())
    &&& key_at(log.metadata, 3) == "verification_status"@ && is_text(value_at(log.metadata, 3), "pending"@)
}

/// Registers a school: platform administrators only, with every required
/// field given. The school starts pending verification.
pub fn decide_create_school(actor: &AuthenticatedUser, input: CreateSchoolInput) -> (r: Result<
    (School, AuditLog),
    SchoolError,
>)
    ensures
        actor.role != UserRole::PlatformAdmin ==> (r matches Err(e) && e is Forbidden),
        actor.role == UserRole::PlatformAdmin ==> match spec_missing_field(input) {
            Some(m) => r matches Err(e) && e matches SchoolError::Validation(n) && n@ == m,
            None => r matches Ok((school, log)) && spec_new_school(school, log, *actor, input),
        },
{
    require_platform_admin(actor.role)?;
    validate_school_fields(&input)?;
    let now = now_micros();
    let school = School {
        id: new_uuid(),
        legal_name: input.legal_name,
        display_name: input.display_name,
        country: input.country,
        payout_method: input.payout_method,
        payout_reference: input.payout_reference,
        verification_status: SchoolVerificationStatus::Pending,
        verified_by: None,
        verified_at: None,
        created_at: now,
        updated_at: now,
    };
    let mut audit = AuditEvent::school_verified(actor.user_id, &school).into_log();
    audit.action = owned("school.created");
    let mut m: Vec<JsonEntry> = Vec::new();
    m.push(entry("display_name", text_value(school.display_name.as_str())));
    m.push(entry("country", text_value(school.country.as_str())));
    m.push(entry("payout_method", text_value(school.payout_method.as_str())));
    m.push(entry("verification_status", text_value(school.verification_status.as_str())));
    audit.metadata = JsonValue::Object(m);
    Ok((school, audit))
}

/// The audit entry of a change of a school's verification status; the store
/// then sets the status and who verified the school.
pub fn decide_verify_school(actor: &AuthenticatedUser, input: &VerifySchoolInput) -> (r: Result<
    AuditLog,
    SchoolError,
>)
    ensures
        actor.role != UserRole::PlatformAdmin ==> (r matches Err(e) && e is Forbidden),
        actor.role == UserRole::PlatformAdmin ==> (r matches Ok(log) && {
            &&& log.actor_user_id == Some(actor.user_id)
            &&& log.entity_type@ == "school"@
            &&& log.entity_id == Some(input.school_id)
            &&& log.action@ == "school.verification_status_changed"@
            &&& is_object_of(log.metadata, 1)
            &&& key_at(log.metadata, 0) == "verification_status"@ && is_text(
                value_at(log.metadata, 0),
                input.verification_status.spec_text(),
            )
        }),
{
    require_platform_admin(actor.role)?;
    let mut m: Vec<JsonEntry> = Vec::new();
    m.push(entry("verification_status", text_value(input.verification_status.as_str())));
    let mut audit = AuditEvent::new(
        Some(actor.user_id),
        AuditEntityType::School,
        Some(input.school_id),
        AuditAction::SchoolVerified,
        JsonValue::Object(m),
    ).into_log();
    audit.action = owned("school.verification_status_changed");
    Ok(audit)
}

/// Parents and platform administrators search the verified schools.
pub fn check_school_search(actor: &AuthenticatedUser) -> (r: Result<(), SchoolError>)
    ensures
        r is Ok <==> (actor.role == UserRole::Parent || actor.role == UserRole::PlatformAdmin),
        r matches Err(e) ==> e is Forbidden,
{
    if !(actor.role == UserRole::Parent || actor.role == UserRole::PlatformAdmin) {
        return Err(SchoolError::Forbidden);
    }
    Ok(())
}

} // verus!
