//! Identity verification (KYC) of users: platform administrators set a
//! user's status, and a change of status is audited.

use vstd::prelude::*;

use crate::audit::{AuditAction, AuditEntityType, AuditEvent};
use crate::auth::{AuthenticatedUser, UserRole};
use crate::json::{is_object_of, is_opt_text, is_text, is_uuid, key_at, value_at};
use crate::platform::{new_uuid, now_micros};
use crate::records::KycProfile;
use crate::repos::PersistenceError;
use crate::status::KycStatus;
use crate::text::owned;

verus! {

/// Failures of the identity verification service.
#[derive(Debug)]
pub enum KycError {
    Validation(String),
    Forbidden,
    Repository(String),
}

impl KycError {
    /// The service error for a storage failure: a missing profile and
    /// conflicts are validation failures.
    pub fn from_persistence(value: PersistenceError) -> (e: KycError)
        ensures
            match value {
                PersistenceError::NotFound => e matches KycError::Validation(n) && n@ == "profile not found"@,
                PersistenceError::Conflict(m) => e matches KycError::Validation(n) && n == m,
                PersistenceError::Validation(m) => e matches KycError::Validation(n) && n == m,
                PersistenceError::Repository(m) => e matches KycError::Repository(n) && n == m,
            },
    {
        match value {
            PersistenceError::NotFound => KycError::Validation(owned("profile not found")),
            PersistenceError::Conflict(m) => KycError::Validation(m),
            PersistenceError::Validation(m) => KycError::Validation(m),
            PersistenceError::Repository(m) => KycError::Repository(m),
        }
    }
}

/// A new verification status for a user, with the provider's reference.
#[derive(Debug)]
pub struct UpdateKycStatusInput {
    pub user_id: u128,
    pub status: KycStatus,
    pub provider_reference: Option<String>,
}

/// Sets a user's verification status: platform administrators only. The
/// profile keeps its identifier and creation time when it exists, and is
/// marked reviewed now.
pub fn decide_kyc_update(
    actor: &AuthenticatedUser,
    input: UpdateKycStatusInput,
    existing: Option<&KycProfile>,
) -> (r: Result<KycProfile, KycError>)
    ensures
        actor.role != UserRole::PlatformAdmin ==> (r matches Err(e) && e is Forbidden),
        actor.role == UserRole::PlatformAdmin ==> (r matches Ok(p) && {
            &&& p.user_id == input.user_id
            &&& p.status == input.status
            &&& p.provider_reference == input.provider_reference
            &&& p.reviewed_at == Some(p.updated_at)
            &&& match existing {
                Some(x) => p.id == x.id && p.created_at == x.created_at,
                None => p.created_at == p.updated_at,
            }
        }),
{
    if actor.role != UserRole::PlatformAdmin {
        return Err(KycError::Forbidden);
    }
    let now = now_micros();
    let (id, created_at) = match existing {
        Some(x) => (x.id, x.created_at),
        None => (new_uuid(), now),
    };
    Ok(KycProfile {
        id,
        user_id: input.user_id,
        status: input.status,
        provider_reference: input.provider_reference,
        reviewed_at: Some(now),
        created_at,
        updated_at: now,
    })
}

/// The audit event of storing `saved` over a profile whose status was
/// `previous`: none when the status did not change. The provider reference
/// is never recorded.
pub fn kyc_change_event(actor: &AuthenticatedUser, saved: &KycProfile, previous: Option<KycStatus>) -> (r:
    Option<AuditEvent>)
    ensures
        previous == Some(saved.status) ==> r is None,
        previous != Some(saved.status) ==> (r matches Some(e) && {
            &&& e.actor_user_id == Some(actor.user_id)
            &&& e.entity_type == AuditEntityType::KycProfile
            &&& e.entity_id == Some(saved.id)
            &&& e.action == AuditAction::KycStatusChanged
            &&& is_object_of(e.metadata, 3)
            &&& key_at(e.metadata, 0) == "user_id"@ && is_uuid(value_at(e.metadata, 0), saved.user_id)
            &&& key_at(e.metadata, 1) == "from_status"@ && is_opt_text(
                value_at(e.metadata, 1),
                match previous { Some(s) => Some(s.spec_text()), None => None },
            )
            &&& key_at(e.metadata, 2) == "to_status"@ && is_text(value_at(e.metadata, 2), saved.status.spec_text())
        }),
{
    match previous {
        Some(s) => {
            if s == saved.status {
                return None;
            }
            Some(AuditEvent::kyc_status_changed(Some(actor.user_id), saved, Some(s.as_str())))
        },
        None => Some(AuditEvent::kyc_status_changed(Some(actor.user_id), saved, None)),
    }
}

} // verus!
