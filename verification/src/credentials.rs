//! Achievement credentials: who may issue them, what an issued credential
//! holds, the SHA-256 attestation of its canonical document, who may see
//! one, and the order in which listings show them.

use vstd::prelude::*;

use crate::audit::AuditEvent;
use crate::auth::{AuthenticatedUser, UserRole};
use crate::json::{
    copy_json, entry, is_object_of, is_opt_text, is_opt_uuid, is_text, is_uuid, json_copy,
    key_at, opt_text_value, opt_uuid_value, text_value, uuid_value, value_at, JsonEntry, JsonValue,
};
use crate::audit::{date_value, is_date};
use crate::platform::{hex_digit, new_uuid, now_micros, sha256, sha256_digest};
use crate::records::{AchievementCredential, AuditLog, ChildProfile, School};
use crate::repos::PersistenceError;
use crate::status::{AchievementCredentialStatus, AchievementCredentialType, SchoolVerificationStatus};
use crate::text::{is_blank, opt_view, owned, push_char, sanitize_optional, spec_sanitize, trim, trim_text};
use vstd::string::StringSliceAdditionalSpecFns;

verus! {

/// Failures of the credential services.
#[derive(Debug)]
pub enum CredentialError {
    Validation(String),
    Forbidden,
    NotFound,
    Conflict(String),
    Repository(String),
}

impl CredentialError {
    /// The service error for a storage failure.
    pub fn from_persistence(value: PersistenceError) -> (e: CredentialError)
        ensures
            match value {
                PersistenceError::NotFound => e is NotFound,
                PersistenceError::Conflict(m) => e matches CredentialError::Conflict(n) && n == m,
                PersistenceError::Validation(m) => e matches CredentialError::Validation(n) && n == m,
                PersistenceError::Repository(m) => e matches CredentialError::Repository(n) && n == m,
            },
    {
        match value {
            PersistenceError::NotFound => CredentialError::NotFound,
            PersistenceError::Conflict(m) => CredentialError::Conflict(m),
            PersistenceError::Validation(m) => CredentialError::Validation(m),
            PersistenceError::Repository(m) => CredentialError::Repository(m),
        }
    }
}

/// A credential to issue for a child's achievement; the date is a day number.
#[derive(Debug)]
pub struct IssueCredentialInput {
    pub child_profile_id: u128,
    pub recipient_user_id: Option<u128>,
    pub school_id: Option<u128>,
    pub achievement_type: AchievementCredentialType,
    pub title: String,
    pub description: Option<String>,
    pub achievement_date: i32,
    pub issuance_notes: Option<String>,
    pub evidence_uri: Option<String>,
    pub attestation_anchor: Option<String>,
    pub attestation_anchor_network: Option<String>,
    pub metadata: JsonValue,
}

/// Which credentials a listing asks for.
#[derive(Debug)]
pub struct CredentialListFilter {
    pub child_profile_id: Option<u128>,
    pub issued_by_me: bool,
}

impl Default for CredentialListFilter {
    /// No child profile and not only the actor's own issues.
    fn default() -> (f: CredentialListFilter)
        ensures
            f.child_profile_id is None,
            !f.issued_by_me,
    {
        CredentialListFilter { child_profile_id: None, issued_by_me: false }
    }
}

/// `e` is a validation failure with the message `m`.
pub open spec fn is_validation(e: CredentialError, m: Seq<char>) -> bool {
    e matches CredentialError::Validation(n) && n@ == m
}

/// Who may issue: platform administrators, and school administrators naming
/// a verified school. `school` is the school loaded for `school_id`.
pub fn validate_issuer(actor: &AuthenticatedUser, school_id: Option<u128>, school: Option<&School>) -> (r:
    Result<(), CredentialError>)
    ensures
        actor.role == UserRole::PlatformAdmin ==> r is Ok,
        actor.role == UserRole::SchoolAdmin ==> (if school_id is None {
            r matches Err(e) && is_validation(e, "school_id is required when issuing as school_admin"@)
        } else {
            match school {
                None => r matches Err(e) && e is NotFound,
                Some(s) => if s.verification_status == SchoolVerificationStatus::Verified {
                    r is Ok
                } else {
                    r matches Err(e) && e matches CredentialError::Conflict(m) && m@
                        == "school must be verified before issuing credentials"@
                },
            }
        }),
        !(actor.role == UserRole::PlatformAdmin || actor.role == UserRole::SchoolAdmin) ==> (r matches Err(
            e,
        ) && e is Forbidden),
{
    match actor.role {
        UserRole::PlatformAdmin => Ok(()),
        UserRole::SchoolAdmin => {
            if school_id.is_none() {
                return Err(
                    CredentialError::Validation(owned("school_id is required when issuing as school_admin")),
                );
            }
            match school {
                None => Err(CredentialError::NotFound),
                Some(s) => {
                    if s.verification_status != SchoolVerificationStatus::Verified {
                        return Err(
                            CredentialError::Conflict(owned("school must be verified before issuing credentials")),
                        );
                    }
                    Ok(())
                },
            }
        },
        _ => Err(CredentialError::Forbidden),
    }
}

/// The first problem with a credential's fields, by its message.
pub open spec fn spec_input_problem(input: IssueCredentialInput, child: ChildProfile) -> Option<Seq<char>> {
    if trim(input.title@).len() == 0 {
        Some("title is required"@)
    } else if input.recipient_user_id == Some(child.owner_user_id) {
        Some("recipient_user_id must identify the student, not the guardian"@)
    } else if input.attestation_anchor is Some && input.attestation_anchor_network is None {
        Some("attestation_anchor_network is required when attestation_anchor is set"@)
    } else {
        None
    }
}

/// A credential needs a title, a recipient other than the child's guardian,
/// and a network for any anchor.
pub fn validate_input(input: &IssueCredentialInput, child: &ChildProfile) -> (r: Result<(), CredentialError>)
    ensures
        match spec_input_problem(*input, *child) {
            None => r is Ok,
            Some(m) => r matches Err(e) && is_validation(e, m),
        },
{
    if is_blank(input.title.as_str()) {
        return Err(CredentialError::Validation(owned("title is required")));
    }
    if let Some(recipient_user_id) = input.recipient_user_id {
        if child.owner_user_id == recipient_user_id {
            return Err(
                CredentialError::Validation(
                    owned("recipient_user_id must identify the student, not the guardian"),
                ),
            );
        }
    }
    if input.attestation_anchor.is_some() && input.attestation_anchor_network.is_none() {
        return Err(
            CredentialError::Validation(
                owned("attestation_anchor_network is required when attestation_anchor is set"),
            ),
        );
    }
    Ok(())
}

fn opt_ref(o: &Option<String>) -> (r: Option<&str>)
    ensures
        match o {
            Some(s) => r matches Some(t) && t@ == s@,
            None => r is None,
        },
{
    match o {
        Some(s) => Some(s.as_str()),
        None => None,
    }
}

fn sanitized_copy(o: &Option<String>) -> (r: Option<String>)
    ensures
        opt_view(r) == spec_sanitize(opt_view(*o)),
{
    match o {
        Some(s) => sanitize_optional(Some(s.clone())),
        None => None,
    }
}

/// The canonical document whose JSON text the attestation hash is taken of:
/// the credential's reference, subject, issuer and cleaned texts, and a copy
/// of its metadata.
pub open spec fn spec_attestation_document(
    doc: JsonValue,
    credential_ref: u128,
    input: IssueCredentialInput,
    issued_by_user_id: u128,
) -> bool {
    &&& is_object_of(doc, 12)
    &&& key_at(doc, 0) == "credential_ref"@ && is_uuid(value_at(doc, 0), credential_ref)
    &&& key_at(doc, 1) == "child_profile_id"@ && is_uuid(value_at(doc, 1), input.child_profile_id)
    &&& key_at(doc, 2) == "recipient_user_id"@ && is_opt_uuid(value_at(doc, 2), input.recipient_user_id)
    &&& key_at(doc, 3) == "school_id"@ && is_opt_uuid(value_at(doc, 3), input.school_id)
    &&& key_at(doc, 4) == "achievement_type"@ && is_text(value_at(doc, 4), input.achievement_type.spec_text())
    &&& key_at(doc, 5) == "title"@ && is_text(value_at(doc, 5), trim(input.title@))
    &&& key_at(doc, 6) == "description"@ && is_opt_text(value_at(doc, 6), spec_sanitize(opt_view(input.description)))
    &&& key_at(doc, 7) == "achievement_date"@ && is_date(value_at(doc, 7), input.achievement_date)
    &&& key_at(doc, 8) == "issued_by_user_id"@ && is_uuid(value_at(doc, 8), issued_by_user_id)
    &&& key_at(doc, 9) == "issuance_notes"@ && is_opt_text(value_at(doc, 9), spec_sanitize(opt_view(input.issuance_notes)))
    &&& key_at(doc, 10) == "evidence_uri"@ && is_opt_text(value_at(doc, 10), spec_sanitize(opt_view(input.evidence_uri)))
    &&& key_at(doc, 11) == "metadata"@ && json_copy(input.metadata, value_at(doc, 11))
}

/// The canonical document of a credential about to be issued.
pub fn attestation_document(credential_ref: u128, input: &IssueCredentialInput, issued_by_user_id: u128) -> (doc:
    JsonValue)
    ensures
        spec_attestation_document(doc, credential_ref, *input, issued_by_user_id),
{
    let title = trim_text(input.title.as_str());
    let description = sanitized_copy(&input.description);
    let issuance_notes = sanitized_copy(&input.issuance_notes);
    let evidence_uri = sanitized_copy(&input.evidence_uri);
    let mut m: Vec<JsonEntry> = Vec::new();
    m.push(entry("credential_ref", uuid_value(credential_ref)));
    m.push(entry("child_profile_id", uuid_value(input.child_profile_id)));
    m.push(entry("recipient_user_id", opt_uuid_value(input.recipient_user_id)));
    m.push(entry("school_id", opt_uuid_value(input.school_id)));
    m.push(entry("achievement_type", text_value(input.achievement_type.as_str())));
    m.push(entry("title", text_value(title.as_str())));
    m.push(entry("description", opt_text_value(opt_ref(&description))));
    m.push(entry("achievement_date", date_value(input.achievement_date)));
    m.push(entry("issued_by_user_id", uuid_value(issued_by_user_id)));
    m.push(entry("issuance_notes", opt_text_value(opt_ref(&issuance_notes))));
    m.push(entry("evidence_uri", opt_text_value(opt_ref(&evidence_uri))));
    m.push(entry("metadata", copy_json(&input.metadata)));
    JsonValue::Object(m)
}

/// Lower-case hexadecimal of bytes, two digits per byte.
pub open spec fn spec_lower_hex(bytes: Seq<u8>) -> Seq<char>
    decreases bytes.len(),
{
    if bytes.len() == 0 {
        Seq::empty()
    } else {
        let b = bytes.last();
        spec_lower_hex(bytes.drop_last()) + seq![hex_digit((b / 16) as int), hex_digit((b % 16) as int)]
    }
}

fn hex_char(n: u8) -> (c: char)
    requires
        n < 16,
    ensures
        c == hex_digit(n as int),
{
    if n < 10 {
        (n + 48) as char
    } else {
        (n + 87) as char
    }
}

/// The lower-case hexadecimal text of bytes.
pub fn lower_hex(bytes: &Vec<u8>) -> (s: String)
    ensures
        s@ == spec_lower_hex(bytes@),
{
    let mut s = String::new();
    let mut i: usize = 0;
    while i < bytes.len()
        invariant
            i <= bytes.len(),
            s@ == spec_lower_hex(bytes@.take(i as int)),
        decreases bytes.len() - i,
    {
        let b = bytes[i];
        assert(bytes@.take(i + 1).drop_last() =~= bytes@.take(i as int));
        push_char(&mut s, hex_char(b / 16));
        push_char(&mut s, hex_char(b % 16));
        assert(s@ =~= spec_lower_hex(bytes@.take(i + 1)));
        i = i + 1;
    }
    assert(bytes@.take(bytes@.len() as int) =~= bytes@);
    s
}

/// Whether a text is sixty-four lower-case hexadecimal digits.
pub open spec fn is_hex64(h: Seq<char>) -> bool {
    &&& h.len() == 64
    &&& forall|k: int| 0 <= k < 64 ==> {
        let c = #[trigger] h[k];
        ('0' <= c && c <= '9') || ('a' <= c && c <= 'f')
    }
}

/// The attestation hash of a canonical text: the lower-case hexadecimal
/// SHA-256 digest of its UTF-8 bytes, sixty-four digits long.
pub fn attestation_hash(canonical: &str) -> (h: String)
    ensures
        h@ == spec_lower_hex(sha256(canonical.spec_bytes())),
        is_hex64(h@),
{
    let digest = sha256_digest(canonical.as_bytes());
    proof {
        lemma_attestation_hash_shape(digest@);
    }
    lower_hex(&digest)
}


/// Why an issue request is refused.
#[derive(Clone, Copy, Debug, PartialEq, Eq, Structural)]
pub enum IssueRefusal {
    NotFound,
    Forbidden,
    SchoolRequired,
    SchoolNotVerified,
    Invalid,
}

/// The first reason an issue request is refused, checked in the service's order.
pub open spec fn spec_issue_refusal(
    actor: AuthenticatedUser,
    input: IssueCredentialInput,
    child: Option<ChildProfile>,
    school: Option<School>,
) -> Option<IssueRefusal> {
    if child is None {
        Some(IssueRefusal::NotFound)
    } else if !(actor.role == UserRole::PlatformAdmin || actor.role == UserRole::SchoolAdmin) {
        Some(IssueRefusal::Forbidden)
    } else if actor.role == UserRole::SchoolAdmin && input.school_id is None {
        Some(IssueRefusal::SchoolRequired)
    } else if actor.role == UserRole::SchoolAdmin && school is None {
        Some(IssueRefusal::NotFound)
    } else if actor.role == UserRole::SchoolAdmin && school->Some_0.verification_status
        != SchoolVerificationStatus::Verified {
        Some(IssueRefusal::SchoolNotVerified)
    } else if spec_input_problem(input, child->Some_0) is Some {
        Some(IssueRefusal::Invalid)
    } else {
        None
    }
}

/// `e` is the error for the refusal `f` of `input` about `child`.
pub open spec fn spec_issue_error(f: IssueRefusal, e: CredentialError, input: IssueCredentialInput, child: Option<ChildProfile>) -> bool {
    match f {
        IssueRefusal::NotFound => e is NotFound,
        IssueRefusal::Forbidden => e is Forbidden,
        IssueRefusal::SchoolRequired => is_validation(e, "school_id is required when issuing as school_admin"@),
        IssueRefusal::SchoolNotVerified => e matches CredentialError::Conflict(m) && m@
            == "school must be verified before issuing credentials"@,
        IssueRefusal::Invalid => is_validation(e, spec_input_problem(input, child->Some_0)->Some_0),
    }
}

/// The issued credential and its audit entry.
pub open spec fn spec_issued(
    c: AchievementCredential,
    log: AuditLog,
    actor: AuthenticatedUser,
    input: IssueCredentialInput,
    credential_ref: u128,
    canonical: Seq<u8>,
) -> bool {
    &&& c.credential_ref == credential_ref
    &&& c.child_profile_id == input.child_profile_id
    &&& c.recipient_user_id == input.recipient_user_id
    &&& c.school_id == input.school_id
    &&& c.achievement_type == input.achievement_type
    &&& c.status == AchievementCredentialStatus::Issued
    &&& c.title@ == trim(input.title@)
    &&& opt_view(c.description) == spec_sanitize(opt_view(input.description))
    &&& c.achievement_date == input.achievement_date
    &&& c.issued_by_user_id == actor.user_id
    &&& c.issued_by_role@ == actor.role.spec_text()
    &&& opt_view(c.issuance_notes) == spec_sanitize(opt_view(input.issuance_notes))
    &&& opt_view(c.evidence_uri) == spec_sanitize(opt_view(input.evidence_uri))
    &&& c.attestation_hash@ == spec_lower_hex(sha256(canonical))
    &&& is_hex64(c.attestation_hash@)
    &&& c.attestation_method@ == "sha256"@
    &&& opt_view(c.attestation_anchor) == spec_sanitize(opt_view(input.attestation_anchor))
    &&& opt_view(c.attestation_anchor_network) == spec_sanitize(opt_view(input.attestation_anchor_network))
    &&& c.metadata == input.metadata
    &&& c.created_at == c.updated_at
    &&& log.actor_user_id == Some(actor.user_id)
    &&& log.entity_type@ == "achievement_credential"@
    &&& log.entity_id == Some(c.id)
    &&& log.action@ == "achievement_credential.issued"@
}

/// Issues a credential for a child's achievement. `school` is the school
/// loaded for the input's school, `credential_ref` the fresh reference of the
/// credential and `canonical` the JSON text of its attestation document
/// (see `attestation_document`), whose hash the credential carries. The text
/// is written by the caller with `serde_json`; this contract ties the hash to
/// the text it is given, not to the document.
pub fn decide_issue_credential(
    actor: &AuthenticatedUser,
    input: IssueCredentialInput,
    child: Option<&ChildProfile>,
    school: Option<&School>,
    credential_ref: u128,
    canonical: &str,
) -> (r: Result<(AchievementCredential, AuditLog), CredentialError>)
    ensures
        match spec_issue_refusal(
            *actor,
            input,
            match child { Some(c) => Some(*c), None => None },
            match school { Some(s) => Some(*s), None => None },
        ) {
            Some(f) => r matches Err(e) && spec_issue_error(f, e, input, match child { Some(c) => Some(*c), None => None }),
            None => r matches Ok((c, log)) && spec_issued(c, log, *actor, input, credential_ref, canonical.spec_bytes()),
        },
{
    let ch = match child {
        None => return Err(CredentialError::NotFound),
        Some(c) => c,
    };
    validate_issuer(actor, input.school_id, school)?;
    validate_input(&input, ch)?;
    let now = now_micros();
    let attestation_hash = attestation_hash(canonical);
    let credential = AchievementCredential {
        id: new_uuid(),
        credential_ref,
        child_profile_id: input.child_profile_id,
        recipient_user_id: input.recipient_user_id,
        school_id: input.school_id,
        achievement_type: input.achievement_type,
        status: AchievementCredentialStatus::Issued,
        title: trim_text(input.title.as_str()),
        description: sanitize_optional(input.description),
        achievement_date: input.achievement_date,
        issued_by_user_id: actor.user_id,
        issued_by_role: owned(actor.role.as_str()),
        issuance_notes: sanitize_optional(input.issuance_notes),
        evidence_uri: sanitize_optional(input.evidence_uri),
        attestation_hash,
        attestation_method: owned("sha256"),
        attestation_anchor: sanitize_optional(input.attestation_anchor),
        attestation_anchor_network: sanitize_optional(input.attestation_anchor_network),
        metadata: input.metadata,
        created_at: now,
        updated_at: now,
    };
    let audit = AuditEvent::achievement_credential_issued(actor.user_id, &credential).into_log();
    Ok((credential, audit))
}

/// Who may see a credential: platform administrators; the student it was
/// issued to; the school administrator who issued it; the parent who owns the
/// child profile. `child` is the child profile loaded for a parent.
pub fn credential_access(
    actor: &AuthenticatedUser,
    credential: Option<AchievementCredential>,
    child: Option<&ChildProfile>,
) -> (r: Result<AchievementCredential, CredentialError>)
    ensures
        match credential {
            None => r matches Err(e) && e is NotFound,
            Some(c) => if actor.role == UserRole::PlatformAdmin || (actor.role == UserRole::Student
                && c.recipient_user_id == Some(actor.user_id)) || (actor.role == UserRole::SchoolAdmin
                && c.issued_by_user_id == actor.user_id) {
                r matches Ok(x) && x == c
            } else if actor.role == UserRole::Parent {
                match child {
                    None => r matches Err(e) && e is NotFound,
                    Some(ch) => if ch.owner_user_id == actor.user_id {
                        r matches Ok(x) && x == c
                    } else {
                        r matches Err(e) && e is Forbidden
                    },
                }
            } else {
                r matches Err(e) && e is Forbidden
            },
        },
{
    let c = match credential {
        None => return Err(CredentialError::NotFound),
        Some(c) => c,
    };
    match actor.role {
        UserRole::PlatformAdmin => Ok(c),
        UserRole::Student => {
            if c.recipient_user_id == Some(actor.user_id) {
                Ok(c)
            } else {
                Err(CredentialError::Forbidden)
            }
        },
        UserRole::SchoolAdmin => {
            if c.issued_by_user_id == actor.user_id {
                Ok(c)
            } else {
                Err(CredentialError::Forbidden)
            }
        },
        UserRole::Parent => match child {
            None => Err(CredentialError::NotFound),
            Some(ch) => {
                if ch.owner_user_id == actor.user_id {
                    Ok(c)
                } else {
                    Err(CredentialError::Forbidden)
                }
            },
        },
        _ => Err(CredentialError::Forbidden),
    }
}


/// Where a listing of credentials comes from.
#[derive(Clone, Copy, Debug, PartialEq, Eq, Structural)]
pub enum CredentialSource {
    /// The credentials of one child profile; `owner_check` asks that the
    /// actor own the profile first.
    ChildProfile { child_profile_id: u128, owner_check: bool },
    /// The credentials of every child profile the actor owns, profile by profile.
    OwnedChildren,
    /// The credentials issued to a student.
    Recipient(u128),
    /// The credentials issued by a user.
    Issuer(u128),
    /// The most recent credentials, at most this many.
    Recent(i64),
}

/// Which credentials a listing shows, by the actor's role: parents see their
/// children's, students their own, school administrators the ones they
/// issued, platform administrators the ones they issued, one child's or the
/// most recent two hundred; contributors and donors none.
pub open spec fn spec_listing_source(actor: AuthenticatedUser, filter: CredentialListFilter) -> Option<CredentialSource> {
    match actor.role {
        UserRole::Parent => match filter.child_profile_id {
            Some(id) => Some(CredentialSource::ChildProfile { child_profile_id: id, owner_check: true }),
            None => Some(CredentialSource::OwnedChildren),
        },
        UserRole::Student => if filter.child_profile_id is Some || filter.issued_by_me {
            None
        } else {
            Some(CredentialSource::Recipient(actor.user_id))
        },
        UserRole::SchoolAdmin => if filter.child_profile_id is Some {
            None
        } else {
            Some(CredentialSource::Issuer(actor.user_id))
        },
        UserRole::PlatformAdmin => if filter.issued_by_me {
            Some(CredentialSource::Issuer(actor.user_id))
        } else if let Some(id) = filter.child_profile_id {
            Some(CredentialSource::ChildProfile { child_profile_id: id, owner_check: false })
        } else {
            Some(CredentialSource::Recent(200))
        },
        _ => None,
    }
}

/// The source of a listing; a listing the actor may not ask for is forbidden.
pub fn credential_listing_source(actor: &AuthenticatedUser, filter: &CredentialListFilter) -> (r: Result<
    CredentialSource,
    CredentialError,
>)
    ensures
        match spec_listing_source(*actor, *filter) {
            Some(src) => r matches Ok(x) && x == src,
            None => r matches Err(e) && e is Forbidden,
        },
{
    match actor.role {
        UserRole::Parent => match filter.child_profile_id {
            Some(id) => Ok(CredentialSource::ChildProfile { child_profile_id: id, owner_check: true }),
            None => Ok(CredentialSource::OwnedChildren),
        },
        UserRole::Student => {
            if filter.child_profile_id.is_some() || filter.issued_by_me {
                return Err(CredentialError::Forbidden);
            }
            Ok(CredentialSource::Recipient(actor.user_id))
        },
        UserRole::SchoolAdmin => {
            if filter.child_profile_id.is_some() {
                return Err(CredentialError::Forbidden);
            }
            Ok(CredentialSource::Issuer(actor.user_id))
        },
        UserRole::PlatformAdmin => {
            if filter.issued_by_me {
                Ok(CredentialSource::Issuer(actor.user_id))
            } else if let Some(id) = filter.child_profile_id {
                Ok(CredentialSource::ChildProfile { child_profile_id: id, owner_check: false })
            } else {
                Ok(CredentialSource::Recent(200))
            }
        },
        _ => Err(CredentialError::Forbidden),
    }
}

/// A parent lists one child's credentials only for a child profile they own.
pub fn check_child_owner(actor: &AuthenticatedUser, child: Option<&ChildProfile>) -> (r: Result<(), CredentialError>)
    ensures
        match child {
            None => r matches Err(e) && e is NotFound,
            Some(c) => if c.owner_user_id == actor.user_id {
                r is Ok
            } else {
                r matches Err(e) && e is Forbidden
            },
        },
{
    match child {
        None => Err(CredentialError::NotFound),
        Some(c) => {
            if c.owner_user_id != actor.user_id {
                return Err(CredentialError::Forbidden);
            }
            Ok(())
        },
    }
}

/// `a` is listed strictly before `b`: a later achievement, or the same day
/// and created later.
pub open spec fn listed_before(a: AchievementCredential, b: AchievementCredential) -> bool {
    a.achievement_date > b.achievement_date || (a.achievement_date == b.achievement_date
        && a.created_at > b.created_at)
}

/// `a` and `b` are listed at the same rank.
pub open spec fn same_rank(a: AchievementCredential, b: AchievementCredential) -> bool {
    a.achievement_date == b.achievement_date && a.created_at == b.created_at
}

/// `sorted` is `input` put in listing order, newest first, keeping the
/// order of `input` among credentials of the same rank; `perm` says where
/// each element of `sorted` stood in `input`.
pub open spec fn is_listing_order(
    input: Seq<AchievementCredential>,
    sorted: Seq<AchievementCredential>,
    perm: Seq<int>,
) -> bool {
    &&& sorted.len() == input.len() && perm.len() == input.len()
    &&& forall|k: int| 0 <= k < sorted.len() ==> 0 <= #[trigger] perm[k] < input.len() && sorted[k] == input[perm[k]]
    &&& forall|k: int, l: int| 0 <= k < l < sorted.len() ==> #[trigger] perm[k] != #[trigger] perm[l]
    &&& forall|k: int, l: int| 0 <= k < l < sorted.len() ==> !listed_before(#[trigger] sorted[l], #[trigger] sorted[k])
    &&& forall|k: int, l: int|
        #![trigger sorted[k], sorted[l]]
        0 <= k < l < sorted.len() && same_rank(sorted[k], sorted[l]) ==> perm[k] < perm[l]
}

/// `s` without the second and later of each run of neighbours with the same identifier.
pub open spec fn spec_dedup_by_id(s: Seq<AchievementCredential>) -> Seq<AchievementCredential>
    decreases s.len(),
{
    if s.len() <= 1 {
        s
    } else if s.last().id == s[s.len() - 2].id {
        spec_dedup_by_id(s.drop_last())
    } else {
        spec_dedup_by_id(s.drop_last()).push(s.last())
    }
}

fn listed_before_exec(a: &AchievementCredential, b: &AchievementCredential) -> (r: bool)
    ensures
        r == listed_before(*a, *b),
{
    a.achievement_date > b.achievement_date || (a.achievement_date == b.achievement_date
        && a.created_at > b.created_at)
}

fn sort_for_listing(items: Vec<AchievementCredential>) -> (sorted: Vec<AchievementCredential>)
    ensures
        exists|perm: Seq<int>| is_listing_order(items@, sorted@, perm),
{
    let ghost orig = items@;
    let mut rest = items;
    let mut out: Vec<AchievementCredential> = Vec::new();
    let ghost mut perm: Seq<int> = Seq::empty();
    let n: usize = rest.len();
    let mut i: usize = 0;
    while rest.len() > 0
        invariant
            orig.len() == n,
            i + rest@.len() == orig.len(),
            rest@ == orig.subrange(i as int, orig.len() as int),
            out@.len() == i,
            perm.len() == i,
            forall|k: int| 0 <= k < i ==> 0 <= #[trigger] perm[k] < i && out@[k] == orig[perm[k]],
            forall|k: int, l: int| 0 <= k < l < i ==> #[trigger] perm[k] != #[trigger] perm[l],
            forall|k: int, l: int| 0 <= k < l < i ==> !listed_before(#[trigger] out@[l], #[trigger] out@[k]),
            forall|k: int, l: int|
                #![trigger out@[k], out@[l]]
                0 <= k < l < i && same_rank(out@[k], out@[l]) ==> perm[k] < perm[l],
        decreases rest.len(),
    {
        let x = rest.remove(0);
        assert(x == orig[i as int]);
        let mut pos: usize = 0;
        while pos < out.len() && !listed_before_exec(&x, &out[pos])
            invariant
                pos <= out.len(),
                forall|k: int| 0 <= k < pos ==> !listed_before(x, #[trigger] out@[k]),
            decreases out.len() - pos,
        {
            pos = pos + 1;
        }
        let ghost old_out = out@;
        let ghost old_perm = perm;
        proof {
            if pos < old_out.len() {
                assert(listed_before(x, old_out[pos as int]));
                assert forall|l: int| pos <= l < old_out.len() implies listed_before(x, #[trigger] old_out[l]) by {
                    if l > pos {
                        assert(!listed_before(old_out[l], old_out[pos as int]));
                    }
                }
            }
        }
        out.insert(pos, x);
        proof {
            perm = perm.insert(pos as int, i as int);
            assert forall|k: int| 0 <= k < i + 1 implies 0 <= #[trigger] perm[k] < i + 1 && out@[k] == orig[perm[k]] by {
                if k < pos {
                    assert(perm[k] == old_perm[k]);
                } else if k > pos {
                    assert(perm[k] == old_perm[k - 1]);
                }
            }
            assert forall|k: int, l: int| 0 <= k < l < i + 1 implies #[trigger] perm[k] != #[trigger] perm[l] by {
                if k != pos && l != pos {
                    let k0 = if k < pos { k } else { k - 1 };
                    let l0 = if l < pos { l } else { l - 1 };
                    assert(old_perm[k0] != old_perm[l0]);
                } else if k == pos {
                    let l0 = l - 1;
                    assert(old_perm[l0] < i);
                } else {
                    assert(old_perm[k] < i);
                }
            }
            assert forall|k: int, l: int| 0 <= k < l < i + 1 implies !listed_before(#[trigger] out@[l], #[trigger] out@[k]) by {
                if k != pos && l != pos {
                    let k0 = if k < pos { k } else { k - 1 };
                    let l0 = if l < pos { l } else { l - 1 };
                    assert(!listed_before(old_out[l0], old_out[k0]));
                } else if k == pos {
                    assert(listed_before(x, old_out[l - 1]));
                } else {
                    assert(!listed_before(x, old_out[k]));
                }
            }
            assert forall|k: int, l: int|
                #![trigger out@[k], out@[l]]
                0 <= k < l < i + 1 && same_rank(out@[k], out@[l]) implies perm[k] < perm[l] by {
                if k != pos && l != pos {
                    let k0 = if k < pos { k } else { k - 1 };
                    let l0 = if l < pos { l } else { l - 1 };
                    assert(same_rank(old_out[k0], old_out[l0]));
                } else if k == pos {
                    assert(listed_before(x, old_out[l - 1]));
                } else {
                    assert(old_perm[k] < i);
                }
            }
        }
        i = i + 1;
    }
    assert(is_listing_order(orig, out@, perm));
    out
}

fn dedup_by_id(sorted: Vec<AchievementCredential>) -> (out: Vec<AchievementCredential>)
    ensures
        out@ == spec_dedup_by_id(sorted@),
{
    let ghost s = sorted@;
    let mut rest = sorted;
    let mut out: Vec<AchievementCredential> = Vec::new();
    let mut prev: Option<u128> = None;
    let n: usize = rest.len();
    let mut i: usize = 0;
    while rest.len() > 0
        invariant
            s.len() == n,
            i + rest@.len() == s.len(),
            rest@ == s.subrange(i as int, s.len() as int),
            out@ == spec_dedup_by_id(s.take(i as int)),
            prev == (if i == 0 { None } else { Some(s[i - 1].id) }),
        decreases rest.len(),
    {
        let x = rest.remove(0);
        assert(x == s[i as int]);
        let keep = match prev {
            None => true,
            Some(p) => p != x.id,
        };
        prev = Some(x.id);
        proof {
            let t = s.take(i + 1);
            assert(t.drop_last() =~= s.take(i as int));
            assert(t.last() == x);
            if i >= 1 {
                assert(t[t.len() - 2] == s[i - 1]);
            } else {
                assert(s.take(i as int) =~= Seq::<AchievementCredential>::empty());
            }
        }
        if keep {
            out.push(x);
        }
        proof {
            if i == 0 {
                assert(out@ =~= s.take(1));
            }
        }
        i = i + 1;
    }
    assert(s.take(s.len() as int) =~= s);
    out
}

/// Puts credentials in listing order, newest achievement first and, on the
/// same day, the most recently created first, keeping their order otherwise;
/// of neighbours with the same identifier only the first stays.
pub fn order_credentials(items: Vec<AchievementCredential>) -> (out: Vec<AchievementCredential>)
    ensures
        exists|sorted: Seq<AchievementCredential>, perm: Seq<int>|
            is_listing_order(items@, sorted, perm) && out@ == spec_dedup_by_id(sorted),
        in_listing_order(out@),
        forall|k: int| 0 <= k < out@.len() - 1 ==> #[trigger] out@[k].id != out@[k + 1].id,
        forall|k: int| 0 <= k < out@.len() ==> items@.contains(#[trigger] out@[k]),
{
    let sorted = sort_for_listing(items);
    let ghost sorted_seq = sorted@;
    let out = dedup_by_id(sorted);
    proof {
        let perm = choose|perm: Seq<int>| is_listing_order(items@, sorted_seq, perm);
        lemma_dedup_keeps_listing_order(sorted_seq);
        lemma_dedup_has_no_adjacent_repeats(sorted_seq);
        assert forall|k: int| 0 <= k < out@.len() implies items@.contains(#[trigger] out@[k]) by {
            assert(sorted_seq.contains(out@[k]));
            let j = choose|j: int| 0 <= j < sorted_seq.len() && sorted_seq[j] == out@[k];
            assert(items@[perm[j]] == out@[k]);
        }
    }
    out
}

/// Whether no credential of `s` is listed before one that comes earlier in `s`.
pub open spec fn in_listing_order(s: Seq<AchievementCredential>) -> bool {
    forall|k: int, l: int| 0 <= k < l < s.len() ==> !listed_before(#[trigger] s[l], #[trigger] s[k])
}

/// Dropping repeated neighbours keeps a listing in order.
pub proof fn lemma_dedup_keeps_listing_order(s: Seq<AchievementCredential>)
    requires
        in_listing_order(s),
    ensures
        in_listing_order(spec_dedup_by_id(s)),
    decreases s.len(),
{
    if s.len() > 1 {
        let p = s.drop_last();
        assert(in_listing_order(p)) by {
            assert forall|k: int, l: int| 0 <= k < l < p.len() implies !listed_before(#[trigger] p[l], #[trigger] p[k]) by {
                assert(p[l] == s[l] && p[k] == s[k]);
            }
        }
        lemma_dedup_keeps_listing_order(p);
        lemma_dedup_has_no_adjacent_repeats(p);
        let d = spec_dedup_by_id(p);
        if s.last().id != s[s.len() - 2].id {
            let e = d.push(s.last());
            assert(spec_dedup_by_id(s) == e);
            assert forall|k: int, l: int| 0 <= k < l < e.len() implies !listed_before(#[trigger] e[l], #[trigger] e[k]) by {
                if l < d.len() {
                    assert(e[l] == d[l] && e[k] == d[k]);
                } else {
                    assert(e[k] == d[k]);
                    assert(p.contains(d[k]));
                    let j = choose|j: int| 0 <= j < p.len() && p[j] == d[k];
                    assert(s[j] == d[k]);
                    assert(e[l] == s[s.len() - 1]);
                }
            }
        }
    }
}


/// A listing never shows the same credential twice in a row, and shows only
/// credentials it was given.
pub proof fn lemma_dedup_has_no_adjacent_repeats(s: Seq<AchievementCredential>)
    ensures
        forall|k: int|
            0 <= k < spec_dedup_by_id(s).len() - 1 ==> #[trigger] spec_dedup_by_id(s)[k].id != spec_dedup_by_id(s)[k + 1].id,
        forall|k: int| 0 <= k < spec_dedup_by_id(s).len() ==> s.contains(#[trigger] spec_dedup_by_id(s)[k]),
        spec_dedup_by_id(s).len() <= s.len(),
        s.len() > 0 ==> spec_dedup_by_id(s).len() > 0 && spec_dedup_by_id(s).last().id == s.last().id,
    decreases s.len(),
{
    if s.len() > 1 {
        let p = s.drop_last();
        lemma_dedup_has_no_adjacent_repeats(p);
        let d = spec_dedup_by_id(p);
        assert forall|k: int| 0 <= k < spec_dedup_by_id(s).len() implies s.contains(#[trigger] spec_dedup_by_id(s)[k]) by {
            if k < d.len() {
                assert(p.contains(d[k]));
                let j = choose|j: int| 0 <= j < p.len() && p[j] == d[k];
                assert(s[j] == d[k]);
            } else {
                assert(s[s.len() - 1] == s.last());
            }
        }
    } else if s.len() == 1 {
        assert(s[0] == s.last());
    }
}

/// An attestation hash is sixty-four lower-case hexadecimal digits.
pub proof fn lemma_attestation_hash_shape(bytes: Seq<u8>)
    ensures
        spec_lower_hex(bytes).len() == 2 * bytes.len(),
        forall|k: int|
            0 <= k < spec_lower_hex(bytes).len() ==> {
                let c = #[trigger] spec_lower_hex(bytes)[k];
                ('0' <= c && c <= '9') || ('a' <= c && c <= 'f')
            },
    decreases bytes.len(),
{
    if bytes.len() > 0 {
        let p = bytes.drop_last();
        lemma_attestation_hash_shape(p);
        let b = bytes.last();
        let h = spec_lower_hex(bytes);
        let hp = spec_lower_hex(p);
        assert forall|k: int| 0 <= k < h.len() implies {
            let c = #[trigger] h[k];
            ('0' <= c && c <= '9') || ('a' <= c && c <= 'f')
        } by {
            if k < hp.len() {
                assert(h[k] == hp[k]);
            } else {
                let n: int = if k == hp.len() { (b / 16) as int } else { (b % 16) as int };
                assert(0 <= n < 16);
                assert(h[k] == hex_digit(n));
            }
        }
    }
}

} // verus!
