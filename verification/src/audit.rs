//! Standardized audit events: what is recorded for each action, with
//! personal data kept out or reduced to previews and presence flags.

use vstd::prelude::*;

use crate::json::{
    entry, int_value, redacted_copy, sanitize_json_value, is_int, is_object_of, is_opt_text, is_opt_uuid, is_text, is_uuid, key_at,
    opt_text_value, opt_uuid_value, text_value, uuid_value, value_at, JsonEntry, JsonValue,
};
use crate::platform::{date_to_text, in_calendar, iso_date_text, new_uuid, now_micros};
use crate::records::{
    AchievementCredential, AuditLog, Contribution, ExternalReference, KycProfile, Milestone,
    PayoutRequest, SavingsPlan, ScholarshipAward, ScholarshipPool, School, VaultContributor,
};
use crate::repos::PersistenceError;
use crate::text::{
    byte_offsets, chars_of, is_empty_text, lemma_utf8_len_strictly_increasing, owned, push_text, str_eq,
    string_from_chars, utf8_len,
};

verus! {

/// Failures of recording or reading audit entries.
#[derive(Debug)]
pub enum AuditError {
    NotFound,
    Validation(String),
    Repository(String),
}

impl AuditError {
    pub open spec fn spec_message(&self) -> Seq<char> {
        match self {
            AuditError::NotFound => "not found"@,
            AuditError::Validation(m) => "validation: "@ + m@,
            AuditError::Repository(m) => "repository: "@ + m@,
        }
    }

    /// The text shown for this error.
    pub fn message(&self) -> (m: String)
        ensures
            m@ == self.spec_message(),
    {
        match self {
            AuditError::NotFound => owned("not found"),
            AuditError::Validation(x) => {
                let mut s = owned("validation: ");
                push_text(&mut s, x.as_str());
                s
            },
            AuditError::Repository(x) => {
                let mut s = owned("repository: ");
                push_text(&mut s, x.as_str());
                s
            },
        }
    }

    /// The audit error for a storage failure: conflicts count as validation failures.
    pub fn from_persistence(value: PersistenceError) -> (e: AuditError)
        ensures
            match value {
                PersistenceError::NotFound => e is NotFound,
                PersistenceError::Validation(m) => e matches AuditError::Validation(n) && n == m,
                PersistenceError::Conflict(m) => e matches AuditError::Validation(n) && n == m,
                PersistenceError::Repository(m) => e matches AuditError::Repository(n) && n == m,
            },
    {
        match value {
            PersistenceError::NotFound => AuditError::NotFound,
            PersistenceError::Validation(m) | PersistenceError::Conflict(m) => AuditError::Validation(m),
            PersistenceError::Repository(m) => AuditError::Repository(m),
        }
    }
}

/// Kind of record that an audit entry is about.
#[derive(Clone, Copy, Debug, PartialEq, Eq, Structural)]
pub enum AuditEntityType {
    User,
    KycProfile,
    SavingsPlan,
    Milestone,
    VaultContributor,
    Contribution,
    PayoutRequest,
    School,
    ScholarshipAward,
    AchievementCredential,
    ExternalReference,
}

impl AuditEntityType {
    /// The text that stands for this value.
    pub open spec fn spec_text(self) -> Seq<char> {
        match self {
            AuditEntityType::User => "user"@,
            AuditEntityType::KycProfile => "kyc_profile"@,
            AuditEntityType::SavingsPlan => "savings_plan"@,
            AuditEntityType::Milestone => "milestone"@,
            AuditEntityType::VaultContributor => "vault_contributor"@,
            AuditEntityType::Contribution => "contribution"@,
            AuditEntityType::PayoutRequest => "payout_request"@,
            AuditEntityType::School => "school"@,
            AuditEntityType::ScholarshipAward => "scholarship_award"@,
            AuditEntityType::AchievementCredential => "achievement_credential"@,
            AuditEntityType::ExternalReference => "external_reference"@,
        }
    }

    pub fn as_str(&self) -> (text: &'static str)
        ensures
            text@ == self.spec_text(),
    {
        match self {
            AuditEntityType::User => "user",
            AuditEntityType::KycProfile => "kyc_profile",
            AuditEntityType::SavingsPlan => "savings_plan",
            AuditEntityType::Milestone => "milestone",
            AuditEntityType::VaultContributor => "vault_contributor",
            AuditEntityType::Contribution => "contribution",
            AuditEntityType::PayoutRequest => "payout_request",
            AuditEntityType::School => "school",
            AuditEntityType::ScholarshipAward => "scholarship_award",
            AuditEntityType::AchievementCredential => "achievement_credential",
            AuditEntityType::ExternalReference => "external_reference",
        }
    }

}

/// What an audit entry records.
#[derive(Clone, Copy, Debug, PartialEq, Eq, Structural)]
pub enum AuditAction {
    UserRegistered,
    KycStatusChanged,
    PlanCreated,
    MilestoneCreated,
    ContributorAdded,
    ContributionRecorded,
    ContributionStatusChanged,
    PayoutRequested,
    PayoutApproved,
    PayoutRejected,
    PayoutStatusChanged,
    SchoolVerified,
    ScholarshipDecision,
    AchievementCredentialIssued,
    BlockchainReferenceAttached,
}

impl AuditAction {
    /// The text that stands for this value.
    pub open spec fn spec_text(self) -> Seq<char> {
        match self {
            AuditAction::UserRegistered => "user.registered"@,
            AuditAction::KycStatusChanged => "kyc.status_changed"@,
            AuditAction::PlanCreated => "savings_plan.created"@,
            AuditAction::MilestoneCreated => "milestone.created"@,
            AuditAction::ContributorAdded => "vault_contributor.added"@,
            AuditAction::ContributionRecorded => "contribution.recorded"@,
            AuditAction::ContributionStatusChanged => "contribution.status_changed"@,
            AuditAction::PayoutRequested => "payout.requested"@,
            AuditAction::PayoutApproved => "payout.approved"@,
            AuditAction::PayoutRejected => "payout.rejected"@,
            AuditAction::PayoutStatusChanged => "payout.status_changed"@,
            AuditAction::SchoolVerified => "school.verified"@,
            AuditAction::ScholarshipDecision => "scholarship.decision"@,
            AuditAction::AchievementCredentialIssued => "achievement_credential.issued"@,
            AuditAction::BlockchainReferenceAttached => "blockchain.reference_attached"@,
        }
    }

    pub fn as_str(&self) -> (text: &'static str)
        ensures
            text@ == self.spec_text(),
    {
        match self {
            AuditAction::UserRegistered => "user.registered",
            AuditAction::KycStatusChanged => "kyc.status_changed",
            AuditAction::PlanCreated => "savings_plan.created",
            AuditAction::MilestoneCreated => "milestone.created",
            AuditAction::ContributorAdded => "vault_contributor.added",
            AuditAction::ContributionRecorded => "contribution.recorded",
            AuditAction::ContributionStatusChanged => "contribution.status_changed",
            AuditAction::PayoutRequested => "payout.requested",
            AuditAction::PayoutApproved => "payout.approved",
            AuditAction::PayoutRejected => "payout.rejected",
            AuditAction::PayoutStatusChanged => "payout.status_changed",
            AuditAction::SchoolVerified => "school.verified",
            AuditAction::ScholarshipDecision => "scholarship.decision",
            AuditAction::AchievementCredentialIssued => "achievement_credential.issued",
            AuditAction::BlockchainReferenceAttached => "blockchain.reference_attached",
        }
    }

}


/// An action to record, before it is stored.
#[derive(Debug)]
pub struct AuditEvent {
    pub actor_user_id: Option<u128>,
    pub entity_type: AuditEntityType,
    pub entity_id: Option<u128>,
    pub action: AuditAction,
    pub metadata: JsonValue,
    pub occurred_at: i64,
}

/// The request that audit entries written while serving it belong to.
#[derive(Debug)]
pub struct AuditContext {
    pub request_id: String,
    pub correlation_id: String,
}

/// `v` is the text of the calendar date, or `null` for a day number outside
/// chrono's calendar.
pub open spec fn is_date(v: JsonValue, days: i32) -> bool {
    if in_calendar(days as int) {
        is_text(v, iso_date_text(days))
    } else {
        v is Null
    }
}

/// A calendar date as JSON text.
pub fn date_value(days: i32) -> (v: JsonValue)
    ensures
        is_date(v, days),
{
    match date_to_text(days) {
        Some(t) => JsonValue::Text(t),
        None => JsonValue::Null,
    }
}

/// Index of the first `c` in `s` at or after `from`, or the length of `s`.
pub open spec fn first_at_or_after(s: Seq<char>, from: int, c: char) -> int
    decreases s.len() - from,
{
    if from >= s.len() {
        s.len() as int
    } else if s[from] == c {
        from
    } else {
        first_at_or_after(s, from + 1, c)
    }
}

fn find_char(v: &Vec<char>, from: usize, c: char) -> (r: usize)
    requires
        from <= v.len(),
    ensures
        r == first_at_or_after(v@, from as int, c),
        from <= r <= v.len(),
{
    let mut i = from;
    while i < v.len() && v[i] != c
        invariant
            from <= i <= v.len(),
            first_at_or_after(v@, from as int, c) == first_at_or_after(v@, i as int, c),
        decreases v.len() - i,
    {
        i = i + 1;
    }
    i
}

/// The domain of an e-mail address as `email.split('@').nth(1)` gives it: the
/// text between the first `@` and the next one (or the end), or nothing when
/// there is no `@`.
pub open spec fn spec_email_domain(email: Seq<char>) -> Seq<char> {
    let i = first_at_or_after(email, 0, '@');
    if i >= email.len() {
        Seq::empty()
    } else {
        email.subrange(i + 1, first_at_or_after(email, i + 1, '@'))
    }
}

proof fn lemma_first_bounds(s: Seq<char>, from: int, c: char)
    requires
        0 <= from <= s.len(),
    ensures
        from <= first_at_or_after(s, from, c) <= s.len(),
    decreases s.len() - from,
{
    if from < s.len() && s[from] != c {
        lemma_first_bounds(s, from + 1, c);
    }
}

pub fn email_domain(email: &str) -> (d: String)
    ensures
        d@ == spec_email_domain(email@),
{
    let v = chars_of(email);
    let i = find_char(&v, 0, '@');
    if i >= v.len() {
        return String::new();
    }
    let j = find_char(&v, i + 1, '@');
    string_from_chars(&v, i + 1, j)
}

/// Whether the byte offsets that a preview cuts at fall on character
/// boundaries, so that slicing at them does not panic: always for texts of at
/// most 12 bytes; otherwise after the first 6 bytes and before the last 4.
pub open spec fn preview_defined(s: Seq<char>) -> bool {
    utf8_len(s) <= 12 || ((exists|k: int| 0 <= k <= s.len() && utf8_len(s.take(k)) == 6) && (exists|
        k: int,
    | 0 <= k <= s.len() && utf8_len(s.take(k)) == utf8_len(s) - 4))
}

/// The character index where the first `n` bytes of `s` end.
pub open spec fn boundary_at(s: Seq<char>, n: int) -> int {
    choose|k: int| 0 <= k <= s.len() && utf8_len(s.take(k)) == n
}

/// A short preview of a reference: the whole text when it has at most 12
/// bytes, else its first 6 bytes, `...` and its last 4 bytes.
pub open spec fn spec_preview(s: Seq<char>) -> Seq<char> {
    if utf8_len(s) <= 12 {
        s
    } else {
        s.take(boundary_at(s, 6)) + "..."@ + s.skip(boundary_at(s, utf8_len(s) - 4))
    }
}

proof fn lemma_boundary_unique(s: Seq<char>, n: int, k: int)
    requires
        0 <= k <= s.len(),
        utf8_len(s.take(k)) == n,
    ensures
        boundary_at(s, n) == k,
{
    let b = boundary_at(s, n);
    if b < k {
        lemma_utf8_len_strictly_increasing(s, b, k);
    } else if k < b {
        lemma_utf8_len_strictly_increasing(s, k, b);
    }
}

pub fn preview_value(value: &str) -> (p: String)
    requires
        preview_defined(value@),
        utf8_len(value@) <= usize::MAX,
    ensures
        p@ == spec_preview(value@),
{
    let v = chars_of(value);
    let offsets = byte_offsets(&v);
    assert(v@.take(v.len() as int) =~= v@);
    let total = offsets[v.len()];
    if total <= 12 {
        return string_from_chars(&v, 0, v.len());
    }
    let mut k1: usize = 0;
    while k1 < v.len() && offsets[k1] < 6
        invariant
            offsets.len() == v.len() + 1,
            k1 <= v.len(),
            forall|k: int| 0 <= k < k1 ==> offsets@[k] < 6,
        decreases v.len() - k1,
    {
        k1 = k1 + 1;
    }
    let mut k2: usize = 0;
    while k2 < v.len() && offsets[k2] < total - 4
        invariant
            offsets.len() == v.len() + 1,
            total > 12,
            k2 <= v.len(),
            forall|k: int| 0 <= k < k2 ==> offsets@[k] < total - 4,
        decreases v.len() - k2,
    {
        k2 = k2 + 1;
    }
    proof {
        let w1 = choose|k: int| 0 <= k <= v@.len() && utf8_len(v@.take(k)) == 6;
        assert(offsets@[w1] == utf8_len(v@.take(w1)));
        if w1 < k1 {
            assert(offsets@[w1] < 6);
        }
        if w1 > k1 {
            lemma_utf8_len_strictly_increasing(v@, k1 as int, w1);
            assert(offsets@[k1 as int] == utf8_len(v@.take(k1 as int)));
        }
        assert(w1 == k1);
        lemma_boundary_unique(v@, 6, k1 as int);
        let w2 = choose|k: int| 0 <= k <= v@.len() && utf8_len(v@.take(k)) == utf8_len(v@) - 4;
        assert(offsets@[w2] == utf8_len(v@.take(w2)));
        if w2 < k2 {
            assert(offsets@[w2] < total - 4);
        }
        if w2 > k2 {
            lemma_utf8_len_strictly_increasing(v@, k2 as int, w2);
            assert(offsets@[k2 as int] == utf8_len(v@.take(k2 as int)));
        }
        assert(w2 == k2);
        lemma_boundary_unique(v@, utf8_len(v@) - 4, k2 as int);
    }
    let mut p = string_from_chars(&v, 0, k1);
    push_text(&mut p, "...");
    let tail = string_from_chars(&v, k2, v.len());
    push_text(&mut p, tail.as_str());
    assert(v@.subrange(0, k1 as int) =~= v@.take(k1 as int));
    assert(v@.subrange(k2 as int, v.len() as int) =~= v@.skip(k2 as int));
    p
}

/// The action recorded for a payout decision: approval and rejection have
/// their own, any other status a general change.
pub open spec fn spec_payout_decision_action(to_status: Seq<char>) -> AuditAction {
    if to_status == "approved"@ {
        AuditAction::PayoutApproved
    } else if to_status == "rejected"@ {
        AuditAction::PayoutRejected
    } else {
        AuditAction::PayoutStatusChanged
    }
}

fn payout_decision_action(to_status: &str) -> (a: AuditAction)
    ensures
        a == spec_payout_decision_action(to_status@),
{
    if str_eq(to_status, "approved") {
        AuditAction::PayoutApproved
    } else if str_eq(to_status, "rejected") {
        AuditAction::PayoutRejected
    } else {
        AuditAction::PayoutStatusChanged
    }
}

impl AuditEvent {
    /// An event that occurs now.
    pub fn new(
        actor_user_id: Option<u128>,
        entity_type: AuditEntityType,
        entity_id: Option<u128>,
        action: AuditAction,
        metadata: JsonValue,
    ) -> (e: AuditEvent)
        ensures
            e.actor_user_id == actor_user_id,
            e.entity_type == entity_type,
            e.entity_id == entity_id,
            e.action == action,
            e.metadata == metadata,
    {
        AuditEvent { actor_user_id, entity_type, entity_id, action, metadata, occurred_at: now_micros() }
    }

    /// Registration of a user: the role and the domain of the address, never the address itself.
    pub fn user_registered(user_id: u128, role: &str, email: &str) -> (e: AuditEvent)
        ensures
            e.actor_user_id == Some(user_id),
            e.entity_type == AuditEntityType::User,
            e.entity_id == Some(user_id),
            e.action == AuditAction::UserRegistered,
            is_object_of(e.metadata, 2),
            key_at(e.metadata, 0) == "role"@ && is_text(value_at(e.metadata, 0), role@),
            key_at(e.metadata, 1) == "email_domain"@ && is_text(value_at(e.metadata, 1), spec_email_domain(email@)),
    {
        let domain = email_domain(email);
        let mut m: Vec<JsonEntry> = Vec::new();
        m.push(entry("role", text_value(role)));
        m.push(entry("email_domain", text_value(domain.as_str())));
        AuditEvent::new(Some(user_id), AuditEntityType::User, Some(user_id), AuditAction::UserRegistered, JsonValue::Object(m))
    }

    /// A change of a user's identity verification status; the provider reference is left out.
    pub fn kyc_status_changed(actor_user_id: Option<u128>, profile: &KycProfile, previous_status: Option<&str>) -> (e: AuditEvent)
        ensures
            e.actor_user_id == actor_user_id,
            e.entity_type == AuditEntityType::KycProfile,
            e.entity_id == Some(profile.id),
            e.action == AuditAction::KycStatusChanged,
            is_object_of(e.metadata, 3),
            key_at(e.metadata, 0) == "user_id"@ && is_uuid(value_at(e.metadata, 0), profile.user_id),
            key_at(e.metadata, 1) == "from_status"@ && is_opt_text(value_at(e.metadata, 1), match previous_status { Some(t) => Some(t@), None => None }),
            key_at(e.metadata, 2) == "to_status"@ && is_text(value_at(e.metadata, 2), profile.status.spec_text()),
    {
        let mut m: Vec<JsonEntry> = Vec::new();
        m.push(entry("user_id", uuid_value(profile.user_id)));
        m.push(entry("from_status", opt_text_value(previous_status)));
        m.push(entry("to_status", text_value(profile.status.as_str())));
        AuditEvent::new(actor_user_id, AuditEntityType::KycProfile, Some(profile.id), AuditAction::KycStatusChanged, JsonValue::Object(m))
    }

    /// Creation of a savings plan.
    pub fn plan_created(actor_user_id: u128, plan: &SavingsPlan) -> (e: AuditEvent)
        ensures
            e.actor_user_id == Some(actor_user_id),
            e.entity_type == AuditEntityType::SavingsPlan,
            e.entity_id == Some(plan.id),
            e.action == AuditAction::PlanCreated,
            is_object_of(e.metadata, 5),
            key_at(e.metadata, 0) == "child_profile_id"@ && is_uuid(value_at(e.metadata, 0), plan.child_profile_id),
            key_at(e.metadata, 1) == "owner_user_id"@ && is_uuid(value_at(e.metadata, 1), plan.owner_user_id),
            key_at(e.metadata, 2) == "target_amount_minor"@ && is_int(value_at(e.metadata, 2), plan.target_amount.amount_minor as int),
            key_at(e.metadata, 3) == "currency"@ && is_text(value_at(e.metadata, 3), plan.target_amount.currency.spec_text()),
            key_at(e.metadata, 4) == "status"@ && is_text(value_at(e.metadata, 4), plan.status.spec_text()),
    {
        let mut m: Vec<JsonEntry> = Vec::new();
        m.push(entry("child_profile_id", uuid_value(plan.child_profile_id)));
        m.push(entry("owner_user_id", uuid_value(plan.owner_user_id)));
        m.push(entry("target_amount_minor", int_value(plan.target_amount.amount_minor)));
        m.push(entry("currency", text_value(plan.target_amount.currency.as_str())));
        m.push(entry("status", text_value(plan.status.as_str())));
        AuditEvent::new(Some(actor_user_id), AuditEntityType::SavingsPlan, Some(plan.id), AuditAction::PlanCreated, JsonValue::Object(m))
    }

    /// Creation of a milestone.
    pub fn milestone_created(actor_user_id: u128, milestone: &Milestone) -> (e: AuditEvent)
        ensures
            e.actor_user_id == Some(actor_user_id),
            e.entity_type == AuditEntityType::Milestone,
            e.entity_id == Some(milestone.id),
            e.action == AuditAction::MilestoneCreated,
            is_object_of(e.metadata, 5),
            key_at(e.metadata, 0) == "vault_id"@ && is_uuid(value_at(e.metadata, 0), milestone.vault_id),
            key_at(e.metadata, 1) == "due_date"@ && is_date(value_at(e.metadata, 1), milestone.due_date),
            key_at(e.metadata, 2) == "target_amount_minor"@ && is_int(value_at(e.metadata, 2), milestone.target_amount.amount_minor as int),
            key_at(e.metadata, 3) == "currency"@ && is_text(value_at(e.metadata, 3), milestone.target_amount.currency.spec_text()),
            key_at(e.metadata, 4) == "payout_type"@ && is_text(value_at(e.metadata, 4), milestone.payout_type.spec_text()),
    {
        let mut m: Vec<JsonEntry> = Vec::new();
        m.push(entry("vault_id", uuid_value(milestone.vault_id)));
        m.push(entry("due_date", date_value(milestone.due_date)));
        m.push(entry("target_amount_minor", int_value(milestone.target_amount.amount_minor)));
        m.push(entry("currency", text_value(milestone.target_amount.currency.as_str())));
        m.push(entry("payout_type", text_value(milestone.payout_type.as_str())));
        AuditEvent::new(Some(actor_user_id), AuditEntityType::Milestone, Some(milestone.id), AuditAction::MilestoneCreated, JsonValue::Object(m))
    }

    /// A contributor added to a vault.
    pub fn contributor_added(actor_user_id: u128, contributor: &VaultContributor) -> (e: AuditEvent)
        ensures
            e.actor_user_id == Some(actor_user_id),
            e.entity_type == AuditEntityType::VaultContributor,
            e.entity_id == Some(contributor.id),
            e.action == AuditAction::ContributorAdded,
            is_object_of(e.metadata, 3),
            key_at(e.metadata, 0) == "vault_id"@ && is_uuid(value_at(e.metadata, 0), contributor.vault_id),
            key_at(e.metadata, 1) == "contributor_user_id"@ && is_uuid(value_at(e.metadata, 1), contributor.contributor_user_id),
            key_at(e.metadata, 2) == "role_label"@ && is_text(value_at(e.metadata, 2), contributor.role_label@),
    {
        let mut m: Vec<JsonEntry> = Vec::new();
        m.push(entry("vault_id", uuid_value(contributor.vault_id)));
        m.push(entry("contributor_user_id", uuid_value(contributor.contributor_user_id)));
        m.push(entry("role_label", text_value(contributor.role_label.as_str())));
        AuditEvent::new(Some(actor_user_id), AuditEntityType::VaultContributor, Some(contributor.id), AuditAction::ContributorAdded, JsonValue::Object(m))
    }

    /// A contribution intent recorded.
    pub fn contribution_recorded(actor_user_id: u128, contribution: &Contribution) -> (e: AuditEvent)
        ensures
            e.actor_user_id == Some(actor_user_id),
            e.entity_type == AuditEntityType::Contribution,
            e.entity_id == Some(contribution.id),
            e.action == AuditAction::ContributionRecorded,
            is_object_of(e.metadata, 6),
            key_at(e.metadata, 0) == "vault_id"@ && is_uuid(value_at(e.metadata, 0), contribution.vault_id),
            key_at(e.metadata, 1) == "contributor_user_id"@ && is_uuid(value_at(e.metadata, 1), contribution.contributor_user_id),
            key_at(e.metadata, 2) == "amount_minor"@ && is_int(value_at(e.metadata, 2), contribution.amount.amount_minor as int),
            key_at(e.metadata, 3) == "currency"@ && is_text(value_at(e.metadata, 3), contribution.amount.currency.spec_text()),
            key_at(e.metadata, 4) == "source_type"@ && is_text(value_at(e.metadata, 4), contribution.source_type.spec_text()),
            key_at(e.metadata, 5) == "status"@ && is_text(value_at(e.metadata, 5), contribution.status.spec_text()),
    {
        let mut m: Vec<JsonEntry> = Vec::new();
        m.push(entry("vault_id", uuid_value(contribution.vault_id)));
        m.push(entry("contributor_user_id", uuid_value(contribution.contributor_user_id)));
        m.push(entry("amount_minor", int_value(contribution.amount.amount_minor)));
        m.push(entry("currency", text_value(contribution.amount.currency.as_str())));
        m.push(entry("source_type", text_value(contribution.source_type.as_str())));
        m.push(entry("status", text_value(contribution.status.as_str())));
        AuditEvent::new(Some(actor_user_id), AuditEntityType::Contribution, Some(contribution.id), AuditAction::ContributionRecorded, JsonValue::Object(m))
    }

    /// A settlement of a contribution; only whether an external reference came with it.
    pub fn contribution_status_changed(actor_user_id: u128, contribution: &Contribution, to_status: &str, external_reference_present: bool) -> (e: AuditEvent)
        ensures
            e.actor_user_id == Some(actor_user_id),
            e.entity_type == AuditEntityType::Contribution,
            e.entity_id == Some(contribution.id),
            e.action == AuditAction::ContributionStatusChanged,
            is_object_of(e.metadata, 4),
            key_at(e.metadata, 0) == "vault_id"@ && is_uuid(value_at(e.metadata, 0), contribution.vault_id),
            key_at(e.metadata, 1) == "from_status"@ && is_text(value_at(e.metadata, 1), contribution.status.spec_text()),
            key_at(e.metadata, 2) == "to_status"@ && is_text(value_at(e.metadata, 2), to_status@),
            key_at(e.metadata, 3) == "external_reference_present"@ && value_at(e.metadata, 3) == JsonValue::Bool(external_reference_present),
    {
        let mut m: Vec<JsonEntry> = Vec::new();
        m.push(entry("vault_id", uuid_value(contribution.vault_id)));
        m.push(entry("from_status", text_value(contribution.status.as_str())));
        m.push(entry("to_status", text_value(to_status)));
        m.push(entry("external_reference_present", JsonValue::Bool(external_reference_present)));
        AuditEvent::new(Some(actor_user_id), AuditEntityType::Contribution, Some(contribution.id), AuditAction::ContributionStatusChanged, JsonValue::Object(m))
    }

    /// A payout request.
    pub fn payout_requested(actor_user_id: u128, payout: &PayoutRequest) -> (e: AuditEvent)
        ensures
            e.actor_user_id == Some(actor_user_id),
            e.entity_type == AuditEntityType::PayoutRequest,
            e.entity_id == Some(payout.id),
            e.action == AuditAction::PayoutRequested,
            is_object_of(e.metadata, 6),
            key_at(e.metadata, 0) == "vault_id"@ && is_uuid(value_at(e.metadata, 0), payout.vault_id),
            key_at(e.metadata, 1) == "milestone_id"@ && is_uuid(value_at(e.metadata, 1), payout.milestone_id),
            key_at(e.metadata, 2) == "school_id"@ && is_uuid(value_at(e.metadata, 2), payout.school_id),
            key_at(e.metadata, 3) == "amount_minor"@ && is_int(value_at(e.metadata, 3), payout.amount.amount_minor as int),
            key_at(e.metadata, 4) == "currency"@ && is_text(value_at(e.metadata, 4), payout.amount.currency.spec_text()),
            key_at(e.metadata, 5) == "status"@ && is_text(value_at(e.metadata, 5), payout.status.spec_text()),
    {
        let mut m: Vec<JsonEntry> = Vec::new();
        m.push(entry("vault_id", uuid_value(payout.vault_id)));
        m.push(entry("milestone_id", uuid_value(payout.milestone_id)));
        m.push(entry("school_id", uuid_value(payout.school_id)));
        m.push(entry("amount_minor", int_value(payout.amount.amount_minor)));
        m.push(entry("currency", text_value(payout.amount.currency.as_str())));
        m.push(entry("status", text_value(payout.status.as_str())));
        AuditEvent::new(Some(actor_user_id), AuditEntityType::PayoutRequest, Some(payout.id), AuditAction::PayoutRequested, JsonValue::Object(m))
    }

    /// A review decision on a payout: approval, rejection or another status change; notes and references only as presence flags.
    pub fn payout_decision(actor_user_id: u128, payout: &PayoutRequest, to_status: &str) -> (e: AuditEvent)
        ensures
            e.actor_user_id == Some(actor_user_id),
            e.entity_type == AuditEntityType::PayoutRequest,
            e.entity_id == Some(payout.id),
            e.action == spec_payout_decision_action(to_status@),
            is_object_of(e.metadata, 7),
            key_at(e.metadata, 0) == "vault_id"@ && is_uuid(value_at(e.metadata, 0), payout.vault_id),
            key_at(e.metadata, 1) == "milestone_id"@ && is_uuid(value_at(e.metadata, 1), payout.milestone_id),
            key_at(e.metadata, 2) == "school_id"@ && is_uuid(value_at(e.metadata, 2), payout.school_id),
            key_at(e.metadata, 3) == "from_status"@ && is_text(value_at(e.metadata, 3), payout.status.spec_text()),
            key_at(e.metadata, 4) == "to_status"@ && is_text(value_at(e.metadata, 4), to_status@),
            key_at(e.metadata, 5) == "review_notes_present"@ && value_at(e.metadata, 5) == JsonValue::Bool(match payout.review_notes { Some(n) => n@.len() > 0, None => false }),
            key_at(e.metadata, 6) == "external_payout_reference_present"@ && value_at(e.metadata, 6) == JsonValue::Bool(payout.external_payout_reference is Some),
    {
        let action = payout_decision_action(to_status);
        let notes_present = match &payout.review_notes {
            Some(n) => !is_empty_text(n.as_str()),
            None => false,
        };
        let mut m: Vec<JsonEntry> = Vec::new();
        m.push(entry("vault_id", uuid_value(payout.vault_id)));
        m.push(entry("milestone_id", uuid_value(payout.milestone_id)));
        m.push(entry("school_id", uuid_value(payout.school_id)));
        m.push(entry("from_status", text_value(payout.status.as_str())));
        m.push(entry("to_status", text_value(to_status)));
        m.push(entry("review_notes_present", JsonValue::Bool(notes_present)));
        m.push(entry("external_payout_reference_present", JsonValue::Bool(payout.external_payout_reference.is_some())));
        AuditEvent::new(Some(actor_user_id), AuditEntityType::PayoutRequest, Some(payout.id), action, JsonValue::Object(m))
    }

    /// A change of a school's verification.
    pub fn school_verified(actor_user_id: u128, school: &School) -> (e: AuditEvent)
        ensures
            e.actor_user_id == Some(actor_user_id),
            e.entity_type == AuditEntityType::School,
            e.entity_id == Some(school.id),
            e.action == AuditAction::SchoolVerified,
            is_object_of(e.metadata, 3),
            key_at(e.metadata, 0) == "verification_status"@ && is_text(value_at(e.metadata, 0), school.verification_status.spec_text()),
            key_at(e.metadata, 1) == "country"@ && is_text(value_at(e.metadata, 1), school.country@),
            key_at(e.metadata, 2) == "payout_method"@ && is_text(value_at(e.metadata, 2), school.payout_method.spec_text()),
    {
        let mut m: Vec<JsonEntry> = Vec::new();
        m.push(entry("verification_status", text_value(school.verification_status.as_str())));
        m.push(entry("country", text_value(school.country.as_str())));
        m.push(entry("payout_method", text_value(school.payout_method.as_str())));
        AuditEvent::new(Some(actor_user_id), AuditEntityType::School, Some(school.id), AuditAction::SchoolVerified, JsonValue::Object(m))
    }

    /// A decision on a scholarship application.
    pub fn scholarship_decision(actor_user_id: u128, application_id: u128, award: &ScholarshipAward, pool: &ScholarshipPool) -> (e: AuditEvent)
        ensures
            e.actor_user_id == Some(actor_user_id),
            e.entity_type == AuditEntityType::ScholarshipAward,
            e.entity_id == Some(award.id),
            e.action == AuditAction::ScholarshipDecision,
            is_object_of(e.metadata, 5),
            key_at(e.metadata, 0) == "application_id"@ && is_uuid(value_at(e.metadata, 0), application_id),
            key_at(e.metadata, 1) == "pool_id"@ && is_uuid(value_at(e.metadata, 1), pool.id),
            key_at(e.metadata, 2) == "decision"@ && is_text(value_at(e.metadata, 2), award.status.spec_text()),
            key_at(e.metadata, 3) == "amount_minor"@ && is_int(value_at(e.metadata, 3), award.amount.amount_minor as int),
            key_at(e.metadata, 4) == "currency"@ && is_text(value_at(e.metadata, 4), award.amount.currency.spec_text()),
    {
        let mut m: Vec<JsonEntry> = Vec::new();
        m.push(entry("application_id", uuid_value(application_id)));
        m.push(entry("pool_id", uuid_value(pool.id)));
        m.push(entry("decision", text_value(award.status.as_str())));
        m.push(entry("amount_minor", int_value(award.amount.amount_minor)));
        m.push(entry("currency", text_value(award.amount.currency.as_str())));
        AuditEvent::new(Some(actor_user_id), AuditEntityType::ScholarshipAward, Some(award.id), AuditAction::ScholarshipDecision, JsonValue::Object(m))
    }

    /// An external reference attached to a record; the reference itself only as a preview.
    pub fn blockchain_reference_attached(actor_user_id: Option<u128>, reference: &ExternalReference) -> (e: AuditEvent)
        requires
            preview_defined(reference.value@),
            utf8_len(reference.value@) <= usize::MAX,
        ensures
            e.actor_user_id == actor_user_id,
            e.entity_type == AuditEntityType::ExternalReference,
            e.entity_id == Some(reference.id),
            e.action == AuditAction::BlockchainReferenceAttached,
            is_object_of(e.metadata, 4),
            key_at(e.metadata, 0) == "entity_type"@ && is_text(value_at(e.metadata, 0), reference.entity_type.spec_text()),
            key_at(e.metadata, 1) == "entity_id"@ && is_uuid(value_at(e.metadata, 1), reference.entity_id),
            key_at(e.metadata, 2) == "reference_kind"@ && is_text(value_at(e.metadata, 2), reference.reference_kind.spec_text()),
            key_at(e.metadata, 3) == "reference_preview"@ && is_text(value_at(e.metadata, 3), spec_preview(reference.value@)),
    {
        let preview = preview_value(reference.value.as_str());
        let mut m: Vec<JsonEntry> = Vec::new();
        m.push(entry("entity_type", text_value(reference.entity_type.as_str())));
        m.push(entry("entity_id", uuid_value(reference.entity_id)));
        m.push(entry("reference_kind", text_value(reference.reference_kind.as_str())));
        m.push(entry("reference_preview", text_value(preview.as_str())));
        AuditEvent::new(actor_user_id, AuditEntityType::ExternalReference, Some(reference.id), AuditAction::BlockchainReferenceAttached, JsonValue::Object(m))
    }

    /// Issuance of an achievement credential; evidence and anchor only as presence flags.
    pub fn achievement_credential_issued(actor_user_id: u128, credential: &AchievementCredential) -> (e: AuditEvent)
        ensures
            e.actor_user_id == Some(actor_user_id),
            e.entity_type == AuditEntityType::AchievementCredential,
            e.entity_id == Some(credential.id),
            e.action == AuditAction::AchievementCredentialIssued,
            is_object_of(e.metadata, 11),
            key_at(e.metadata, 0) == "credential_ref"@ && is_uuid(value_at(e.metadata, 0), credential.credential_ref),
            key_at(e.metadata, 1) == "child_profile_id"@ && is_uuid(value_at(e.metadata, 1), credential.child_profile_id),
            key_at(e.metadata, 2) == "recipient_user_id"@ && is_opt_uuid(value_at(e.metadata, 2), credential.recipient_user_id),
            key_at(e.metadata, 3) == "school_id"@ && is_opt_uuid(value_at(e.metadata, 3), credential.school_id),
            key_at(e.metadata, 4) == "achievement_type"@ && is_text(value_at(e.metadata, 4), credential.achievement_type.spec_text()),
            key_at(e.metadata, 5) == "status"@ && is_text(value_at(e.metadata, 5), credential.status.spec_text()),
            key_at(e.metadata, 6) == "achievement_date"@ && is_date(value_at(e.metadata, 6), credential.achievement_date),
            key_at(e.metadata, 7) == "issued_by_role"@ && is_text(value_at(e.metadata, 7), credential.issued_by_role@),
            key_at(e.metadata, 8) == "attestation_method"@ && is_text(value_at(e.metadata, 8), credential.attestation_method@),
            key_at(e.metadata, 9) == "attestation_anchor_present"@ && value_at(e.metadata, 9) == JsonValue::Bool(credential.attestation_anchor is Some),
            key_at(e.metadata, 10) == "evidence_uri_present"@ && value_at(e.metadata, 10) == JsonValue::Bool(credential.evidence_uri is Some),
    {
        let mut m: Vec<JsonEntry> = Vec::new();
        m.push(entry("credential_ref", uuid_value(credential.credential_ref)));
        m.push(entry("child_profile_id", uuid_value(credential.child_profile_id)));
        m.push(entry("recipient_user_id", opt_uuid_value(credential.recipient_user_id)));
        m.push(entry("school_id", opt_uuid_value(credential.school_id)));
        m.push(entry("achievement_type", text_value(credential.achievement_type.as_str())));
        m.push(entry("status", text_value(credential.status.as_str())));
        m.push(entry("achievement_date", date_value(credential.achievement_date)));
        m.push(entry("issued_by_role", text_value(credential.issued_by_role.as_str())));
        m.push(entry("attestation_method", text_value(credential.attestation_method.as_str())));
        m.push(entry("attestation_anchor_present", JsonValue::Bool(credential.attestation_anchor.is_some())));
        m.push(entry("evidence_uri_present", JsonValue::Bool(credential.evidence_uri.is_some())));
        AuditEvent::new(Some(actor_user_id), AuditEntityType::AchievementCredential, Some(credential.id), AuditAction::AchievementCredentialIssued, JsonValue::Object(m))
    }

    /// The audit log entry for this event, under a fresh identifier and
    /// without request context.
    pub fn into_log(self) -> (log: AuditLog)
        ensures
            log.actor_user_id == self.actor_user_id,
            log.entity_type@ == self.entity_type.spec_text(),
            log.entity_id == self.entity_id,
            log.action@ == self.action.spec_text(),
            log.request_id is None,
            log.correlation_id is None,
            log.metadata == self.metadata,
            log.created_at == self.occurred_at,
            log.updated_at == self.occurred_at,
    {
        AuditLog {
            id: new_uuid(),
            actor_user_id: self.actor_user_id,
            entity_type: owned(self.entity_type.as_str()),
            entity_id: self.entity_id,
            action: owned(self.action.as_str()),
            request_id: None,
            correlation_id: None,
            metadata: self.metadata,
            created_at: self.occurred_at,
            updated_at: self.occurred_at,
        }
    }
}

impl AuditContext {
    /// The entry tagged with this request's identifiers.
    pub fn attach_to_log(&self, audit_log: AuditLog) -> (log: AuditLog)
        ensures
            log.request_id matches Some(r) && r == self.request_id,
            log.correlation_id matches Some(c) && c == self.correlation_id,
            log.id == audit_log.id && log.actor_user_id == audit_log.actor_user_id
                && log.entity_type == audit_log.entity_type && log.entity_id == audit_log.entity_id
                && log.action == audit_log.action && log.metadata == audit_log.metadata
                && log.created_at == audit_log.created_at && log.updated_at == audit_log.updated_at,
    {
        let mut log = audit_log;
        log.request_id = Some(self.request_id.clone());
        log.correlation_id = Some(self.correlation_id.clone());
        log
    }
}

/// Storage entries take the request context when they have none of their own.
pub fn fill_context(audit_log: AuditLog, context: Option<&AuditContext>) -> (log: AuditLog)
    ensures
        log.request_id == (match (audit_log.request_id, context) {
            (None, Some(c)) => Some(c.request_id),
            (r, _) => r,
        }),
        log.correlation_id == (match (audit_log.correlation_id, context) {
            (None, Some(c)) => Some(c.correlation_id),
            (r, _) => r,
        }),
        log.id == audit_log.id && log.actor_user_id == audit_log.actor_user_id && log.entity_type
            == audit_log.entity_type && log.entity_id == audit_log.entity_id && log.action
            == audit_log.action && log.metadata == audit_log.metadata && log.created_at
            == audit_log.created_at && log.updated_at == audit_log.updated_at,
{
    let mut log = audit_log;
    if let Some(c) = context {
        if log.request_id.is_none() {
            log.request_id = Some(c.request_id.clone());
        }
        if log.correlation_id.is_none() {
            log.correlation_id = Some(c.correlation_id.clone());
        }
    }
    log
}

/// An audit entry as storage keeps it: tagged with the request context where
/// it has no identifiers of its own, and with every sensitive member of its
/// metadata redacted.
pub fn sanitize_audit_log(audit_log: AuditLog, context: Option<&AuditContext>) -> (log: AuditLog)
    ensures
        log.request_id == (match (audit_log.request_id, context) {
            (None, Some(c)) => Some(c.request_id),
            (r, _) => r,
        }),
        log.correlation_id == (match (audit_log.correlation_id, context) {
            (None, Some(c)) => Some(c.correlation_id),
            (r, _) => r,
        }),
        redacted_copy(audit_log.metadata, log.metadata),
        log.id == audit_log.id && log.actor_user_id == audit_log.actor_user_id && log.entity_type
            == audit_log.entity_type && log.entity_id == audit_log.entity_id && log.action
            == audit_log.action && log.created_at == audit_log.created_at && log.updated_at
            == audit_log.updated_at,
{
    let mut log = fill_context(audit_log, context);
    let clean = sanitize_json_value(&log.metadata);
    log.metadata = clean;
    log
}

/// Records standardized audit events through a store.
pub struct AuditService<'a, R> {
    pub repo: &'a R,
}

impl<'a, R> AuditService<'a, R> {
    pub fn new(repo: &'a R) -> (s: Self)
        ensures
            s.repo == repo,
    {
        AuditService { repo }
    }
}

} // verus!
