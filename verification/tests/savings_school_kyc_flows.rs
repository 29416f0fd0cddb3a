use edustell::audit::{AuditAction, AuditEntityType, AuditEvent};
use edustell::auth::{AuthenticatedUser, UserRole};
use edustell::json::JsonValue;
use edustell::kyc::{decide_kyc_update, kyc_change_event, KycError, UpdateKycStatusInput};
use edustell::records::{ChildProfile, KycProfile, SavingsVault};
use edustell::repos::PersistenceError;
use edustell::savings::{
    decide_add_contributor, decide_create_milestone, decide_create_plan, AddContributorInput,
    CreateMilestoneInput, CreatePlanInput, SavingsError,
};
use edustell::schools::{
    check_school_search, decide_create_school, decide_verify_school, validate_school_fields,
    CreateSchoolInput, SchoolError, VerifySchoolInput,
};
use edustell::shared::Currency;
use edustell::status::{
    KycStatus, MilestoneStatus, PayoutType, PlanStatus, SchoolPayoutMethod, SchoolVerificationStatus,
    VaultStatus,
};

fn actor(role: UserRole, user_id: u128) -> AuthenticatedUser {
    AuthenticatedUser { user_id, role, session_id: 1 }
}

fn key_text(value: &JsonValue, key: &str) -> Option<String> {
    match value {
        JsonValue::Object(entries) => entries.iter().find(|e| e.key == key).and_then(|e| match &e.value {
            JsonValue::Text(t) => Some(t.clone()),
            JsonValue::Number(n) => Some(n.clone()),
            JsonValue::Null => Some("null".to_owned()),
            _ => None,
        }),
        _ => None,
    }
}

fn has_key(value: &JsonValue, key: &str) -> bool {
    match value {
        JsonValue::Object(entries) => entries.iter().any(|e| e.key == key),
        _ => false,
    }
}

fn child(owner: u128) -> ChildProfile {
    ChildProfile {
        id: 40,
        owner_user_id: owner,
        full_name: "Student".to_owned(),
        date_of_birth: None,
        education_level: Some("secondary".to_owned()),
        created_at: 0,
        updated_at: 0,
    }
}

fn vault(owner: u128) -> SavingsVault {
    SavingsVault {
        id: 50,
        plan_id: 51,
        owner_user_id: owner,
        currency: "USD".to_owned(),
        status: VaultStatus::Active,
        total_contributed_minor: 0,
        total_locked_minor: 0,
        total_disbursed_minor: 0,
        external_wallet_account_id: None,
        external_contract_ref: None,
        version: 0,
        created_at: 0,
        updated_at: 0,
    }
}

fn school_input() -> CreateSchoolInput {
    CreateSchoolInput {
        legal_name: "Springfield High".to_owned(),
        display_name: "Springfield High".to_owned(),
        country: "NG".to_owned(),
        payout_method: SchoolPayoutMethod::Manual,
        payout_reference: "acct-001".to_owned(),
    }
}

#[test]
fn create_plan_and_add_contributor_emit_audits() {
    let parent = actor(UserRole::Parent, 7);
    let plan = decide_create_plan(
        &parent,
        CreatePlanInput {
            child_profile_id: 40,
            name: " School Fees ".to_owned(),
            description: Some("  ".to_owned()),
            target_amount_minor: 10_000,
            currency: Currency::Fiat("USD".to_owned()),
        },
        Some(&child(7)),
    )
    .unwrap();
    assert_eq!(plan.name, "School Fees");
    assert_eq!(plan.description, None);
    assert_eq!(plan.status, PlanStatus::Draft);
    let plan_event = AuditEvent::plan_created(parent.user_id, &plan);
    assert_eq!(plan_event.action, AuditAction::PlanCreated);
    assert_eq!(plan_event.action.as_str(), "savings_plan.created");

    let milestone = decide_create_milestone(
        &parent,
        CreateMilestoneInput {
            vault_id: 50,
            title: " Term 1 ".to_owned(),
            description: None,
            due_date: 739_000,
            target_amount_minor: 5_000,
            currency: Currency::Fiat("USD".to_owned()),
            payout_type: PayoutType::Tuition,
        },
        Some(&vault(7)),
    )
    .unwrap();
    assert_eq!(milestone.title, "Term 1");
    assert_eq!(milestone.status, MilestoneStatus::Planned);
    assert_eq!(milestone.funded_amount.amount_minor, 0);
    assert_eq!(milestone.funded_amount.currency.as_str(), "USD");
    let milestone_event = AuditEvent::milestone_created(parent.user_id, &milestone);
    assert_eq!(milestone_event.action.as_str(), "milestone.created");

    let contributor = decide_add_contributor(
        &parent,
        AddContributorInput { vault_id: 50, contributor_user_id: 8, role_label: " aunt ".to_owned() },
        Some(&vault(7)),
    )
    .unwrap();
    assert_eq!(contributor.role_label, "aunt");
    let contributor_event = AuditEvent::contributor_added(parent.user_id, &contributor);
    assert_eq!(contributor_event.action.as_str(), "vault_contributor.added");
    assert_eq!(key_text(&contributor_event.metadata, "role_label").as_deref(), Some("aunt"));
}

#[test]
fn savings_requests_are_refused_in_order() {
    let parent = actor(UserRole::Parent, 7);
    let plan = |name: &str, amount: i64| CreatePlanInput {
        child_profile_id: 40,
        name: name.to_owned(),
        description: None,
        target_amount_minor: amount,
        currency: Currency::Usdc,
    };
    assert!(matches!(
        decide_create_plan(&actor(UserRole::Donor, 7), plan("x", 1), Some(&child(7))),
        Err(SavingsError::Forbidden)
    ));
    assert!(matches!(decide_create_plan(&parent, plan(" ", 1), Some(&child(7))), Err(SavingsError::Validation(m)) if m == "name is required"));
    assert!(matches!(decide_create_plan(&parent, plan("x", 1), None), Err(SavingsError::NotFound)));
    assert!(matches!(decide_create_plan(&parent, plan("x", 1), Some(&child(8))), Err(SavingsError::Forbidden)));
    assert!(matches!(decide_create_plan(&parent, plan("x", -1), Some(&child(7))), Err(SavingsError::Validation(m)) if m == "amount must be non-negative"));

    let milestone = |title: &str, currency: Currency| CreateMilestoneInput {
        vault_id: 50,
        title: title.to_owned(),
        description: None,
        due_date: 1,
        target_amount_minor: 1,
        currency,
        payout_type: PayoutType::Tuition,
    };
    assert!(matches!(decide_create_milestone(&parent, milestone("t", Currency::Usdc), None), Err(SavingsError::NotFound)));
    assert!(matches!(decide_create_milestone(&parent, milestone("t", Currency::Usdc), Some(&vault(8))), Err(SavingsError::Forbidden)));
    assert!(matches!(decide_create_milestone(&parent, milestone(" ", Currency::Usdc), Some(&vault(7))), Err(SavingsError::Validation(m)) if m == "title is required"));
    assert!(matches!(decide_create_milestone(&parent, milestone("t", Currency::Usdc), Some(&vault(7))), Err(SavingsError::Validation(m)) if m == "milestone currency must match vault"));

    let add = AddContributorInput { vault_id: 50, contributor_user_id: 9, role_label: "  ".to_owned() };
    assert!(matches!(decide_add_contributor(&parent, add, Some(&vault(7))), Err(SavingsError::Validation(m)) if m == "role_label is required"));

    assert!(matches!(SavingsError::from_persistence(PersistenceError::Conflict("dup".to_owned())), SavingsError::Validation(m) if m == "dup"));
}

#[test]
fn create_school_records_creation_audit() {
    let admin = actor(UserRole::PlatformAdmin, 3);
    let (school, audit) = decide_create_school(&admin, school_input()).unwrap();

    assert_eq!(school.verification_status, SchoolVerificationStatus::Pending);
    assert_eq!(audit.action, "school.created");
    assert_eq!(key_text(&audit.metadata, "payout_method").as_deref(), Some("manual"));
    assert!(!has_key(&audit.metadata, "payout_reference"));
}

#[test]
fn verify_school_records_status_change_audit() {
    let admin = actor(UserRole::PlatformAdmin, 3);
    let audit = decide_verify_school(
        &admin,
        &VerifySchoolInput { school_id: 31, verification_status: SchoolVerificationStatus::Verified },
    )
    .unwrap();

    assert_eq!(audit.action, "school.verification_status_changed");
    assert_eq!(audit.entity_type, "school");
    assert_eq!(audit.entity_id, Some(31));
    assert_eq!(key_text(&audit.metadata, "verification_status").as_deref(), Some("verified"));
}

#[test]
fn school_rules() {
    let parent = actor(UserRole::Parent, 3);
    assert!(matches!(decide_create_school(&parent, school_input()), Err(SchoolError::Forbidden)));
    assert!(check_school_search(&parent).is_ok());
    assert!(matches!(check_school_search(&actor(UserRole::Donor, 1)), Err(SchoolError::Forbidden)));
    let mut missing = school_input();
    missing.country = "  ".to_owned();
    assert!(matches!(validate_school_fields(&missing), Err(SchoolError::Validation(m)) if m == "country is required"));
    let mut missing = school_input();
    missing.legal_name = String::new();
    missing.payout_reference = String::new();
    assert!(matches!(validate_school_fields(&missing), Err(SchoolError::Validation(m)) if m == "legal_name is required"));
}

#[test]
fn kyc_status_change_records_audit_without_provider_reference() {
    let admin = actor(UserRole::PlatformAdmin, 3);
    let saved = decide_kyc_update(
        &admin,
        UpdateKycStatusInput {
            user_id: 20,
            status: KycStatus::Approved,
            provider_reference: Some("provider-ref-123".to_owned()),
        },
        None,
    )
    .unwrap();
    assert_eq!(saved.provider_reference.as_deref(), Some("provider-ref-123"));
    assert_eq!(saved.reviewed_at, Some(saved.updated_at));

    let event = kyc_change_event(&admin, &saved, None).unwrap();
    let log = event.into_log();
    assert_eq!(log.action, "kyc.status_changed");
    assert_eq!(log.entity_type, AuditEntityType::KycProfile.as_str());
    assert!(!has_key(&log.metadata, "provider_reference"));
    assert_eq!(key_text(&log.metadata, "to_status").as_deref(), Some("approved"));
    assert_eq!(key_text(&log.metadata, "from_status").as_deref(), Some("null"));

    assert!(kyc_change_event(&admin, &saved, Some(KycStatus::Approved)).is_none());
    let again = kyc_change_event(&admin, &saved, Some(KycStatus::Pending)).unwrap();
    assert_eq!(key_text(&again.metadata, "from_status").as_deref(), Some("pending"));
}

#[test]
fn kyc_update_keeps_identity_and_needs_admin() {
    let admin = actor(UserRole::PlatformAdmin, 3);
    let existing = KycProfile {
        id: 70,
        user_id: 20,
        status: KycStatus::Pending,
        provider_reference: None,
        reviewed_at: None,
        created_at: 5,
        updated_at: 5,
    };
    let input = || UpdateKycStatusInput { user_id: 20, status: KycStatus::Rejected, provider_reference: None };
    let updated = decide_kyc_update(&admin, input(), Some(&existing)).unwrap();
    assert_eq!(updated.id, 70);
    assert_eq!(updated.created_at, 5);
    assert_eq!(updated.status, KycStatus::Rejected);
    assert!(matches!(decide_kyc_update(&actor(UserRole::Parent, 1), input(), None), Err(KycError::Forbidden)));
    assert!(matches!(KycError::from_persistence(PersistenceError::NotFound), KycError::Validation(m) if m == "profile not found"));
}
