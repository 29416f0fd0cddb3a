use edustell::auth::{AuthenticatedUser, UserRole};
use edustell::json::JsonValue;
use edustell::ledger::{pool_balance_after_approval, pool_balance_after_funding, pool_balance_after_revocation};
use edustell::records::{ChildProfile, ScholarshipApplication, ScholarshipAward, ScholarshipPool};
use edustell::scholarship_services::{
    decide_application, decide_approval, decide_create_pool, decide_disbursement, decide_fund_pool,
    decide_rejection, decide_revocation, revocation_reaches_pool_update, check_donation_listing, found_pool, CreateScholarshipApplicationInput, CreateScholarshipPoolInput,
    DecideScholarshipApplicationInput, FundScholarshipPoolInput, ScholarshipError,
    UpdateScholarshipAwardInput,
};
use edustell::shared::{Currency, Money};
use edustell::status::{
    DonorContributionStatus, ScholarshipApplicationStatus, ScholarshipAwardStatus, ScholarshipPoolStatus,
};

fn actor(role: UserRole, user_id: u128) -> AuthenticatedUser {
    AuthenticatedUser { user_id, role, session_id: 99 }
}

fn owner_id() -> u128 {
    10
}

fn seeded_pool_id() -> u128 {
    11
}

fn seeded_child_id() -> u128 {
    12
}

fn seeded_application_id() -> u128 {
    13
}

fn seeded_school_id() -> u128 {
    14
}

fn usd() -> Currency {
    Currency::Fiat("USD".to_owned())
}

fn seeded_pool() -> ScholarshipPool {
    ScholarshipPool {
        id: seeded_pool_id(),
        owner_user_id: owner_id(),
        name: "Seed Pool".to_owned(),
        description: None,
        status: ScholarshipPoolStatus::Open,
        available_funds: Money::new(25_000, usd()).unwrap(),
        geography_restriction: Some("NG".to_owned()),
        education_level_restriction: Some("secondary".to_owned()),
        school_id_restriction: Some(seeded_school_id()),
        category_restriction: Some("stem".to_owned()),
        created_at: 0,
        updated_at: 0,
    }
}

fn seeded_child() -> ChildProfile {
    ChildProfile {
        id: seeded_child_id(),
        owner_user_id: owner_id(),
        full_name: "Student".to_owned(),
        date_of_birth: None,
        education_level: Some("secondary".to_owned()),
        created_at: 0,
        updated_at: 0,
    }
}

fn seeded_application() -> ScholarshipApplication {
    ScholarshipApplication {
        id: seeded_application_id(),
        pool_id: seeded_pool_id(),
        applicant_user_id: owner_id(),
        child_profile_id: seeded_child_id(),
        student_country: Some("NG".to_owned()),
        education_level: Some("secondary".to_owned()),
        school_id: Some(seeded_school_id()),
        category: Some("stem".to_owned()),
        status: ScholarshipApplicationStatus::Submitted,
        notes: None,
        created_at: 0,
        updated_at: 0,
    }
}

fn application_input(country: &str) -> CreateScholarshipApplicationInput {
    CreateScholarshipApplicationInput {
        pool_id: seeded_pool_id(),
        child_profile_id: seeded_child_id(),
        student_country: Some(country.to_owned()),
        education_level: Some("secondary".to_owned()),
        school_id: Some(seeded_school_id()),
        category: Some("stem".to_owned()),
        notes: None,
    }
}

fn decision(amount_minor: i64, notes: Option<&str>) -> DecideScholarshipApplicationInput {
    DecideScholarshipApplicationInput {
        application_id: seeded_application_id(),
        amount_minor,
        currency: usd(),
        decision_notes: notes.map(|n| n.to_owned()),
    }
}

fn metadata_text(value: &JsonValue, key: &str) -> Option<String> {
    match value {
        JsonValue::Object(entries) => entries.iter().find(|e| e.key == key).and_then(|e| match &e.value {
            JsonValue::Text(t) => Some(t.clone()),
            JsonValue::Number(n) => Some(n.clone()),
            JsonValue::Bool(b) => Some(b.to_string()),
            JsonValue::Null => Some("null".to_owned()),
            _ => None,
        }),
        _ => None,
    }
}

#[test]
fn donor_can_create_and_fund_pool() {
    let donor = actor(UserRole::Donor, owner_id());

    let (mut pool, create_audit) = decide_create_pool(
        &donor,
        CreateScholarshipPoolInput {
            name: "STEM Fund".to_owned(),
            description: None,
            currency: usd(),
            geography_restriction: Some("NG".to_owned()),
            education_level_restriction: None,
            school_id_restriction: None,
            category_restriction: Some("stem".to_owned()),
        },
    )
    .unwrap();
    assert_eq!(create_audit.action, "scholarship_pool.created");
    assert_eq!(create_audit.entity_type, "scholarship");
    assert_eq!(create_audit.entity_id, Some(pool.id));

    let (contribution, fund_audit) = decide_fund_pool(
        &donor,
        FundScholarshipPoolInput {
            pool_id: pool.id,
            amount_minor: 50_000,
            currency: usd(),
            external_reference: None,
            idempotency_key: "fund-1".to_owned(),
        },
        Some(&pool),
    )
    .unwrap();
    pool.available_funds.amount_minor =
        pool_balance_after_funding(pool.available_funds.amount_minor, contribution.amount.amount_minor);

    assert_eq!(pool.available_funds.amount_minor, 50_000);
    assert_eq!(contribution.status, DonorContributionStatus::Confirmed);
    assert_eq!(fund_audit.action, "scholarship_pool.funded");
    assert_eq!(metadata_text(&fund_audit.metadata, "amount_minor").as_deref(), Some("50000"));
    assert_eq!(metadata_text(&fund_audit.metadata, "external_reference_present").as_deref(), Some("false"));
}

#[test]
fn application_must_match_pool_restrictions() {
    let parent = actor(UserRole::Parent, owner_id());
    let pool = seeded_pool();
    let child = seeded_child();

    let error = decide_application(&parent, application_input("GH"), Some(&pool), Some(&child)).unwrap_err();

    assert!(matches!(error, ScholarshipError::Validation(_)));
}

#[test]
fn approve_cannot_exceed_pool_balance() {
    let admin = actor(UserRole::PlatformAdmin, 77);
    let pool = seeded_pool();
    let application = seeded_application();

    let error = decide_approval(&admin, decision(100_000, None), Some(&application), Some(&pool)).unwrap_err();

    assert!(matches!(error, ScholarshipError::Conflict(_)));
}

#[test]
fn revoking_approved_award_restores_pool_balance() {
    let admin = actor(UserRole::PlatformAdmin, 77);
    let mut pool = seeded_pool();
    let mut application = seeded_application();

    let approved =
        decide_approval(&admin, decision(10_000, Some("approved")), Some(&application), Some(&pool)).unwrap();
    application.status = approved.application_status;
    pool.available_funds.amount_minor = approved.pool_available_funds_minor;
    assert_eq!(pool.available_funds.amount_minor, 15_000);
    let award = approved.award;

    let revoked = decide_revocation(
        &admin,
        &UpdateScholarshipAwardInput {
            award_id: award.id,
            decision_notes: Some("revoked".to_owned()),
            linked_payout_request_id: None,
            linked_vault_id: None,
        },
        Some(&award),
        Some(&application),
        Some(&pool),
    )
    .unwrap();

    assert_eq!(revoked.status, ScholarshipAwardStatus::Revoked);
    assert_eq!(revoked.pool_available_funds_minor, 25_000);
}

#[test]
fn creating_a_pool_needs_a_donor_or_admin_and_a_name() {
    let parent = actor(UserRole::Parent, 1);
    let input = || CreateScholarshipPoolInput {
        name: "   ".to_owned(),
        description: Some("  about  ".to_owned()),
        currency: usd(),
        geography_restriction: Some("  ".to_owned()),
        education_level_restriction: None,
        school_id_restriction: None,
        category_restriction: None,
    };
    assert!(matches!(decide_create_pool(&parent, input()), Err(ScholarshipError::Forbidden)));
    let admin = actor(UserRole::PlatformAdmin, 2);
    match decide_create_pool(&admin, input()) {
        Err(ScholarshipError::Validation(m)) => assert_eq!(m, "name is required"),
        other => panic!("unexpected {:?}", other),
    }
    let mut named = input();
    named.name = "Pool".to_owned();
    let (pool, _) = decide_create_pool(&admin, named).unwrap();
    assert_eq!(pool.description.as_deref(), Some("about"));
    assert_eq!(pool.geography_restriction, None);
    assert_eq!(pool.available_funds.amount_minor, 0);
    assert_eq!(pool.status, ScholarshipPoolStatus::Open);
}

#[test]
fn funding_checks_role_amount_pool_and_currency() {
    let donor = actor(UserRole::Donor, 1);
    let fund = |amount: i64, currency: Currency| FundScholarshipPoolInput {
        pool_id: seeded_pool_id(),
        amount_minor: amount,
        currency,
        external_reference: Some(" ref-1 ".to_owned()),
        idempotency_key: "k".to_owned(),
    };
    let pool = seeded_pool();
    assert!(matches!(
        decide_fund_pool(&actor(UserRole::Student, 1), fund(10, usd()), Some(&pool)),
        Err(ScholarshipError::Forbidden)
    ));
    match decide_fund_pool(&donor, fund(0, usd()), Some(&pool)) {
        Err(ScholarshipError::Validation(m)) => assert_eq!(m, "amount must be positive"),
        other => panic!("unexpected {:?}", other),
    }
    assert!(matches!(decide_fund_pool(&donor, fund(10, usd()), None), Err(ScholarshipError::NotFound)));
    let mut closed = seeded_pool();
    closed.status = ScholarshipPoolStatus::Closed;
    match decide_fund_pool(&donor, fund(10, usd()), Some(&closed)) {
        Err(ScholarshipError::Conflict(m)) => assert_eq!(m, "scholarship pool is not open"),
        other => panic!("unexpected {:?}", other),
    }
    match decide_fund_pool(&donor, fund(10, Currency::Usdc), Some(&pool)) {
        Err(ScholarshipError::Validation(m)) => assert_eq!(m, "currency must match scholarship pool currency"),
        other => panic!("unexpected {:?}", other),
    }
    let (c, audit) = decide_fund_pool(&donor, fund(10, usd()), Some(&pool)).unwrap();
    assert_eq!(c.external_reference.as_deref(), Some("ref-1"));
    assert_eq!(c.idempotency_key.as_deref(), Some("k"));
    assert_eq!(metadata_text(&audit.metadata, "external_reference_present").as_deref(), Some("true"));
}

#[test]
fn application_uses_child_education_level_and_checks_access() {
    let parent = actor(UserRole::Parent, owner_id());
    let pool = seeded_pool();
    let child = seeded_child();
    let mut input = application_input("  NG ");
    input.education_level = None;
    input.notes = Some("   ".to_owned());
    let (application, audit) = decide_application(&parent, input, Some(&pool), Some(&child)).unwrap();
    assert_eq!(application.education_level.as_deref(), Some("secondary"));
    assert_eq!(application.student_country.as_deref(), Some("NG"));
    assert_eq!(application.notes, None);
    assert_eq!(application.status, ScholarshipApplicationStatus::Submitted);
    assert_eq!(audit.action, "scholarship_application.submitted");

    let stranger = actor(UserRole::Parent, 555);
    assert!(matches!(
        decide_application(&stranger, application_input("NG"), Some(&pool), Some(&child)),
        Err(ScholarshipError::Forbidden)
    ));
    let student = actor(UserRole::Student, 555);
    assert!(decide_application(&student, application_input("NG"), Some(&pool), Some(&child)).is_ok());
    assert!(matches!(
        decide_application(&actor(UserRole::Donor, 1), application_input("NG"), Some(&pool), Some(&child)),
        Err(ScholarshipError::Forbidden)
    ));
    assert!(matches!(
        decide_application(&parent, application_input("NG"), Some(&pool), None),
        Err(ScholarshipError::NotFound)
    ));
}

#[test]
fn rejection_keeps_pool_balance_and_refuses_negative_amounts() {
    let admin = actor(UserRole::PlatformAdmin, 77);
    let pool = seeded_pool();
    let application = seeded_application();
    let rejected = decide_rejection(&admin, decision(0, Some(" no ")), Some(&application), Some(&pool)).unwrap();
    assert_eq!(rejected.application_status, ScholarshipApplicationStatus::Rejected);
    assert_eq!(rejected.award.status, ScholarshipAwardStatus::Rejected);
    assert_eq!(rejected.pool_available_funds_minor, 25_000);
    assert_eq!(rejected.audit.action, "scholarship_application.rejected");
    assert_eq!(rejected.audit.entity_type, "scholarship_award");
    assert_eq!(metadata_text(&rejected.audit.metadata, "decision").as_deref(), Some("rejected"));
    match decide_rejection(&admin, decision(-5, None), Some(&application), Some(&pool)) {
        Err(ScholarshipError::Validation(m)) => assert_eq!(m, "amount must be non-negative"),
        other => panic!("unexpected {:?}", other),
    }
    let mut decided = seeded_application();
    decided.status = ScholarshipApplicationStatus::Approved;
    match decide_rejection(&admin, decision(0, None), Some(&decided), Some(&pool)) {
        Err(ScholarshipError::Conflict(m)) => assert_eq!(m, "invalid scholarship award transition"),
        other => panic!("unexpected {:?}", other),
    }
}

#[test]
fn disbursement_needs_a_link_and_keeps_the_balance() {
    let admin = actor(UserRole::PlatformAdmin, 77);
    let pool = seeded_pool();
    let application = seeded_application();
    let award = ScholarshipAward {
        id: 500,
        application_id: application.id,
        decided_by: 77,
        amount: Money::new(5_000, usd()).unwrap(),
        status: ScholarshipAwardStatus::Approved,
        decision_notes: None,
        linked_payout_request_id: None,
        linked_vault_id: None,
        created_at: 0,
        updated_at: 0,
    };
    let unlinked = UpdateScholarshipAwardInput {
        award_id: 500,
        decision_notes: None,
        linked_payout_request_id: None,
        linked_vault_id: None,
    };
    match decide_disbursement(&admin, &unlinked, Some(&award), Some(&application), Some(&pool)) {
        Err(ScholarshipError::Conflict(m)) => {
            assert_eq!(m, "disbursed award must link to a payout request or vault earmark")
        },
        other => panic!("unexpected {:?}", other),
    }
    let linked = UpdateScholarshipAwardInput {
        award_id: 500,
        decision_notes: Some("paid".to_owned()),
        linked_payout_request_id: None,
        linked_vault_id: Some(600),
    };
    let step = decide_disbursement(&admin, &linked, Some(&award), Some(&application), Some(&pool)).unwrap();
    assert_eq!(step.status, ScholarshipAwardStatus::Disbursed);
    assert_eq!(step.linked_vault_id, Some(600));
    assert_eq!(step.pool_available_funds_minor, 25_000);
    assert_eq!(step.audit.action, "scholarship_award.disbursed");
    assert!(matches!(
        decide_disbursement(&actor(UserRole::Parent, 1), &linked, Some(&award), Some(&application), Some(&pool)),
        Err(ScholarshipError::Forbidden)
    ));
    assert!(matches!(
        decide_disbursement(&admin, &linked, None, Some(&application), Some(&pool)),
        Err(ScholarshipError::NotFound)
    ));
}

#[test]
fn pool_balance_formulas() {
    assert_eq!(pool_balance_after_funding(25_000, 5_000), 30_000);
    assert_eq!(pool_balance_after_approval(25_000, 10_000), 15_000);
    assert_eq!(pool_balance_after_revocation(15_000, 10_000), 25_000);
}

#[test]
fn donations_of_a_pool_are_listed_for_donors_and_admins_only() {
    assert!(check_donation_listing(&actor(UserRole::Donor, 1)).is_ok());
    assert!(check_donation_listing(&actor(UserRole::PlatformAdmin, 2)).is_ok());
    assert!(matches!(check_donation_listing(&actor(UserRole::Parent, 3)), Err(ScholarshipError::Forbidden)));
    assert!(matches!(check_donation_listing(&actor(UserRole::Contributor, 4)), Err(ScholarshipError::Forbidden)));
}

#[test]
fn a_missing_pool_is_not_found() {
    assert!(matches!(found_pool(None), Err(ScholarshipError::NotFound)));
    let pool = found_pool(Some(seeded_pool())).unwrap();
    assert_eq!(pool.id, seeded_pool_id());
}

#[test]
fn a_refused_revocation_needs_no_pool_arithmetic() {
    let admin = actor(UserRole::PlatformAdmin, 77);
    let mut pool = seeded_pool();
    let application = seeded_application();
    let approved = decide_approval(&admin, decision(10_000, None), Some(&application), Some(&pool)).unwrap();
    let award = approved.award;
    pool.available_funds.amount_minor = i64::MAX;
    let input = UpdateScholarshipAwardInput {
        award_id: award.id,
        decision_notes: None,
        linked_payout_request_id: None,
        linked_vault_id: None,
    };
    let parent = actor(UserRole::Parent, 1);
    assert!(!revocation_reaches_pool_update(&parent, &input, Some(&award), Some(&application), Some(&pool)));
    assert!(matches!(
        decide_revocation(&parent, &input, Some(&award), Some(&application), Some(&pool)),
        Err(ScholarshipError::Forbidden)
    ));
    assert!(revocation_reaches_pool_update(&admin, &input, Some(&award), Some(&application), Some(&pool)));
    assert!(!revocation_reaches_pool_update(&admin, &input, Some(&award), Some(&application), None));
}
