use edustell::auth::{AuthenticatedUser, UserRole};
use edustell::credentials::{
    attestation_document, attestation_hash, check_child_owner, credential_access, credential_listing_source,
    decide_issue_credential, lower_hex, order_credentials, validate_input, validate_issuer, CredentialError,
    CredentialListFilter, CredentialSource, IssueCredentialInput,
};
use edustell::json::{JsonEntry, JsonValue};
use edustell::notifications::{
    check_notification_owner, contribution_received_event, decide_preference, default_preference, mark_read,
    mark_unread,
    event_recipient, payout_approved_event, plan_delivery, render_notification_template, ApplicationEvent,
    NotificationError,
};
use edustell::records::{
    AchievementCredential, ChildProfile, Contribution, Notification, NotificationPreference, PayoutRequest,
    SavingsVault, School,
};
use edustell::shared::{Currency, Money};
use edustell::status::{
    AchievementCredentialStatus, AchievementCredentialType, ContributionSourceType, ContributionStatus,
    NotificationStatus, NotificationType, PayoutStatus, SchoolPayoutMethod, SchoolVerificationStatus,
    VaultStatus,
};

fn actor(role: UserRole, user_id: u128) -> AuthenticatedUser {
    AuthenticatedUser { user_id, role, session_id: 1 }
}

fn text_of(value: &JsonValue, key: &str) -> Option<String> {
    match value {
        JsonValue::Object(entries) => entries.iter().find(|e| e.key == key).and_then(|e| match &e.value {
            JsonValue::Text(t) => Some(t.clone()),
            JsonValue::Number(n) => Some(n.clone()),
            JsonValue::Null => Some("null".to_owned()),
            _ => None,
        }),
        _ => None,
    }
}

fn contribution_event(recipient: u128) -> ApplicationEvent {
    ApplicationEvent::ContributionReceived {
        recipient_user_id: recipient,
        contribution_id: 0x11,
        vault_id: 0x22,
        amount_minor: 5000,
        currency: "USD".to_owned(),
    }
}

#[test]
fn application_event_creates_in_app_notification() {
    let plan = plan_delivery(&contribution_event(9), None);
    let stored = plan.notification.unwrap();

    assert_eq!(stored.notification_type, NotificationType::ContributionReceived);
    assert_eq!(stored.user_id, 9);
    assert_eq!(stored.status, NotificationStatus::Pending);
    assert!(plan.email.is_none());
}

#[test]
fn email_preference_triggers_email_send() {
    let preference = NotificationPreference {
        id: 1,
        user_id: 9,
        notification_type: NotificationType::KycActionRequired,
        in_app_enabled: false,
        email_enabled: true,
        created_at: 0,
        updated_at: 0,
    };
    let plan = plan_delivery(
        &ApplicationEvent::KycActionRequired { recipient_user_id: 9, reason: "Upload ID".to_owned() },
        Some(preference),
    );

    assert!(plan.notification.is_none());
    let email = plan.email.unwrap();
    assert_eq!(email.to_user_id, 9);
    assert_eq!(email.subject, "KYC action required");
    assert_eq!(email.body, "Upload ID");
}

#[test]
fn mark_read_and_unread_requires_owner() {
    let notification = Notification {
        id: 1,
        user_id: 9,
        notification_type: NotificationType::PayoutApproved,
        title: "t".to_owned(),
        body: "b".to_owned(),
        metadata: JsonValue::Object(Vec::new()),
        status: NotificationStatus::Pending,
        read_at: None,
        created_at: 0,
        updated_at: 0,
    };
    assert!(check_notification_owner(&actor(UserRole::Parent, 9), Some(&notification)).is_ok());
    assert!(matches!(
        check_notification_owner(&actor(UserRole::Parent, 10), Some(&notification)),
        Err(NotificationError::Forbidden)
    ));
    assert!(matches!(check_notification_owner(&actor(UserRole::Parent, 9), None), Err(NotificationError::NotFound)));
    let read = mark_read(notification, 55);
    assert_eq!(read.status, NotificationStatus::Read);
    assert_eq!(read.read_at, Some(55));
    let unread = mark_unread(read);
    assert_eq!(unread.status, NotificationStatus::Pending);
    assert_eq!(unread.read_at, None);
    assert_eq!(unread.id, 1);
}

#[test]
fn contribution_helper_routes_notification_to_vault_owner() {
    let vault = SavingsVault {
        id: 0x22,
        plan_id: 3,
        owner_user_id: 77,
        currency: "USD".to_owned(),
        status: VaultStatus::Active,
        total_contributed_minor: 0,
        total_locked_minor: 0,
        total_disbursed_minor: 0,
        external_wallet_account_id: None,
        external_contract_ref: None,
        version: 0,
        created_at: 0,
        updated_at: 0,
    };
    let contribution = Contribution {
        id: 0x11,
        vault_id: 0x22,
        contributor_user_id: 5,
        amount: Money::new(5_000, Currency::Fiat("USD".to_owned())).unwrap(),
        status: ContributionStatus::Confirmed,
        source_type: ContributionSourceType::Manual,
        external_reference: None,
        idempotency_key: None,
        created_at: 0,
        updated_at: 0,
    };
    let event = contribution_received_event(Some(&vault), &contribution).unwrap();
    assert_eq!(event_recipient(&event), 77);
    let stored = plan_delivery(&event, None).notification.unwrap();

    assert_eq!(stored.user_id, 77);
    assert_eq!(stored.notification_type, NotificationType::ContributionReceived);
    assert!(matches!(contribution_received_event(None, &contribution), Err(NotificationError::NotFound)));
}

#[test]
fn templates_render_exact_texts() {
    let t = render_notification_template(&contribution_event(1));
    assert_eq!(t.title, "Contribution received");
    assert_eq!(t.body, "A contribution of 5000 USD was received.");
    assert_eq!(text_of(&t.metadata, "contribution_id").as_deref(), Some("00000000-0000-0000-0000-000000000011"));
    assert_eq!(text_of(&t.metadata, "amount_minor").as_deref(), Some("5000"));

    let t = render_notification_template(&ApplicationEvent::MilestoneDueSoon {
        recipient_user_id: 1,
        milestone_id: 2,
        vault_id: 3,
        due_date: "2026-01-15".to_owned(),
        title: "Term 1".to_owned(),
    });
    assert_eq!(t.body, "Milestone \"Term 1\" is due on 2026-01-15.");
    assert_eq!(text_of(&t.metadata, "milestone_title").as_deref(), Some("Term 1"));

    let t = render_notification_template(&ApplicationEvent::MilestoneUnderfunded {
        recipient_user_id: 1,
        milestone_id: 2,
        vault_id: 3,
        shortfall_minor: -250,
        currency: "USDC".to_owned(),
        title: "Fees".to_owned(),
    });
    assert_eq!(t.body, "Milestone \"Fees\" is short by -250 USDC.");

    let payout = PayoutRequest {
        id: 4,
        vault_id: 5,
        milestone_id: 6,
        school_id: 7,
        requested_by: 8,
        amount: Money::new(30_000, Currency::Usdc).unwrap(),
        idempotency_key: None,
        status: PayoutStatus::Approved,
        review_notes: None,
        external_payout_reference: None,
        reviewed_by: None,
        reviewed_at: None,
        created_at: 0,
        updated_at: 0,
    };
    let event = payout_approved_event(&payout);
    assert_eq!(event_recipient(&event), 8);
    let t = render_notification_template(&event);
    assert_eq!(t.title, "Payout approved");
    assert_eq!(t.body, "Payout of 30000 USDC has been approved.");
    let t = render_notification_template(&ApplicationEvent::PayoutCompleted {
        recipient_user_id: 1,
        payout_id: 2,
        vault_id: 3,
        amount_minor: 7,
        currency: "NGN".to_owned(),
    });
    assert_eq!(t.body, "Payout of 7 NGN has completed.");
    let t = render_notification_template(&ApplicationEvent::ScholarshipAwarded {
        recipient_user_id: 1,
        award_id: 2,
        application_id: 3,
        amount_minor: 10_000,
        currency: "USD".to_owned(),
    });
    assert_eq!(t.body, "A scholarship award of 10000 USD has been approved.");
}

#[test]
fn preferences_default_and_update() {
    let d = default_preference(4, NotificationType::PayoutCompleted);
    assert!(d.in_app_enabled && !d.email_enabled);
    let existing = NotificationPreference {
        id: 30,
        user_id: 4,
        notification_type: NotificationType::PayoutCompleted,
        in_app_enabled: true,
        email_enabled: false,
        created_at: 12,
        updated_at: 12,
    };
    let p = decide_preference(&actor(UserRole::Parent, 4), NotificationType::PayoutCompleted, false, true, Some(&existing));
    assert_eq!(p.id, 30);
    assert_eq!(p.created_at, 12);
    assert!(!p.in_app_enabled && p.email_enabled);
    let both = plan_delivery(
        &contribution_event(4),
        Some(NotificationPreference {
            id: 1,
            user_id: 4,
            notification_type: NotificationType::ContributionReceived,
            in_app_enabled: true,
            email_enabled: true,
            created_at: 0,
            updated_at: 0,
        }),
    );
    assert!(both.notification.is_some() && both.email.is_some());
}

fn child(owner: u128) -> ChildProfile {
    ChildProfile {
        id: 64,
        owner_user_id: owner,
        full_name: "Student".to_owned(),
        date_of_birth: None,
        education_level: None,
        created_at: 0,
        updated_at: 0,
    }
}

fn school(status: SchoolVerificationStatus) -> School {
    School {
        id: 2026,
        legal_name: "S".to_owned(),
        display_name: "S".to_owned(),
        country: "NG".to_owned(),
        payout_method: SchoolPayoutMethod::Manual,
        payout_reference: "r".to_owned(),
        verification_status: status,
        verified_by: None,
        verified_at: None,
        created_at: 0,
        updated_at: 0,
    }
}

fn issue_input() -> IssueCredentialInput {
    IssueCredentialInput {
        child_profile_id: 64,
        recipient_user_id: Some(65),
        school_id: Some(2026),
        achievement_type: AchievementCredentialType::AcademicExcellence,
        title: " Top 1% ".to_owned(),
        description: Some("Excellent term results".to_owned()),
        achievement_date: 739_500,
        issuance_notes: None,
        evidence_uri: Some("https://example.com/report.pdf".to_owned()),
        attestation_anchor: None,
        attestation_anchor_network: None,
        metadata: JsonValue::Object(vec![JsonEntry {
            key: "gpa_band".to_owned(),
            value: JsonValue::Text("A".to_owned()),
        }]),
    }
}

fn credential(id: u128, date: i32, created: i64) -> AchievementCredential {
    AchievementCredential {
        id,
        credential_ref: id + 1000,
        child_profile_id: 64,
        recipient_user_id: None,
        school_id: None,
        achievement_type: AchievementCredentialType::FeeFullyFunded,
        status: AchievementCredentialStatus::Issued,
        title: "Fee fully funded".to_owned(),
        description: None,
        achievement_date: date,
        issued_by_user_id: 1,
        issued_by_role: "platform_admin".to_owned(),
        issuance_notes: None,
        evidence_uri: None,
        attestation_hash: String::new(),
        attestation_method: "sha256".to_owned(),
        attestation_anchor: None,
        attestation_anchor_network: None,
        metadata: JsonValue::Null,
        created_at: created,
        updated_at: created,
    }
}

#[test]
fn school_admin_can_issue_credential_for_verified_school() {
    let issuer = actor(UserRole::SchoolAdmin, 500);
    let input = issue_input();
    let document = attestation_document(0xabc, &input, issuer.user_id);
    assert_eq!(text_of(&document, "title").as_deref(), Some("Top 1%"));
    assert_eq!(text_of(&document, "issuance_notes").as_deref(), Some("null"));
    let canonical = "{\"canonical\":true}";
    let verified = school(SchoolVerificationStatus::Verified);
    let (credential, audit) =
        decide_issue_credential(&issuer, input, Some(&child(1)), Some(&verified), 0xabc, canonical).unwrap();

    assert_eq!(credential.status, AchievementCredentialStatus::Issued);
    assert_eq!(credential.title, "Top 1%");
    assert_eq!(credential.issued_by_role, "school_admin");
    assert_eq!(credential.attestation_method, "sha256");
    assert_eq!(credential.attestation_hash, attestation_hash(canonical));
    assert_eq!(credential.attestation_hash.len(), 64);
    assert_eq!(audit.action, "achievement_credential.issued");
    assert_eq!(text_of(&audit.metadata, "evidence_uri_present"), None);

    let pending = school(SchoolVerificationStatus::Pending);
    assert!(matches!(
        decide_issue_credential(&issuer, issue_input(), Some(&child(1)), Some(&pending), 1, canonical),
        Err(CredentialError::Conflict(m)) if m == "school must be verified before issuing credentials"
    ));
}

#[test]
fn parent_can_list_credentials_for_owned_child_profiles() {
    let parent = actor(UserRole::Parent, 1);
    let source = credential_listing_source(&parent, &CredentialListFilter::default()).unwrap();
    assert_eq!(source, CredentialSource::OwnedChildren);
    let source = credential_listing_source(&parent, &CredentialListFilter { child_profile_id: Some(64), issued_by_me: false }).unwrap();
    assert_eq!(source, CredentialSource::ChildProfile { child_profile_id: 64, owner_check: true });
    assert!(check_child_owner(&parent, Some(&child(1))).is_ok());
    assert!(matches!(check_child_owner(&parent, Some(&child(2))), Err(CredentialError::Forbidden)));

    let listed = order_credentials(vec![credential(1, 10, 5), credential(2, 12, 1), credential(2, 12, 1), credential(3, 10, 9)]);
    let ids: Vec<u128> = listed.iter().map(|c| c.id).collect();
    assert_eq!(ids, vec![2, 3, 1]);
    assert_eq!(listed[0].title, "Fee fully funded");
}

#[test]
fn listing_order_is_stable_for_equal_ranks() {
    let listed = order_credentials(vec![credential(7, 5, 5), credential(8, 5, 5), credential(9, 6, 0)]);
    let ids: Vec<u128> = listed.iter().map(|c| c.id).collect();
    assert_eq!(ids, vec![9, 7, 8]);
    assert!(order_credentials(Vec::new()).is_empty());
}

#[test]
fn listing_sources_by_role() {
    let f = |child: Option<u128>, mine: bool| CredentialListFilter { child_profile_id: child, issued_by_me: mine };
    assert_eq!(credential_listing_source(&actor(UserRole::Student, 4), &f(None, false)).unwrap(), CredentialSource::Recipient(4));
    assert!(matches!(credential_listing_source(&actor(UserRole::Student, 4), &f(None, true)), Err(CredentialError::Forbidden)));
    assert_eq!(credential_listing_source(&actor(UserRole::SchoolAdmin, 4), &f(None, true)).unwrap(), CredentialSource::Issuer(4));
    assert!(matches!(credential_listing_source(&actor(UserRole::SchoolAdmin, 4), &f(Some(1), false)), Err(CredentialError::Forbidden)));
    assert_eq!(credential_listing_source(&actor(UserRole::PlatformAdmin, 4), &f(None, false)).unwrap(), CredentialSource::Recent(200));
    assert_eq!(credential_listing_source(&actor(UserRole::PlatformAdmin, 4), &f(Some(9), false)).unwrap(), CredentialSource::ChildProfile { child_profile_id: 9, owner_check: false });
    assert!(matches!(credential_listing_source(&actor(UserRole::Donor, 4), &f(None, false)), Err(CredentialError::Forbidden)));
}

#[test]
fn credential_access_by_role() {
    let mut c = credential(1, 1, 1);
    c.recipient_user_id = Some(65);
    assert!(credential_access(&actor(UserRole::PlatformAdmin, 9), Some(credential(1, 1, 1)), None).is_ok());
    assert!(credential_access(&actor(UserRole::Student, 65), Some(c), None).is_ok());
    assert!(matches!(credential_access(&actor(UserRole::Student, 66), Some(credential(1, 1, 1)), None), Err(CredentialError::Forbidden)));
    assert!(credential_access(&actor(UserRole::SchoolAdmin, 1), Some(credential(1, 1, 1)), None).is_ok());
    assert!(credential_access(&actor(UserRole::Parent, 1), Some(credential(1, 1, 1)), Some(&child(1))).is_ok());
    assert!(matches!(credential_access(&actor(UserRole::Parent, 1), Some(credential(1, 1, 1)), None), Err(CredentialError::NotFound)));
    assert!(matches!(credential_access(&actor(UserRole::Parent, 2), Some(credential(1, 1, 1)), Some(&child(1))), Err(CredentialError::Forbidden)));
    assert!(matches!(credential_access(&actor(UserRole::Parent, 1), None, None), Err(CredentialError::NotFound)));
}

#[test]
fn issuing_checks_issuer_and_fields() {
    let admin = actor(UserRole::PlatformAdmin, 1);
    assert!(validate_issuer(&admin, None, None).is_ok());
    assert!(matches!(validate_issuer(&actor(UserRole::SchoolAdmin, 1), None, None), Err(CredentialError::Validation(m)) if m == "school_id is required when issuing as school_admin"));
    assert!(matches!(validate_issuer(&actor(UserRole::SchoolAdmin, 1), Some(3), None), Err(CredentialError::NotFound)));
    assert!(matches!(validate_issuer(&actor(UserRole::Parent, 1), None, None), Err(CredentialError::Forbidden)));
    let mut guardian = issue_input();
    guardian.recipient_user_id = Some(1);
    assert!(matches!(validate_input(&guardian, &child(1)), Err(CredentialError::Validation(m)) if m == "recipient_user_id must identify the student, not the guardian"));
    let mut anchored = issue_input();
    anchored.attestation_anchor = Some("x".to_owned());
    assert!(matches!(validate_input(&anchored, &child(1)), Err(CredentialError::Validation(m)) if m == "attestation_anchor_network is required when attestation_anchor is set"));
    let mut untitled = issue_input();
    untitled.title = " ".to_owned();
    assert!(matches!(validate_input(&untitled, &child(1)), Err(CredentialError::Validation(m)) if m == "title is required"));
    assert!(matches!(
        decide_issue_credential(&admin, issue_input(), None, None, 1, "{}"),
        Err(CredentialError::NotFound)
    ));
}

#[test]
fn attestation_hash_is_lower_hex_sha256() {
    assert_eq!(attestation_hash("abc"), "ba7816bf8f01cfea414140de5dae2223b00361a396177a9cb410ff61f20015ad");
    assert_eq!(lower_hex(&vec![0u8, 15, 16, 255]), "000f10ff");
}

#[test]
fn listings_are_ordered_newest_first_without_repeats() {
    let listed = order_credentials(vec![
        credential(1, 10, 5),
        credential(4, 12, 1),
        credential(4, 12, 1),
        credential(2, 12, 3),
        credential(3, 10, 9),
    ]);
    let ids: Vec<u128> = listed.iter().map(|c| c.id).collect();
    assert_eq!(ids, vec![2, 4, 3, 1]);
    for pair in listed.windows(2) {
        assert!((pair[0].achievement_date, pair[0].created_at) >= (pair[1].achievement_date, pair[1].created_at));
        assert_ne!(pair[0].id, pair[1].id);
    }
    let h = attestation_hash("any canonical text");
    assert_eq!(h.len(), 64);
    assert!(h.chars().all(|c| c.is_ascii_digit() || ('a'..='f').contains(&c)));
}
