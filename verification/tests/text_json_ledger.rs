use edustell::json::{copy_json, is_sensitive_key, sanitize_json_value, JsonEntry, JsonValue};
use edustell::ledger::{apply_payout_totals, settle_contribution_totals, VaultBalances};
use edustell::audit::date_value;
use edustell::json::uuid_value;
use edustell::repos::{empty_metadata, storage_failure, PersistenceError};
use edustell::shared::{Currency, ErrorCode, Money, Pagination};
use edustell::status::{ContributionStatus, PayoutStatus, PlanStatus, StatusText};
use edustell::contributions::{ContributionTransition, VaultLedgerEntryType};
use edustell::payouts::PayoutTransition;
use edustell::text::{ascii_lowercase, int_to_text, is_blank, sanitize_optional, trim_text, utf8_length};
use edustell::auth::UserRole;

fn obj(entries: Vec<(&str, JsonValue)>) -> JsonValue {
    JsonValue::Object(entries.into_iter().map(|(k, v)| JsonEntry { key: k.to_owned(), value: v }).collect())
}

fn text(s: &str) -> JsonValue {
    JsonValue::Text(s.to_owned())
}

#[test]
fn text_helpers() {
    assert_eq!(trim_text(" \t hi there \n"), "hi there");
    assert!(is_blank(" \n\t "));
    assert!(!is_blank(" a "));
    assert_eq!(ascii_lowercase("MiXeD É"), "mixed É");
    assert_eq!(int_to_text(-9_223_372_036_854_775_808), "-9223372036854775808");
    assert_eq!(int_to_text(0), "0");
    assert_eq!(utf8_length("aé€😀"), 1 + 2 + 3 + 4);
    assert_eq!(sanitize_optional(Some("  x  ".to_owned())).as_deref(), Some("x"));
    assert_eq!(sanitize_optional(Some("   ".to_owned())), None);
    assert_eq!(sanitize_optional(None), None);
    let once = sanitize_optional(Some("  y ".to_owned()));
    assert_eq!(sanitize_optional(once.clone()), once);
}

#[test]
fn sensitive_keys_are_redacted_at_any_depth() {
    assert!(is_sensitive_key("Password"));
    assert!(is_sensitive_key("x_api_TOKEN"));
    assert!(is_sensitive_key("provider_reference"));
    assert!(is_sensitive_key("external_reference"));
    assert!(!is_sensitive_key("external_reference_present"));
    assert!(!is_sensitive_key("decision_notes_present"));
    let value = obj(vec![
        ("user", text("a")),
        ("secret_key", text("s")),
        ("nested", JsonValue::Array(vec![obj(vec![("review_notes", text("r")), ("ok", JsonValue::Bool(true))])])),
    ]);
    let clean = sanitize_json_value(&value);
    let expected = obj(vec![
        ("user", text("a")),
        ("secret_key", text("[REDACTED]")),
        ("nested", JsonValue::Array(vec![obj(vec![("review_notes", text("[REDACTED]")), ("ok", JsonValue::Bool(true))])])),
    ]);
    assert_eq!(format!("{:?}", clean), format!("{:?}", expected));
    let twice = sanitize_json_value(&clean);
    assert_eq!(format!("{:?}", twice), format!("{:?}", clean));
    assert_eq!(format!("{:?}", copy_json(&value)), format!("{:?}", value));
    assert!(matches!(empty_metadata(), JsonValue::Object(e) if e.is_empty()));
}

#[test]
fn platform_formatting() {
    assert!(matches!(uuid_value(0x0123_4567_89ab_cdef_0123_4567_89ab_cdef), JsonValue::Text(t) if t == "01234567-89ab-cdef-0123-456789abcdef"));
    assert!(matches!(uuid_value(255), JsonValue::Text(t) if t == "00000000-0000-0000-0000-0000000000ff"));
    assert!(matches!(date_value(739_143), JsonValue::Text(t) if t == "2024-09-14"));
    assert!(matches!(date_value(1), JsonValue::Text(t) if t == "0001-01-01"));
    assert!(matches!(date_value(i32::MAX), JsonValue::Null));
    assert!(matches!(date_value(95_745_399), JsonValue::Text(t) if t.ends_with("262142-12-31")));
    assert!(matches!(date_value(95_745_400), JsonValue::Null));
    assert!(matches!(date_value(-95_746_129), JsonValue::Text(t) if t == "-262143-01-01"));
    assert!(matches!(date_value(-95_746_130), JsonValue::Null));
}

#[test]
fn shared_values() {
    assert_eq!(Currency::from_str("USDC").unwrap(), Currency::Usdc);
    assert_eq!(Currency::from_str("NGN").unwrap().as_str(), "NGN");
    assert!(Currency::from_str("NAIRA").is_err());
    assert_eq!(Money::new(-1, Currency::Usdc).unwrap_err(), "amount must be non-negative");
    assert_eq!(ErrorCode::EmailAlreadyExists.as_str(), "EMAIL_ALREADY_EXISTS");
    let page = Pagination::default();
    assert_eq!((page.page, page.per_page), (1, 20));
    assert_eq!(PersistenceError::Conflict("dup".to_owned()).message(), "conflict: dup");
}

#[test]
fn status_texts_round_trip() {
    for s in [PlanStatus::Draft, PlanStatus::Active, PlanStatus::Paused, PlanStatus::Completed, PlanStatus::Cancelled] {
        assert_eq!(PlanStatus::from_str(s.as_str()).unwrap(), s);
        assert_eq!(PlanStatus::parse_text(s.as_str()).unwrap(), s);
    }
    for r in [UserRole::Parent, UserRole::Contributor, UserRole::Student, UserRole::SchoolAdmin, UserRole::Donor, UserRole::PlatformAdmin] {
        assert_eq!(UserRole::from_str(r.as_str()).unwrap(), r);
    }
    assert_eq!(VaultLedgerEntryType::from_str("contribution_reversed").unwrap(), VaultLedgerEntryType::ContributionReversed);
    assert_eq!(ContributionTransition::Reverse.target_status(), ContributionStatus::Reversed);
    assert_eq!(PayoutTransition::MarkProcessing.target_status(), PayoutStatus::Processing);
}

#[test]
fn confirming_then_reversing_restores_the_vault() {
    let v = VaultBalances { total_contributed_minor: 1_000, total_locked_minor: 0, total_disbursed_minor: 0, version: 3 };
    let (confirmed, e1) = settle_contribution_totals(v, ContributionStatus::Pending, ContributionStatus::Confirmed, 500).unwrap();
    let (reversed, e2) = settle_contribution_totals(confirmed, ContributionStatus::Confirmed, ContributionStatus::Reversed, 500).unwrap();
    assert_eq!(reversed.total_contributed_minor, 1_000);
    assert_eq!(reversed.version, 5);
    assert_eq!((e1, e2), (Some(VaultLedgerEntryType::ContributionConfirmed), Some(VaultLedgerEntryType::ContributionReversed)));
}

#[test]
fn approving_then_failing_a_payout_releases_the_lock() {
    let v = VaultBalances { total_contributed_minor: 1_000, total_locked_minor: 0, total_disbursed_minor: 0, version: 0 };
    let approved = apply_payout_totals(v, PayoutStatus::UnderReview, PayoutStatus::Approved, 400).unwrap();
    assert_eq!(approved.total_locked_minor, 400);
    let processing = apply_payout_totals(approved, PayoutStatus::Approved, PayoutStatus::Processing, 400).unwrap();
    let failed = apply_payout_totals(processing, PayoutStatus::Processing, PayoutStatus::Failed, 400).unwrap();
    assert_eq!(failed.total_locked_minor, 0);
    assert_eq!(failed.total_contributed_minor - failed.total_locked_minor - failed.total_disbursed_minor, 1_000);
}

#[test]
fn unique_violations_are_conflicts_and_other_failures_repository_errors() {
    assert!(matches!(
        storage_failure(Some("23505"), "duplicate key value", "error returned from database"),
        PersistenceError::Conflict(m) if m == "duplicate key value"
    ));
    assert!(matches!(
        storage_failure(Some("23503"), "foreign key", "error returned from database: foreign key"),
        PersistenceError::Repository(m) if m == "error returned from database: foreign key"
    ));
    assert!(matches!(
        storage_failure(None, "", "pool timed out"),
        PersistenceError::Repository(m) if m == "pool timed out"
    ));
}
