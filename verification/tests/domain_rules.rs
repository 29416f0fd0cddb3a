use edustell::auth::UserRole;
use edustell::contributions::{
    can_settle_contribution, can_view_or_fund_vault, validate_transition as validate_contribution_transition,
    ContributionRuleViolation, ContributionTransition,
};
use edustell::payouts::{
    ensure_available_funds, validate_requester_role, validate_school_verified,
    validate_transition as validate_payout_transition, PayoutRuleViolation, PayoutTransition,
};
use edustell::records::ScholarshipPool;
use edustell::scholarships::{
    can_review, validate_award_transition, validate_pool_restrictions, AwardTransition,
    ScholarshipRuleViolation,
};
use edustell::shared::{Currency, Money};
use edustell::status::{
    ContributionStatus, PayoutStatus, ScholarshipAwardStatus, ScholarshipPoolStatus,
    SchoolVerificationStatus,
};
use uuid::Uuid;

#[test]
fn parent_owner_can_fund_vault() {
    let result = can_view_or_fund_vault(UserRole::Parent, Uuid::nil().as_u128(), Uuid::nil().as_u128(), false);

    assert!(result.is_ok());
}

#[test]
fn only_platform_admin_can_settle() {
    assert!(can_settle_contribution(UserRole::Contributor).is_err());
    assert!(can_settle_contribution(UserRole::PlatformAdmin).is_ok());
}

#[test]
fn explicit_contributor_can_fund_vault() {
    let result = can_view_or_fund_vault(
        UserRole::Contributor,
        Uuid::new_v4().as_u128(),
        Uuid::new_v4().as_u128(),
        true,
    );

    assert!(result.is_ok());
}

#[test]
fn confirmed_contribution_cannot_fail() {
    let result = validate_contribution_transition(ContributionStatus::Confirmed, ContributionTransition::Fail);

    assert!(matches!(result, Err(ContributionRuleViolation::InvalidStatusTransition { .. })));
}

#[test]
fn payout_must_not_exceed_available_balance() {
    let result = ensure_available_funds(10_000, 2_000, 3_000, 6_000);
    assert!(matches!(result, Err(PayoutRuleViolation::InsufficientAvailableFunds)));
}

#[test]
fn payout_requires_review_state_before_approval() {
    let result = validate_payout_transition(PayoutStatus::Pending, PayoutTransition::Approve);
    assert!(matches!(result, Err(PayoutRuleViolation::InvalidStatusTransition { .. })));
}

#[test]
fn payout_requires_verified_school() {
    let result = validate_school_verified(SchoolVerificationStatus::Pending);
    assert!(matches!(result, Err(PayoutRuleViolation::SchoolNotVerified)));
}

#[test]
fn only_parent_can_request_payout() {
    assert!(validate_requester_role(UserRole::Contributor).is_err());
    assert!(validate_requester_role(UserRole::Parent).is_ok());
}

#[test]
fn only_platform_admin_can_review() {
    assert!(can_review(UserRole::Parent).is_err());
    assert!(can_review(UserRole::PlatformAdmin).is_ok());
}

#[test]
fn disbursement_requires_linked_target() {
    let result = validate_award_transition(
        ScholarshipAwardStatus::Approved,
        AwardTransition::Disburse,
        None,
        None,
    );
    assert!(matches!(result, Err(ScholarshipRuleViolation::MissingDisbursementTarget)));
}

#[test]
fn scholarship_pool_restrictions_reject_wrong_category() {
    let pool = ScholarshipPool {
        id: Uuid::new_v4().as_u128(),
        owner_user_id: Uuid::new_v4().as_u128(),
        name: "STEM".to_owned(),
        description: None,
        status: ScholarshipPoolStatus::Open,
        available_funds: Money::new(10_000, Currency::Fiat("USD".to_owned())).unwrap(),
        geography_restriction: None,
        education_level_restriction: None,
        school_id_restriction: None,
        category_restriction: Some("stem".to_owned()),
        created_at: 0,
        updated_at: 0,
    };

    let result = validate_pool_restrictions(&pool, None, None, None, Some("arts"));
    assert!(matches!(result, Err(ScholarshipRuleViolation::CategoryRestricted)));
}
