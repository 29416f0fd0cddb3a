use edustell::auth::{AuthenticatedUser, UserRole};
use edustell::contributions::{
    check_vault_access, decide_contribution_intent, decide_settlement, ContributionError, ContributionTransition,
    IntentDecision, RecordContributionIntentInput, SettlementDecision, SettlementInput,
};
use edustell::ledger::{
    apply_payout_totals, ledger_entry_for, reviewed_payout, settle_contribution_totals, settled_contribution, VaultBalances,
};
use edustell::payouts::{
    check_payout_access, decide_payout_request, decide_review, payout_request_reaches_funds_check,
    review_reaches_funds_check, CreatePayoutRequestInput, PayoutError,
    PayoutRequestDecision, PayoutTransition, ReviewDecision, ReviewPayoutInput,
};
use edustell::records::{Contribution, Milestone, PayoutRequest, SavingsVault, School, VaultContributor};
use edustell::json::JsonValue;
use edustell::repos::PersistenceError;
use edustell::shared::{Currency, Money};
use edustell::status::{
    ContributionSourceType, ContributionStatus, MilestoneStatus, PayoutStatus, PayoutType, SchoolPayoutMethod,
    SchoolVerificationStatus, VaultStatus,
};
use edustell::contributions::VaultLedgerEntryType;

fn parent() -> AuthenticatedUser {
    AuthenticatedUser { user_id: 100, role: UserRole::Parent, session_id: 1 }
}

fn platform_admin() -> AuthenticatedUser {
    AuthenticatedUser { user_id: 200, role: UserRole::PlatformAdmin, session_id: 2 }
}

fn contributor_user() -> AuthenticatedUser {
    AuthenticatedUser { user_id: 300, role: UserRole::Contributor, session_id: 3 }
}

fn vault_id() -> u128 {
    1000
}

fn vault() -> SavingsVault {
    SavingsVault {
        id: vault_id(),
        plan_id: 1001,
        owner_user_id: parent().user_id,
        currency: "USDC".to_owned(),
        status: VaultStatus::Active,
        total_contributed_minor: 100_000,
        total_locked_minor: 0,
        total_disbursed_minor: 0,
        external_wallet_account_id: None,
        external_contract_ref: None,
        version: 0,
        created_at: 0,
        updated_at: 0,
    }
}

fn milestone() -> Milestone {
    Milestone {
        id: 2000,
        vault_id: vault_id(),
        title: "Tuition".to_owned(),
        description: None,
        due_date: 739_500,
        target_amount: Money::new(50_000, Currency::Usdc).unwrap(),
        funded_amount: Money::new(50_000, Currency::Usdc).unwrap(),
        payout_type: PayoutType::Tuition,
        status: MilestoneStatus::Funded,
        created_at: 0,
        updated_at: 0,
    }
}

fn school(status: SchoolVerificationStatus) -> School {
    School {
        id: 3000,
        legal_name: "Legal School Ltd".to_owned(),
        display_name: "Bright Future Academy".to_owned(),
        country: "NG".to_owned(),
        payout_method: SchoolPayoutMethod::FiatOfframp,
        payout_reference: "bank:001:12345".to_owned(),
        verification_status: status,
        verified_by: None,
        verified_at: None,
        created_at: 0,
        updated_at: 0,
    }
}

fn request(key: &str) -> CreatePayoutRequestInput {
    CreatePayoutRequestInput {
        vault_id: vault_id(),
        milestone_id: 2000,
        school_id: 3000,
        amount_minor: 30_000,
        currency: Currency::Usdc,
        idempotency_key: key.to_owned(),
    }
}

fn pending_payout() -> PayoutRequest {
    let decision = decide_payout_request(
        &parent(),
        request("seed"),
        None,
        Some(&vault()),
        Some(&milestone()),
        Some(&school(SchoolVerificationStatus::Verified)),
    )
    .unwrap();
    match decision {
        PayoutRequestDecision::Create(p, _) => p,
        PayoutRequestDecision::Existing(_) => panic!("a new request is created"),
    }
}

fn review(notes: Option<&str>, reference: Option<&str>) -> ReviewPayoutInput {
    ReviewPayoutInput {
        payout_id: 1,
        review_notes: notes.map(|n| n.to_owned()),
        external_payout_reference: reference.map(|r| r.to_owned()),
    }
}

fn balances(v: &SavingsVault) -> VaultBalances {
    VaultBalances {
        total_contributed_minor: v.total_contributed_minor,
        total_locked_minor: v.total_locked_minor,
        total_disbursed_minor: v.total_disbursed_minor,
        version: v.version,
    }
}

#[test]
fn cannot_request_payout_for_unverified_school() {
    let error = decide_payout_request(
        &parent(),
        request("payout-unverified-school"),
        None,
        Some(&vault()),
        Some(&milestone()),
        Some(&school(SchoolVerificationStatus::Pending)),
    )
    .unwrap_err();

    assert!(matches!(error, PayoutError::Conflict(_)));
}

#[test]
fn cannot_approve_payout_for_unverified_school() {
    let mut payout = pending_payout();
    payout.status = PayoutStatus::UnderReview;
    let rejected_school = school(SchoolVerificationStatus::Rejected);
    let error = decide_review(
        &platform_admin(),
        &review(Some("nope"), None),
        PayoutTransition::Approve,
        Some(payout),
        Some(&rejected_school),
        Some(&milestone()),
        Some(&vault()),
    )
    .unwrap_err();

    assert!(matches!(error, PayoutError::Conflict(_)));
}

#[test]
fn approval_requires_review_state() {
    let payout = pending_payout();
    let verified = school(SchoolVerificationStatus::Verified);
    let error = decide_review(
        &platform_admin(),
        &review(None, None),
        PayoutTransition::Approve,
        Some(payout),
        Some(&verified),
        Some(&milestone()),
        Some(&vault()),
    )
    .unwrap_err();

    assert!(matches!(error, PayoutError::Conflict(_)));
}

#[test]
fn cannot_request_payout_when_milestone_belongs_to_another_vault() {
    let mut other = milestone();
    other.vault_id = 4242;
    let error = decide_payout_request(
        &parent(),
        request("payout-other-vault"),
        None,
        Some(&vault()),
        Some(&other),
        Some(&school(SchoolVerificationStatus::Verified)),
    )
    .unwrap_err();

    assert!(matches!(error, PayoutError::Validation(_)));
}

#[test]
fn approve_locks_funds_after_review() {
    let mut payout = pending_payout();
    let mut stored_vault = vault();
    let verified = school(SchoolVerificationStatus::Verified);
    let mut audits = 1;

    let step = decide_review(
        &platform_admin(),
        &review(Some("reviewing"), None),
        PayoutTransition::MoveToReview,
        Some(payout.clone_for_test()),
        Some(&verified),
        Some(&milestone()),
        Some(&stored_vault),
    )
    .unwrap();
    match step {
        ReviewDecision::Transition { target, audit } => {
            assert_eq!(target, PayoutStatus::UnderReview);
            assert_eq!(audit.action, "payout.review_started");
            let moved = apply_payout_totals(balances(&stored_vault), payout.status, target, payout.amount.amount_minor).unwrap();
            stored_vault.total_locked_minor = moved.total_locked_minor;
            payout.status = target;
            audits += 1;
        },
        ReviewDecision::Unchanged(_) => panic!("the payout moves"),
    }
    assert_eq!(payout.status, PayoutStatus::UnderReview);

    let step = decide_review(
        &platform_admin(),
        &review(Some("approved"), Some("offramp:123")),
        PayoutTransition::Approve,
        Some(payout.clone_for_test()),
        Some(&verified),
        Some(&milestone()),
        Some(&stored_vault),
    )
    .unwrap();
    match step {
        ReviewDecision::Transition { target, audit } => {
            assert_eq!(audit.action, "payout.approved");
            let moved = apply_payout_totals(balances(&stored_vault), payout.status, target, payout.amount.amount_minor).unwrap();
            stored_vault.total_locked_minor = moved.total_locked_minor;
            payout.status = target;
            audits += 1;
        },
        ReviewDecision::Unchanged(_) => panic!("the payout moves"),
    }

    assert_eq!(payout.status, PayoutStatus::Approved);
    assert_eq!(stored_vault.total_locked_minor, 30_000);
    assert_eq!(audits, 3);
}

trait CloneForTest {
    fn clone_for_test(&self) -> Self;
}

impl CloneForTest for PayoutRequest {
    fn clone_for_test(&self) -> Self {
        PayoutRequest {
            id: self.id,
            vault_id: self.vault_id,
            milestone_id: self.milestone_id,
            school_id: self.school_id,
            requested_by: self.requested_by,
            amount: self.amount.duplicate(),
            idempotency_key: self.idempotency_key.clone(),
            status: self.status,
            review_notes: self.review_notes.clone(),
            external_payout_reference: self.external_payout_reference.clone(),
            reviewed_by: self.reviewed_by,
            reviewed_at: self.reviewed_at,
            created_at: self.created_at,
            updated_at: self.updated_at,
        }
    }
}

#[test]
fn repeated_payout_request_returns_the_stored_one_or_conflicts() {
    let stored = pending_payout();
    let same = decide_payout_request(&parent(), request("seed"), Some(stored.clone_for_test()), None, None, None).unwrap();
    assert!(matches!(same, PayoutRequestDecision::Existing(p) if p.id == stored.id));
    let mut changed = request("seed");
    changed.amount_minor = 31_000;
    let conflict = decide_payout_request(&parent(), changed, Some(stored), None, None, None).unwrap_err();
    assert!(matches!(conflict, PayoutError::Conflict(m) if m == "idempotency key already used for a different payout request"));
}

#[test]
fn payout_request_refusals() {
    let verified = school(SchoolVerificationStatus::Verified);
    assert!(matches!(
        decide_payout_request(&contributor_user(), request("k"), None, Some(&vault()), Some(&milestone()), Some(&verified)),
        Err(PayoutError::Forbidden)
    ));
    let mut zero = request("k");
    zero.amount_minor = 0;
    assert!(matches!(
        decide_payout_request(&parent(), zero, None, Some(&vault()), Some(&milestone()), Some(&verified)),
        Err(PayoutError::Validation(m)) if m == "payout amount must be positive"
    ));
    let mut big = request("k");
    big.amount_minor = 100_001;
    assert!(matches!(
        decide_payout_request(&parent(), big, None, Some(&vault()), Some(&milestone()), Some(&verified)),
        Err(PayoutError::Conflict(m)) if m == "vault has insufficient available funds"
    ));
    let mut other_owner = vault();
    other_owner.owner_user_id = 1;
    assert!(matches!(
        decide_payout_request(&parent(), request("k"), None, Some(&other_owner), Some(&milestone()), Some(&verified)),
        Err(PayoutError::Forbidden)
    ));
    assert!(matches!(
        decide_payout_request(&parent(), request("k"), None, None, Some(&milestone()), Some(&verified)),
        Err(PayoutError::NotFound)
    ));
    let mut fiat = request("k");
    fiat.currency = Currency::Fiat("USD".to_owned());
    assert!(matches!(
        decide_payout_request(&parent(), fiat, None, Some(&vault()), Some(&milestone()), Some(&verified)),
        Err(PayoutError::Validation(_))
    ));
    let p = pending_payout();
    assert!(matches!(check_payout_access(&contributor_user(), Some(p.clone_for_test())), Err(PayoutError::Forbidden)));
    assert!(check_payout_access(&parent(), Some(p)).is_ok());
}

#[test]
fn completing_a_payout_moves_the_lock_into_disbursed() {
    let v = VaultBalances { total_contributed_minor: 100_000, total_locked_minor: 30_000, total_disbursed_minor: 0, version: 4 };
    let done = apply_payout_totals(v, PayoutStatus::Processing, PayoutStatus::Completed, 30_000).unwrap();
    assert_eq!(done.total_locked_minor, 0);
    assert_eq!(done.total_disbursed_minor, 30_000);
    assert_eq!(done.version, 5);
    let failed = apply_payout_totals(v, PayoutStatus::Processing, PayoutStatus::Failed, 30_000).unwrap();
    assert_eq!(failed.total_locked_minor, 0);
    assert_eq!(failed.total_disbursed_minor, 0);
    assert!(matches!(
        apply_payout_totals(v, PayoutStatus::Processing, PayoutStatus::Completed, 40_000),
        Err(PersistenceError::Conflict(m)) if m == "vault locked balance underflow"
    ));
    assert_eq!(apply_payout_totals(v, PayoutStatus::Approved, PayoutStatus::Approved, 30_000).unwrap(), v);
}

fn intent(amount: i64, key: &str, reference: Option<&str>) -> RecordContributionIntentInput {
    RecordContributionIntentInput {
        vault_id: vault_id(),
        amount_minor: amount,
        currency: Currency::Usdc,
        source_type: ContributionSourceType::Usdc,
        external_reference: reference.map(|r| r.to_owned()),
        idempotency_key: key.to_owned(),
    }
}

fn listed() -> Vec<VaultContributor> {
    vec![VaultContributor {
        id: 1,
        vault_id: vault_id(),
        contributor_user_id: contributor_user().user_id,
        role_label: "aunt".to_owned(),
        created_at: 0,
        updated_at: 0,
    }]
}

fn recorded(amount: i64, key: &str) -> Contribution {
    match decide_contribution_intent(&contributor_user(), intent(amount, key, None), Some(&vault()), &listed(), None)
        .unwrap()
    {
        IntentDecision::Create(c, _) => c,
        IntentDecision::Existing(_) => panic!("a new intent is created"),
    }
}

fn copy(c: &Contribution) -> Contribution {
    Contribution {
        id: c.id,
        vault_id: c.vault_id,
        contributor_user_id: c.contributor_user_id,
        amount: c.amount.duplicate(),
        status: c.status,
        source_type: c.source_type,
        external_reference: c.external_reference.clone(),
        idempotency_key: c.idempotency_key.clone(),
        created_at: c.created_at,
        updated_at: c.updated_at,
    }
}

#[test]
fn record_contribution_is_idempotent_for_same_intent() {
    let actor = contributor_user();
    let mut stored: Vec<Contribution> = Vec::new();
    let mut audits = 0;
    let first = match decide_contribution_intent(&actor, intent(25_000, "idem-1", Some("stellar:intent-1")), Some(&vault()), &listed(), None).unwrap() {
        IntentDecision::Create(c, _) => {
            stored.push(copy(&c));
            audits += 1;
            c
        },
        IntentDecision::Existing(c) => c,
    };
    let second = match decide_contribution_intent(
        &actor,
        intent(25_000, "idem-1", Some("stellar:intent-1")),
        Some(&vault()),
        &listed(),
        Some(copy(&stored[0])),
    )
    .unwrap()
    {
        IntentDecision::Create(c, _) => {
            stored.push(copy(&c));
            audits += 1;
            c
        },
        IntentDecision::Existing(c) => c,
    };

    assert_eq!(first.id, second.id);
    assert_eq!(stored.len(), 1);
    assert_eq!(audits, 1);
}

#[test]
fn idempotency_key_conflicts_when_payload_changes() {
    let actor = contributor_user();
    let first = recorded(25_000, "idem-2");
    let error = decide_contribution_intent(&actor, intent(30_000, "idem-2", None), Some(&vault()), &listed(), Some(first))
        .unwrap_err();

    assert!(matches!(error, ContributionError::Conflict(_)));
}

#[test]
fn confirm_is_idempotent_and_updates_ledger_once() {
    let admin = platform_admin();
    let mut contribution = recorded(25_000, "idem-3");
    let mut v = vault();
    v.total_contributed_minor = 0;
    let mut ledger_entries: Vec<VaultLedgerEntryType> = Vec::new();
    let settle = SettlementInput { contribution_id: contribution.id, external_reference: Some("stellar:tx-1".to_owned()) };

    for _ in 0..2 {
        match decide_settlement(&admin, &settle, ContributionTransition::Confirm, Some(copy(&contribution))).unwrap() {
            SettlementDecision::Settle { target, audit } => {
                assert_eq!(audit.action, "contribution.confirmed");
                let (after, entry) =
                    settle_contribution_totals(balances(&v), contribution.status, target, contribution.amount.amount_minor)
                        .unwrap();
                v.total_contributed_minor = after.total_contributed_minor;
                if let Some(e) = entry {
                    ledger_entries.push(e);
                }
                contribution.status = target;
            },
            SettlementDecision::Unchanged(c) => assert_eq!(c.status, ContributionStatus::Confirmed),
        }
    }

    assert_eq!(contribution.status, ContributionStatus::Confirmed);
    assert_eq!(ledger_entries.len(), 1);
    assert_eq!(v.total_contributed_minor, 25_000);
}

#[test]
fn reverse_requires_confirmed_contribution() {
    let admin = platform_admin();
    let pending = recorded(25_000, "idem-4");
    let settle = SettlementInput { contribution_id: pending.id, external_reference: None };
    let error = decide_settlement(&admin, &settle, ContributionTransition::Reverse, Some(pending)).unwrap_err();

    assert!(matches!(error, ContributionError::Conflict(_)));
}

#[test]
fn list_vault_contributions_requires_access() {
    let stranger = AuthenticatedUser { user_id: 999, role: UserRole::Contributor, session_id: 9 };
    let error = check_vault_access(&stranger, Some(&vault()), &listed()).unwrap_err();

    assert!(matches!(error, ContributionError::Forbidden));
    assert!(check_vault_access(&contributor_user(), Some(&vault()), &listed()).is_ok());
    assert!(check_vault_access(&parent(), Some(&vault()), &Vec::new()).is_ok());
    assert!(matches!(check_vault_access(&parent(), None, &Vec::new()), Err(ContributionError::NotFound)));
}

#[test]
fn reversal_takes_the_amount_back_or_refuses() {
    let v = VaultBalances { total_contributed_minor: 10_000, total_locked_minor: 0, total_disbursed_minor: 0, version: 1 };
    let (after, entry) = settle_contribution_totals(v, ContributionStatus::Confirmed, ContributionStatus::Reversed, 4_000).unwrap();
    assert_eq!(after.total_contributed_minor, 6_000);
    assert_eq!(entry, Some(VaultLedgerEntryType::ContributionReversed));
    assert!(matches!(
        settle_contribution_totals(v, ContributionStatus::Confirmed, ContributionStatus::Reversed, 20_000),
        Err(PersistenceError::Conflict(m)) if m == "vault balance would become negative"
    ));
    let (same, none) = settle_contribution_totals(v, ContributionStatus::Pending, ContributionStatus::Failed, 4_000).unwrap();
    assert_eq!(same, v);
    assert_eq!(none, None);
}

#[test]
fn a_confirmation_ledger_entry_records_the_new_total_and_status() {
    let mut contribution = recorded(25_000, "idem-9");
    contribution.status = ContributionStatus::Confirmed;
    contribution.external_reference = Some("stellar:tx-9".to_owned());
    let entry = ledger_entry_for(vault().id, 40_000, &contribution, 7, VaultLedgerEntryType::ContributionConfirmed);
    assert_eq!(entry.vault_id, vault().id);
    assert_eq!(entry.contribution_id, Some(contribution.id));
    assert_eq!(entry.actor_user_id, Some(7));
    assert_eq!(entry.entry_type, VaultLedgerEntryType::ContributionConfirmed);
    assert_eq!(entry.amount.amount_minor, 25_000);
    assert_eq!(entry.balance_after_minor, 40_000);
    assert_eq!(entry.external_reference.as_deref(), Some("stellar:tx-9"));
    match &entry.metadata {
        JsonValue::Object(members) => {
            assert_eq!(members.len(), 1);
            assert_eq!(members[0].key, "contribution_status");
            assert!(matches!(&members[0].value, JsonValue::Text(t) if t == "confirmed"));
        },
        _ => panic!("metadata is not an object"),
    }
}

#[test]
fn a_settlement_keeps_the_earlier_reference_unless_a_new_one_is_given() {
    let mut c = recorded(25_000, "idem-10");
    c.external_reference = Some("bank:1".to_owned());
    let kept = settled_contribution(copy(&c), ContributionStatus::Confirmed, None, 77);
    assert_eq!(kept.status, ContributionStatus::Confirmed);
    assert_eq!(kept.external_reference.as_deref(), Some("bank:1"));
    assert_eq!(kept.updated_at, 77);
    assert_eq!(kept.created_at, c.created_at);
    let replaced = settled_contribution(c, ContributionStatus::Failed, Some("stellar:tx-2"), 78);
    assert_eq!(replaced.status, ContributionStatus::Failed);
    assert_eq!(replaced.external_reference.as_deref(), Some("stellar:tx-2"));
}

#[test]
fn a_review_records_the_reviewer_and_keeps_earlier_notes() {
    let mut p = pending_payout();
    p.review_notes = Some("first look".to_owned());
    let reviewed = reviewed_payout(p, PayoutStatus::UnderReview, None, Some("wire-7"), 5, 90);
    assert_eq!(reviewed.status, PayoutStatus::UnderReview);
    assert_eq!(reviewed.review_notes.as_deref(), Some("first look"));
    assert_eq!(reviewed.external_payout_reference.as_deref(), Some("wire-7"));
    assert_eq!(reviewed.reviewed_by, Some(5));
    assert_eq!(reviewed.reviewed_at, Some(90));
    assert_eq!(reviewed.updated_at, 90);
    let approved = reviewed_payout(reviewed, PayoutStatus::Approved, Some("looks fine"), None, 6, 91);
    assert_eq!(approved.review_notes.as_deref(), Some("looks fine"));
    assert_eq!(approved.external_payout_reference.as_deref(), Some("wire-7"));
    assert_eq!(approved.reviewed_by, Some(6));
}

fn extreme_vault() -> SavingsVault {
    SavingsVault { total_contributed_minor: i64::MAX, total_locked_minor: -1, ..vault() }
}

#[test]
fn refusals_before_the_funds_check_need_no_vault_arithmetic() {
    let donor = AuthenticatedUser { user_id: 100, role: UserRole::Donor, session_id: 4 };
    let v = extreme_vault();
    let verified = school(SchoolVerificationStatus::Verified);
    assert!(!payout_request_reaches_funds_check(&donor, &request("x"), false, Some(&v), Some(&milestone()), Some(&verified)));
    let error = decide_payout_request(&donor, request("x"), None, Some(&v), Some(&milestone()), Some(&verified)).unwrap_err();
    assert!(matches!(error, PayoutError::Forbidden));
    let rejected = school(SchoolVerificationStatus::Rejected);
    assert!(!payout_request_reaches_funds_check(&parent(), &request("x"), false, Some(&v), Some(&milestone()), Some(&rejected)));
    let error = decide_payout_request(&parent(), request("x"), None, Some(&v), Some(&milestone()), Some(&rejected)).unwrap_err();
    assert!(matches!(error, PayoutError::Conflict(_)));
    assert!(payout_request_reaches_funds_check(&parent(), &request("x"), false, Some(&vault()), Some(&milestone()), Some(&verified)));
    assert!(!payout_request_reaches_funds_check(&parent(), &request("x"), true, Some(&vault()), Some(&milestone()), Some(&verified)));

    let pending = pending_payout();
    assert!(!review_reaches_funds_check(&platform_admin(), PayoutTransition::Approve, Some(&pending), Some(&verified), Some(&milestone()), Some(&v)));
    let error = decide_review(&platform_admin(), &review(None, None), PayoutTransition::Approve, Some(pending), Some(&verified), Some(&milestone()), Some(&v)).unwrap_err();
    assert!(matches!(error, PayoutError::Conflict(_)));
    let mut under_review = pending_payout();
    under_review.status = PayoutStatus::UnderReview;
    assert!(review_reaches_funds_check(&platform_admin(), PayoutTransition::Approve, Some(&under_review), Some(&verified), Some(&milestone()), Some(&vault())));
    assert!(!review_reaches_funds_check(&platform_admin(), PayoutTransition::Reject, Some(&under_review), Some(&verified), Some(&milestone()), Some(&v)));
    let step = decide_review(&platform_admin(), &review(None, None), PayoutTransition::Reject, Some(under_review), Some(&verified), Some(&milestone()), Some(&v)).unwrap();
    assert!(matches!(step, ReviewDecision::Transition { target: PayoutStatus::Rejected, .. }));
}
