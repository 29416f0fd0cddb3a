//! Stored records of the platform. Identifiers are 128-bit UUID values,
//! instants are microseconds since the Unix epoch and calendar dates are
//! day numbers counted from 0001-01-01 (day 1).

use vstd::prelude::*;

use crate::json::JsonValue;
use crate::shared::Money;
use crate::status::{
    AchievementCredentialStatus, AchievementCredentialType, BlockchainTransactionStatus,
    ContributionSourceType, ContributionStatus, DonorContributionStatus,
    ExternalReferenceEntityType, ExternalReferenceKind, KycStatus, MilestoneStatus,
    NotificationStatus, NotificationType, PayoutStatus, PayoutType, PlanStatus,
    ScholarshipApplicationStatus, ScholarshipAwardStatus, ScholarshipPoolStatus,
    SchoolPayoutMethod, SchoolVerificationStatus, VaultStatus,
};

verus! {

#[derive(Debug)]
pub struct ChildProfile {
    pub id: u128,
    pub owner_user_id: u128,
    pub full_name: String,
    pub date_of_birth: Option<i32>,
    pub education_level: Option<String>,
    pub created_at: i64,
    pub updated_at: i64,
}

#[derive(Debug)]
pub struct SavingsPlan {
    pub id: u128,
    pub child_profile_id: u128,
    pub owner_user_id: u128,
    pub name: String,
    pub description: Option<String>,
    pub target_amount: Money,
    pub status: PlanStatus,
    pub created_at: i64,
    pub updated_at: i64,
}

#[derive(Debug)]
pub struct SavingsVault {
    pub id: u128,
    pub plan_id: u128,
    pub owner_user_id: u128,
    pub currency: String,
    pub status: VaultStatus,
    pub total_contributed_minor: i64,
    pub total_locked_minor: i64,
    pub total_disbursed_minor: i64,
    pub external_wallet_account_id: Option<u128>,
    pub external_contract_ref: Option<String>,
    pub version: i64,
    pub created_at: i64,
    pub updated_at: i64,
}

#[derive(Debug)]
pub struct VaultContributor {
    pub id: u128,
    pub vault_id: u128,
    pub contributor_user_id: u128,
    pub role_label: String,
    pub created_at: i64,
    pub updated_at: i64,
}

#[derive(Debug)]
pub struct Milestone {
    pub id: u128,
    pub vault_id: u128,
    pub title: String,
    pub description: Option<String>,
    pub due_date: i32,
    pub target_amount: Money,
    pub funded_amount: Money,
    pub payout_type: PayoutType,
    pub status: MilestoneStatus,
    pub created_at: i64,
    pub updated_at: i64,
}

#[derive(Debug)]
pub struct Contribution {
    pub id: u128,
    pub vault_id: u128,
    pub contributor_user_id: u128,
    pub amount: Money,
    pub status: ContributionStatus,
    pub source_type: ContributionSourceType,
    pub external_reference: Option<String>,
    pub idempotency_key: Option<String>,
    pub created_at: i64,
    pub updated_at: i64,
}

#[derive(Debug)]
pub struct School {
    pub id: u128,
    pub legal_name: String,
    pub display_name: String,
    pub country: String,
    pub payout_method: SchoolPayoutMethod,
    pub payout_reference: String,
    pub verification_status: SchoolVerificationStatus,
    pub verified_by: Option<u128>,
    pub verified_at: Option<i64>,
    pub created_at: i64,
    pub updated_at: i64,
}

#[derive(Debug)]
pub struct PayoutRequest {
    pub id: u128,
    pub vault_id: u128,
    pub milestone_id: u128,
    pub school_id: u128,
    pub requested_by: u128,
    pub amount: Money,
    pub idempotency_key: Option<String>,
    pub status: PayoutStatus,
    pub review_notes: Option<String>,
    pub external_payout_reference: Option<String>,
    pub reviewed_by: Option<u128>,
    pub reviewed_at: Option<i64>,
    pub created_at: i64,
    pub updated_at: i64,
}

#[derive(Debug)]
pub struct KycProfile {
    pub id: u128,
    pub user_id: u128,
    pub status: KycStatus,
    pub provider_reference: Option<String>,
    pub reviewed_at: Option<i64>,
    pub created_at: i64,
    pub updated_at: i64,
}

#[derive(Debug)]
pub struct ScholarshipPool {
    pub id: u128,
    pub owner_user_id: u128,
    pub name: String,
    pub description: Option<String>,
    pub status: ScholarshipPoolStatus,
    pub available_funds: Money,
    pub geography_restriction: Option<String>,
    pub education_level_restriction: Option<String>,
    pub school_id_restriction: Option<u128>,
    pub category_restriction: Option<String>,
    pub created_at: i64,
    pub updated_at: i64,
}

#[derive(Debug)]
pub struct ScholarshipApplication {
    pub id: u128,
    pub pool_id: u128,
    pub applicant_user_id: u128,
    pub child_profile_id: u128,
    pub student_country: Option<String>,
    pub education_level: Option<String>,
    pub school_id: Option<u128>,
    pub category: Option<String>,
    pub status: ScholarshipApplicationStatus,
    pub notes: Option<String>,
    pub created_at: i64,
    pub updated_at: i64,
}

#[derive(Debug)]
pub struct ScholarshipAward {
    pub id: u128,
    pub application_id: u128,
    pub decided_by: u128,
    pub amount: Money,
    pub status: ScholarshipAwardStatus,
    pub decision_notes: Option<String>,
    pub linked_payout_request_id: Option<u128>,
    pub linked_vault_id: Option<u128>,
    pub created_at: i64,
    pub updated_at: i64,
}

#[derive(Debug)]
pub struct AchievementCredential {
    pub id: u128,
    pub credential_ref: u128,
    pub child_profile_id: u128,
    pub recipient_user_id: Option<u128>,
    pub school_id: Option<u128>,
    pub achievement_type: AchievementCredentialType,
    pub status: AchievementCredentialStatus,
    pub title: String,
    pub description: Option<String>,
    pub achievement_date: i32,
    pub issued_by_user_id: u128,
    pub issued_by_role: String,
    pub issuance_notes: Option<String>,
    pub evidence_uri: Option<String>,
    pub attestation_hash: String,
    pub attestation_method: String,
    pub attestation_anchor: Option<String>,
    pub attestation_anchor_network: Option<String>,
    pub metadata: JsonValue,
    pub created_at: i64,
    pub updated_at: i64,
}

#[derive(Debug)]
pub struct DonorContribution {
    pub id: u128,
    pub pool_id: u128,
    pub donor_user_id: u128,
    pub amount: Money,
    pub status: DonorContributionStatus,
    pub external_reference: Option<String>,
    pub idempotency_key: Option<String>,
    pub created_at: i64,
    pub updated_at: i64,
}

#[derive(Debug)]
pub struct AuditLog {
    pub id: u128,
    pub actor_user_id: Option<u128>,
    pub entity_type: String,
    pub entity_id: Option<u128>,
    pub action: String,
    pub request_id: Option<String>,
    pub correlation_id: Option<String>,
    pub metadata: JsonValue,
    pub created_at: i64,
    pub updated_at: i64,
}

#[derive(Debug)]
pub struct Notification {
    pub id: u128,
    pub user_id: u128,
    pub notification_type: NotificationType,
    pub title: String,
    pub body: String,
    pub metadata: JsonValue,
    pub status: NotificationStatus,
    pub read_at: Option<i64>,
    pub created_at: i64,
    pub updated_at: i64,
}

#[derive(Debug)]
pub struct NotificationPreference {
    pub id: u128,
    pub user_id: u128,
    pub notification_type: NotificationType,
    pub in_app_enabled: bool,
    pub email_enabled: bool,
    pub created_at: i64,
    pub updated_at: i64,
}

#[derive(Debug)]
pub struct WalletAccount {
    pub id: u128,
    pub user_id: u128,
    pub network: String,
    pub address: String,
    pub label: Option<String>,
    pub created_at: i64,
    pub updated_at: i64,
}

#[derive(Debug)]
pub struct ExternalReference {
    pub id: u128,
    pub entity_type: ExternalReferenceEntityType,
    pub entity_id: u128,
    pub reference_kind: ExternalReferenceKind,
    pub value: String,
    pub metadata: JsonValue,
    pub created_at: i64,
    pub updated_at: i64,
}

#[derive(Debug)]
pub struct BlockchainTransactionRecord {
    pub id: u128,
    pub entity_type: ExternalReferenceEntityType,
    pub entity_id: u128,
    pub operation_kind: String,
    pub idempotency_key: String,
    pub status: BlockchainTransactionStatus,
    pub tx_hash: Option<String>,
    pub attempt_count: i32,
    pub last_error_code: Option<String>,
    pub last_error_message: Option<String>,
    pub next_retry_at: Option<i64>,
    pub metadata: JsonValue,
    pub created_at: i64,
    pub updated_at: i64,
}

} // verus!
