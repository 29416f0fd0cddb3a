//! Contributions and wallets on chain: provisioning a user's wallet, the
//! contract call that funds a vault, the record of a submission and how the
//! network's answer settles a contribution.

use vstd::prelude::*;

use crate::auth::{AuthenticatedUser, UserRole};
use crate::blockchain::{
    BlockchainError, BlockchainErrorCode, BlockchainNetwork, ContractArgument, PreparedTransaction,
    ProvisionedWallet, SigningBoundary, SubmittedTransaction, TransactionState, TransactionStatus,
    VaultContractCallRequest, WalletCustodyModel, WalletProvisioningRequest,
};
use crate::contributions::{ContributionError, SettlementInput};
use crate::json::{
    entry, int_value, is_int, is_object_of, is_text, is_uuid, key_at, text_value, uuid_value,
    value_at, JsonEntry, JsonValue,
};
use crate::platform::{new_uuid, now_micros, uuid_text, uuid_to_text};
use crate::records::{BlockchainTransactionRecord, Contribution, ExternalReference, SavingsVault, WalletAccount};
use crate::repos::{empty_metadata, PersistenceError};
use crate::shared::Money;
use crate::status::{BlockchainTransactionStatus, ExternalReferenceEntityType, ExternalReferenceKind};
use crate::text::owned;

verus! {

/// Failures of the on-chain services.
#[derive(Debug)]
pub enum BlockchainFacadeError {
    Validation(String),
    Forbidden,
    NotFound,
    Conflict(String),
    Unavailable(String),
    Rejected(String),
    Repository(String),
}

impl BlockchainFacadeError {
    /// The service error for a storage failure.
    pub fn from_persistence(value: PersistenceError) -> (e: BlockchainFacadeError)
        ensures
            match value {
                PersistenceError::NotFound => e is NotFound,
                PersistenceError::Conflict(m) => e matches BlockchainFacadeError::Conflict(n) && n == m,
                PersistenceError::Validation(m) => e matches BlockchainFacadeError::Validation(n) && n == m,
                PersistenceError::Repository(m) => e matches BlockchainFacadeError::Repository(n) && n == m,
            },
    {
        match value {
            PersistenceError::NotFound => BlockchainFacadeError::NotFound,
            PersistenceError::Conflict(m) => BlockchainFacadeError::Conflict(m),
            PersistenceError::Validation(m) => BlockchainFacadeError::Validation(m),
            PersistenceError::Repository(m) => BlockchainFacadeError::Repository(m),
        }
    }

    /// The service error for a failure at the network boundary: refusals by
    /// the network are rejections, failures that may pass are unavailability.
    pub fn from_blockchain(value: BlockchainError) -> (e: BlockchainFacadeError)
        ensures
            match value.code {
                BlockchainErrorCode::Validation => e matches BlockchainFacadeError::Validation(m) && m == value.message,
                BlockchainErrorCode::Unauthorized => e is Forbidden,
                BlockchainErrorCode::NotFound => e is NotFound,
                BlockchainErrorCode::Conflict => e matches BlockchainFacadeError::Conflict(m) && m == value.message,
                BlockchainErrorCode::SubmissionRejected
                | BlockchainErrorCode::InsufficientFunds
                | BlockchainErrorCode::SignatureRequired => e matches BlockchainFacadeError::Rejected(m) && m
                    == value.message,
                BlockchainErrorCode::Timeout
                | BlockchainErrorCode::RateLimited
                | BlockchainErrorCode::Unavailable
                | BlockchainErrorCode::Internal => e matches BlockchainFacadeError::Unavailable(m) && m
                    == value.message,
            },
    {
        match value.code {
            BlockchainErrorCode::Validation => BlockchainFacadeError::Validation(value.message),
            BlockchainErrorCode::Unauthorized => BlockchainFacadeError::Forbidden,
            BlockchainErrorCode::NotFound => BlockchainFacadeError::NotFound,
            BlockchainErrorCode::Conflict => BlockchainFacadeError::Conflict(value.message),
            BlockchainErrorCode::SubmissionRejected
            | BlockchainErrorCode::InsufficientFunds
            | BlockchainErrorCode::SignatureRequired => BlockchainFacadeError::Rejected(value.message),
            BlockchainErrorCode::Timeout
            | BlockchainErrorCode::RateLimited
            | BlockchainErrorCode::Unavailable
            | BlockchainErrorCode::Internal => BlockchainFacadeError::Unavailable(value.message),
        }
    }

    /// The service error for a failed settlement.
    pub fn from_contribution(value: ContributionError) -> (e: BlockchainFacadeError)
        ensures
            match value {
                ContributionError::Validation(m) => e matches BlockchainFacadeError::Validation(n) && n == m,
                ContributionError::Forbidden => e is Forbidden,
                ContributionError::NotFound => e is NotFound,
                ContributionError::Conflict(m) => e matches BlockchainFacadeError::Conflict(n) && n == m,
                ContributionError::Repository(m) => e matches BlockchainFacadeError::Repository(n) && n == m,
            },
    {
        match value {
            ContributionError::Validation(m) => BlockchainFacadeError::Validation(m),
            ContributionError::Forbidden => BlockchainFacadeError::Forbidden,
            ContributionError::NotFound => BlockchainFacadeError::NotFound,
            ContributionError::Conflict(m) => BlockchainFacadeError::Conflict(m),
            ContributionError::Repository(m) => BlockchainFacadeError::Repository(m),
        }
    }
}

/// A wallet to provision for a user.
#[derive(Debug)]
pub struct ProvisionUserWalletInput {
    pub owner_user_id: u128,
    pub label: Option<String>,
    pub custody_model: WalletCustodyModel,
}

/// The stored wallet account and what the network provisioned.
#[derive(Debug)]
pub struct ProvisionUserWalletResult {
    pub wallet_account: WalletAccount,
    pub provisioned_wallet: ProvisionedWallet,
}

/// The Stellar wallet account of a user before the network has provisioned
/// it, and the request that asks the network to.
pub fn pending_wallet(input: ProvisionUserWalletInput) -> (r: (WalletAccount, WalletProvisioningRequest))
    ensures
        r.0.user_id == input.owner_user_id,
        r.0.network@ == "stellar"@,
        r.0.address@ == "pending-provision"@,
        r.0.label == input.label,
        r.0.created_at == r.0.updated_at,
        r.1.wallet_id == r.0.id,
        r.1.owner_user_id == input.owner_user_id,
        r.1.network == BlockchainNetwork::Stellar,
        r.1.custody_model == input.custody_model,
        r.1.label == input.label,
{
    let now = now_micros();
    let label = match &input.label {
        Some(l) => Some(l.clone()),
        None => None,
    };
    let account = WalletAccount {
        id: new_uuid(),
        user_id: input.owner_user_id,
        network: owned("stellar"),
        address: owned("pending-provision"),
        label,
        created_at: now,
        updated_at: now,
    };
    let request = WalletProvisioningRequest {
        wallet_id: account.id,
        owner_user_id: input.owner_user_id,
        network: BlockchainNetwork::Stellar,
        custody_model: input.custody_model,
        label: input.label,
    };
    (account, request)
}

/// The account to store once the network provisioned it: its address is the
/// provisioned account.
pub fn provisioned_account(pending: WalletAccount, provisioned: &ProvisionedWallet) -> (a: WalletAccount)
    ensures
        a.address == provisioned.stellar_account_id,
        a.id == pending.id && a.user_id == pending.user_id && a.network == pending.network
            && a.label == pending.label && a.created_at == pending.created_at && a.updated_at
            == pending.updated_at,
{
    let mut a = pending;
    a.address = provisioned.stellar_account_id.clone();
    a
}

/// The text of a custody model in reference metadata.
pub open spec fn spec_custody_text(m: WalletCustodyModel) -> Seq<char> {
    match m {
        WalletCustodyModel::Custodial => "custodial"@,
        WalletCustodyModel::NonCustodial => "non_custodial"@,
    }
}

/// The reference that ties a stored wallet to its Stellar account.
pub fn wallet_reference(wallet: &WalletAccount, provisioned: &ProvisionedWallet, now: i64) -> (r: ExternalReference)
    ensures
        r.entity_type == ExternalReferenceEntityType::WalletAccount,
        r.entity_id == wallet.id,
        r.reference_kind == ExternalReferenceKind::StellarAccountId,
        r.value == provisioned.stellar_account_id,
        is_object_of(r.metadata, 1),
        key_at(r.metadata, 0) == "custody_model"@ && is_text(value_at(r.metadata, 0), spec_custody_text(provisioned.custody_model)),
        r.created_at == now && r.updated_at == now,
{
    let custody = match provisioned.custody_model {
        WalletCustodyModel::Custodial => "custodial",
        WalletCustodyModel::NonCustodial => "non_custodial",
    };
    let mut m: Vec<JsonEntry> = Vec::new();
    m.push(entry("custody_model", text_value(custody)));
    ExternalReference {
        id: new_uuid(),
        entity_type: ExternalReferenceEntityType::WalletAccount,
        entity_id: wallet.id,
        reference_kind: ExternalReferenceKind::StellarAccountId,
        value: provisioned.stellar_account_id.clone(),
        metadata: JsonValue::Object(m),
        created_at: now,
        updated_at: now,
    }
}

/// A contribution to submit on chain under an idempotency key.
#[derive(Debug)]
pub struct SubmitContributionOnchainInput {
    pub contribution_id: u128,
    pub idempotency_key: String,
    pub signing_boundary: SigningBoundary,
}

/// What submitting a contribution on chain produced.
#[derive(Debug)]
pub struct ContributionOnchainSubmission {
    pub contribution: Contribution,
    pub processing_record: BlockchainTransactionRecord,
    pub prepared_transaction: PreparedTransaction,
    pub submitted_transaction: Option<SubmittedTransaction>,
}

/// The contract a vault's contributions are sent to: the stored reference if
/// there is one, else one made from the contract the vault row names.
pub fn find_contract_reference(stored: Option<ExternalReference>, vault: &SavingsVault) -> (r: Result<
    ExternalReference,
    BlockchainFacadeError,
>)
    ensures
        match stored {
            Some(x) => r matches Ok(y) && y == x,
            None => match vault.external_contract_ref {
                Some(c) => r matches Ok(y) && y.entity_type == ExternalReferenceEntityType::SavingsVault
                    && y.entity_id == vault.id && y.reference_kind == ExternalReferenceKind::SorobanContractId
                    && y.value == c && is_object_of(y.metadata, 1) && key_at(y.metadata, 0) == "source"@
                    && is_text(value_at(y.metadata, 0), "legacy_vault_column"@) && y.created_at
                    == y.updated_at,
                None => r matches Err(e) && e is NotFound,
            },
        },
{
    if let Some(reference) = stored {
        return Ok(reference);
    }
    if let Some(existing) = &vault.external_contract_ref {
        let now = now_micros();
        let mut m: Vec<JsonEntry> = Vec::new();
        m.push(entry("source", text_value("legacy_vault_column")));
        return Ok(ExternalReference {
            id: new_uuid(),
            entity_type: ExternalReferenceEntityType::SavingsVault,
            entity_id: vault.id,
            reference_kind: ExternalReferenceKind::SorobanContractId,
            value: existing.clone(),
            metadata: JsonValue::Object(m),
            created_at: now,
            updated_at: now,
        });
    }
    Err(BlockchainFacadeError::NotFound)
}

/// The call of the vault contract that funds the vault with a contribution:
/// `fund_vault` with the vault, the amount and the currency.
pub fn vault_call_request(
    contribution: &Contribution,
    contract_reference: &ExternalReference,
    signing_boundary: SigningBoundary,
    operation_id: String,
) -> (r: VaultContractCallRequest)
    ensures
        r.operation_id == operation_id,
        r.contract_id == contract_reference.value,
        r.method@ == "fund_vault"@,
        r.args@.len() == 3,
        r.args@[0] matches ContractArgument::Text(t) && t@ == uuid_text(contribution.vault_id),
        r.args@[1] == ContractArgument::Integer(contribution.amount.amount_minor),
        r.args@[2] matches ContractArgument::Text(t) && t@ == contribution.amount.currency.spec_text(),
        r.amount == Some(contribution.amount),
        r.signing_boundary == signing_boundary,
{
    let mut args: Vec<ContractArgument> = Vec::new();
    args.push(ContractArgument::Text(uuid_to_text(contribution.vault_id)));
    args.push(ContractArgument::Integer(contribution.amount.amount_minor));
    args.push(ContractArgument::Text(owned(contribution.amount.currency.as_str())));
    VaultContractCallRequest {
        operation_id,
        contract_id: contract_reference.value.clone(),
        method: owned("fund_vault"),
        args,
        amount: Some(contribution.amount.duplicate()),
        signing_boundary,
    }
}

/// The record of a contribution submitted on chain: submitted once, under
/// its idempotency key, with the transaction's hash.
pub fn submission_record(
    contribution: &Contribution,
    vault: &SavingsVault,
    contract_reference: &ExternalReference,
    idempotency_key: String,
    submitted: &SubmittedTransaction,
    now: i64,
) -> (r: BlockchainTransactionRecord)
    ensures
        r.entity_type == ExternalReferenceEntityType::Contribution,
        r.entity_id == contribution.id,
        r.operation_kind@ == "vault_contribution"@,
        r.idempotency_key == idempotency_key,
        r.status == BlockchainTransactionStatus::Submitted,
        r.tx_hash == Some(submitted.tx_hash),
        r.attempt_count == 1,
        r.last_error_code is None && r.last_error_message is None && r.next_retry_at is None,
        is_object_of(r.metadata, 4),
        key_at(r.metadata, 0) == "vault_id"@ && is_uuid(value_at(r.metadata, 0), vault.id),
        key_at(r.metadata, 1) == "contract_id"@ && is_text(value_at(r.metadata, 1), contract_reference.value@),
        key_at(r.metadata, 2) == "amount_minor"@ && is_int(value_at(r.metadata, 2), contribution.amount.amount_minor as int),
        key_at(r.metadata, 3) == "currency"@ && is_text(value_at(r.metadata, 3), contribution.amount.currency.spec_text()),
        r.created_at == now && r.updated_at == now,
{
    let mut m: Vec<JsonEntry> = Vec::new();
    m.push(entry("vault_id", uuid_value(vault.id)));
    m.push(entry("contract_id", text_value(contract_reference.value.as_str())));
    m.push(entry("amount_minor", int_value(contribution.amount.amount_minor)));
    m.push(entry("currency", text_value(contribution.amount.currency.as_str())));
    BlockchainTransactionRecord {
        id: new_uuid(),
        entity_type: ExternalReferenceEntityType::Contribution,
        entity_id: contribution.id,
        operation_kind: owned("vault_contribution"),
        idempotency_key,
        status: BlockchainTransactionStatus::Submitted,
        tx_hash: Some(submitted.tx_hash.clone()),
        attempt_count: 1,
        last_error_code: None,
        last_error_message: None,
        next_retry_at: None,
        metadata: JsonValue::Object(m),
        created_at: now,
        updated_at: now,
    }
}

/// The reference that ties a contribution to its transaction hash.
pub fn tx_hash_reference(contribution_id: u128, tx_hash: &str, now: i64) -> (r: ExternalReference)
    ensures
        r.entity_type == ExternalReferenceEntityType::Contribution,
        r.entity_id == contribution_id,
        r.reference_kind == ExternalReferenceKind::TransactionHash,
        r.value@ == tx_hash@,
        is_object_of(r.metadata, 0),
        r.created_at == now && r.updated_at == now,
{
    ExternalReference {
        id: new_uuid(),
        entity_type: ExternalReferenceEntityType::Contribution,
        entity_id: contribution_id,
        reference_kind: ExternalReferenceKind::TransactionHash,
        value: owned(tx_hash),
        metadata: empty_metadata(),
        created_at: now,
        updated_at: now,
    }
}

/// The platform administrator a system process acts as.
pub fn system_admin_actor(user_id: u128) -> (a: AuthenticatedUser)
    ensures
        a.user_id == user_id,
        a.role == UserRole::PlatformAdmin,
        a.session_id == 0,
{
    AuthenticatedUser { user_id, role: UserRole::PlatformAdmin, session_id: 0 }
}

/// The hash a reconciliation looks up; a record without one is a conflict.
pub fn record_tx_hash(record: &BlockchainTransactionRecord) -> (r: Result<String, BlockchainFacadeError>)
    ensures
        match record.tx_hash {
            Some(h) => r matches Ok(x) && x == h,
            None => r matches Err(e) && e matches BlockchainFacadeError::Conflict(m) && m@
                == "blockchain transaction record missing tx hash"@,
        },
{
    match &record.tx_hash {
        Some(h) => Ok(h.clone()),
        None => Err(BlockchainFacadeError::Conflict(owned("blockchain transaction record missing tx hash"))),
    }
}

/// What a reconciliation does to the contribution.
#[derive(Clone, Copy, Debug, PartialEq, Eq, Structural)]
pub enum ReconcileAction {
    /// Confirm it: the transaction succeeded.
    Confirm,
    /// Fail it: the transaction failed for good.
    Fail,
    /// Leave it: the transaction is pending, unknown or to be retried.
    Keep,
}

/// The record's status after the network's answer.
pub open spec fn spec_reconciled_status(status: TransactionStatus) -> BlockchainTransactionStatus {
    match status.state {
        TransactionState::Succeeded => BlockchainTransactionStatus::Confirmed,
        TransactionState::Failed => if status.retryable {
            BlockchainTransactionStatus::RetryScheduled
        } else {
            BlockchainTransactionStatus::Failed
        },
        _ => BlockchainTransactionStatus::Submitted,
    }
}

/// What happens to the contribution after the network's answer.
pub open spec fn spec_reconcile_action(status: TransactionStatus) -> ReconcileAction {
    match status.state {
        TransactionState::Succeeded => ReconcileAction::Confirm,
        TransactionState::Failed => if status.retryable {
            ReconcileAction::Keep
        } else {
            ReconcileAction::Fail
        },
        _ => ReconcileAction::Keep,
    }
}

/// Applies the network's answer about a submitted transaction to its record:
/// success confirms and clears the errors; a failure records the error and
/// is retried now when it may pass, or fails for good; otherwise the record
/// stays submitted. The record is marked updated at `now`.
pub fn reconcile_record(record: BlockchainTransactionRecord, status: TransactionStatus, now: i64) -> (r: (
    BlockchainTransactionRecord,
    ReconcileAction,
))
    ensures
        r.0.status == spec_reconciled_status(status),
        r.1 == spec_reconcile_action(status),
        r.0.updated_at == now,
        r.0.id == record.id && r.0.entity_type == record.entity_type && r.0.entity_id == record.entity_id
            && r.0.operation_kind == record.operation_kind && r.0.idempotency_key == record.idempotency_key
            && r.0.tx_hash == record.tx_hash && r.0.attempt_count == record.attempt_count
            && r.0.metadata == record.metadata && r.0.created_at == record.created_at,
        match status.state {
            TransactionState::Succeeded => r.0.last_error_code is None && r.0.last_error_message is None
                && r.0.next_retry_at is None,
            TransactionState::Failed => r.0.last_error_code == status.error_code && r.0.last_error_message
                == status.error_message && r.0.next_retry_at == (if status.retryable {
                Some(now)
            } else {
                None
            }),
            _ => r.0.last_error_code == record.last_error_code && r.0.last_error_message
                == record.last_error_message && r.0.next_retry_at == record.next_retry_at,
        },
{
    let mut rec = record;
    let action = match status.state {
        TransactionState::Succeeded => {
            rec.status = BlockchainTransactionStatus::Confirmed;
            rec.last_error_code = None;
            rec.last_error_message = None;
            rec.next_retry_at = None;
            ReconcileAction::Confirm
        },
        TransactionState::Failed => {
            rec.status = if status.retryable {
                BlockchainTransactionStatus::RetryScheduled
            } else {
                BlockchainTransactionStatus::Failed
            };
            rec.last_error_code = status.error_code;
            rec.last_error_message = status.error_message;
            rec.next_retry_at = if status.retryable {
                Some(now)
            } else {
                None
            };
            if status.retryable {
                ReconcileAction::Keep
            } else {
                ReconcileAction::Fail
            }
        },
        TransactionState::Pending | TransactionState::Unknown => {
            rec.status = BlockchainTransactionStatus::Submitted;
            ReconcileAction::Keep
        },
    };
    rec.updated_at = now;
    (rec, action)
}

/// The settlement a reconciliation asks for, with the transaction's hash as
/// the payment reference.
pub fn reconcile_settlement(contribution_id: u128, record: &BlockchainTransactionRecord) -> (s: SettlementInput)
    ensures
        s.contribution_id == contribution_id,
        s.external_reference == record.tx_hash,
{
    SettlementInput {
        contribution_id,
        external_reference: match &record.tx_hash {
            Some(h) => Some(h.clone()),
            None => None,
        },
    }
}

/// A confirmed transaction never leaves its contribution unsettled, and a
/// failure that may pass never fails the contribution.
pub proof fn lemma_reconcile_settles_only_final_answers(status: TransactionStatus)
    ensures
        spec_reconcile_action(status) == ReconcileAction::Confirm <==> status.state == TransactionState::Succeeded,
        spec_reconcile_action(status) == ReconcileAction::Fail <==> (status.state == TransactionState::Failed
            && !status.retryable),
        spec_reconcile_action(status) == ReconcileAction::Keep <==> spec_reconciled_status(status)
            == BlockchainTransactionStatus::Submitted || spec_reconciled_status(status)
            == BlockchainTransactionStatus::RetryScheduled,
{
}


/// Whether a submission reuses the transaction already recorded under its
/// idempotency key or submits a new one.
#[derive(Clone, Copy, Debug, PartialEq, Eq, Structural)]
pub enum SubmissionMode {
    Reuse,
    Submit,
}

/// What submitting a contribution on chain will do: the contribution, the
/// contract it goes to, the operation the contract call is prepared under and
/// whether it is submitted.
#[derive(Debug)]
pub struct SubmissionPlan {
    pub contribution: Contribution,
    pub contract_reference: ExternalReference,
    pub operation_id: String,
    pub mode: SubmissionMode,
}

/// Plans the on-chain submission of a contribution: the contribution and its
/// vault must exist and the vault must have a contract. A transaction already
/// recorded under the idempotency key is reused, under its own key, and
/// nothing new is submitted.
pub fn plan_contribution_submission(
    input: &SubmitContributionOnchainInput,
    contribution: Option<Contribution>,
    vault: Option<&SavingsVault>,
    stored_reference: Option<ExternalReference>,
    existing: Option<&BlockchainTransactionRecord>,
) -> (r: Result<SubmissionPlan, BlockchainFacadeError>)
    ensures
        contribution is None ==> (r matches Err(e) && e is NotFound),
        contribution is Some && vault is None ==> (r matches Err(e) && e is NotFound),
        contribution is Some && vault is Some && stored_reference is None
            && vault->Some_0.external_contract_ref is None ==> (r matches Err(e) && e is NotFound),
        r matches Ok(p) ==> ({
            &&& contribution == Some(p.contribution)
            &&& match stored_reference {
                Some(x) => p.contract_reference == x,
                None => vault->Some_0.external_contract_ref == Some(p.contract_reference.value)
                    && p.contract_reference.entity_id == vault->Some_0.id
                    && p.contract_reference.reference_kind == ExternalReferenceKind::SorobanContractId,
            }
            &&& match existing {
                Some(x) => p.mode == SubmissionMode::Reuse && p.operation_id == x.idempotency_key,
                None => p.mode == SubmissionMode::Submit && p.operation_id == input.idempotency_key,
            }
        }),
        contribution is Some && vault is Some && (stored_reference is Some
            || vault->Some_0.external_contract_ref is Some) ==> r is Ok,
{
    let c = match contribution {
        None => return Err(BlockchainFacadeError::NotFound),
        Some(c) => c,
    };
    let v = match vault {
        None => return Err(BlockchainFacadeError::NotFound),
        Some(v) => v,
    };
    let contract_reference = find_contract_reference(stored_reference, v)?;
    match existing {
        Some(x) => Ok(SubmissionPlan {
            contribution: c,
            contract_reference,
            operation_id: x.idempotency_key.clone(),
            mode: SubmissionMode::Reuse,
        }),
        None => Ok(SubmissionPlan {
            contribution: c,
            contract_reference,
            operation_id: input.idempotency_key.clone(),
            mode: SubmissionMode::Submit,
        }),
    }
}

} // verus!
