use edustell::blockchain::{
    map_stellar_provider_error, sanitize_identifier, BlockchainError, BlockchainErrorCode, BlockchainNetwork,
    ContractArgument, EventCursor, EventIngestionRequest, EventIngestor, SigningBoundary, StellarProviderError,
    StellarSorobanAdapter, TransactionState, TransactionStatus, TransactionStatusLookup, TransactionStatusRequest,
    TransactionSubmissionRequest, TransactionSubmitter, UsdcBalanceLookup, UsdcBalanceLookupRequest,
    VaultContractCallRequest, VaultContractClient, WalletCustodyModel, WalletProvisioner,
    WalletProvisioningRequest,
};
use edustell::contributions::ContributionError;
use edustell::onchain::{
    find_contract_reference, pending_wallet, plan_contribution_submission, provisioned_account,
    reconcile_record, reconcile_settlement, record_tx_hash, submission_record, system_admin_actor,
    tx_hash_reference, vault_call_request, wallet_reference, BlockchainFacadeError, ProvisionUserWalletInput,
    ReconcileAction, SubmissionMode, SubmitContributionOnchainInput,
};
use edustell::auth::UserRole;
use edustell::json::JsonValue;
use edustell::records::{BlockchainTransactionRecord, Contribution, ExternalReference, SavingsVault};
use edustell::shared::{Currency, Money};
use edustell::status::{
    BlockchainTransactionStatus, ContributionSourceType, ContributionStatus, ExternalReferenceEntityType,
    ExternalReferenceKind, VaultStatus,
};

fn text_of(value: &JsonValue, key: &str) -> Option<String> {
    match value {
        JsonValue::Object(entries) => entries.iter().find(|e| e.key == key).and_then(|e| match &e.value {
            JsonValue::Text(t) => Some(t.clone()),
            JsonValue::Number(n) => Some(n.clone()),
            _ => None,
        }),
        _ => None,
    }
}

fn contribution() -> Contribution {
    Contribution {
        id: 0x1234,
        vault_id: 0xabcd,
        contributor_user_id: 5,
        amount: Money::new(25_000, Currency::Usdc).unwrap(),
        status: ContributionStatus::Pending,
        source_type: ContributionSourceType::Usdc,
        external_reference: None,
        idempotency_key: None,
        created_at: 0,
        updated_at: 0,
    }
}

fn vault(contract: Option<&str>) -> SavingsVault {
    SavingsVault {
        id: 0xabcd,
        plan_id: 1,
        owner_user_id: 2,
        currency: "USDC".to_owned(),
        status: VaultStatus::Active,
        total_contributed_minor: 0,
        total_locked_minor: 0,
        total_disbursed_minor: 0,
        external_wallet_account_id: None,
        external_contract_ref: contract.map(|c| c.to_owned()),
        version: 0,
        created_at: 0,
        updated_at: 0,
    }
}

fn record(tx_hash: Option<&str>) -> BlockchainTransactionRecord {
    BlockchainTransactionRecord {
        id: 9,
        entity_type: ExternalReferenceEntityType::Contribution,
        entity_id: 0x1234,
        operation_kind: "vault_contribution".to_owned(),
        idempotency_key: "op-1".to_owned(),
        status: BlockchainTransactionStatus::Submitted,
        tx_hash: tx_hash.map(|h| h.to_owned()),
        attempt_count: 1,
        last_error_code: Some("old".to_owned()),
        last_error_message: None,
        next_retry_at: None,
        metadata: JsonValue::Null,
        created_at: 1,
        updated_at: 1,
    }
}

fn status(state: TransactionState, retryable: bool) -> TransactionStatus {
    TransactionStatus {
        tx_hash: "h".to_owned(),
        state,
        ledger: None,
        retryable,
        error_code: Some("tx_failed".to_owned()),
        error_message: Some("boom".to_owned()),
        observed_at: 0,
    }
}

#[test]
fn stub_adapter_provisions_named_wallets() {
    let adapter = StellarSorobanAdapter::default();
    assert_eq!(adapter.network, BlockchainNetwork::Soroban);
    let wallet = adapter
        .provision_wallet(WalletProvisioningRequest {
            wallet_id: 0x0102,
            owner_user_id: 3,
            network: BlockchainNetwork::Stellar,
            custody_model: WalletCustodyModel::Custodial,
            label: None,
        })
        .unwrap();
    assert_eq!(wallet.stellar_account_id, "G00000000000000000000000000000102");
    assert!(matches!(wallet.signing_boundary, SigningBoundary::PlatformCustodied { ref key_reference } if key_reference == "stellar-key:00000000000000000000000000000102"));
    let own = adapter
        .provision_wallet(WalletProvisioningRequest {
            wallet_id: 1,
            owner_user_id: 3,
            network: BlockchainNetwork::Stellar,
            custody_model: WalletCustodyModel::NonCustodial,
            label: None,
        })
        .unwrap();
    assert!(matches!(own.signing_boundary, SigningBoundary::UserControlled { ref account_id } if *account_id == own.stellar_account_id));
    let balance = adapter.lookup_usdc_balance(UsdcBalanceLookupRequest { stellar_account_id: "G1".to_owned() }).unwrap();
    assert_eq!((balance.balance_minor, balance.decimals), (0, 7));
}

#[test]
fn live_mode_is_unavailable() {
    let adapter = StellarSorobanAdapter { stub_mode: false, ..StellarSorobanAdapter::default() };
    let error = adapter.lookup_transaction_status(TransactionStatusRequest { tx_hash: "x".to_owned() }).unwrap_err();
    assert_eq!(error.code, BlockchainErrorCode::Unavailable);
    assert!(error.retryable);
    assert_eq!(error.provider, "stellar_soroban_stub");
    assert_eq!(error.to_string(), "live Stellar/Soroban RPC calls are not implemented yet (Unavailable)");
    assert!(matches!(BlockchainFacadeError::from_blockchain(error), BlockchainFacadeError::Unavailable(_)));
}

#[test]
fn stub_submission_and_events() {
    let adapter = StellarSorobanAdapter::default();
    let prepared = adapter
        .prepare_vault_call(VaultContractCallRequest {
            operation_id: "op 1/a".to_owned(),
            contract_id: "C1".to_owned(),
            method: "fund_vault".to_owned(),
            args: vec![ContractArgument::Integer(5)],
            amount: None,
            signing_boundary: SigningBoundary::PreSignedEnvelope { envelope_xdr: "x".to_owned() },
        })
        .unwrap();
    assert_eq!(prepared.source_account_id, "presigned-envelope");
    assert_eq!(prepared.unsigned_envelope_xdr, "AAAA-stubbed-xdr");
    assert_eq!(prepared.contract_id.as_deref(), Some("C1"));
    let submitted = adapter
        .submit_transaction(TransactionSubmissionRequest {
            operation_id: "op 1/a".to_owned(),
            prepared_transaction: prepared.duplicate(),
            authorization: SigningBoundary::UserControlled { account_id: "G".to_owned() },
        })
        .unwrap();
    assert_eq!(submitted.tx_hash, "stub-tx-op-1-a");
    assert_eq!(submitted.state, TransactionState::Pending);
    let batch = adapter
        .ingest_events(EventIngestionRequest {
            cursor: Some(EventCursor { stream: "s".to_owned(), position: "7".to_owned() }),
            limit: 10,
        })
        .unwrap();
    assert!(batch.events.is_empty());
    assert_eq!(batch.next_cursor.unwrap().position, "7:noop");
    assert_eq!(sanitize_identifier("a_b-C9é"), "a-b-C9-");
}

#[test]
fn provider_errors_map_to_platform_errors() {
    let e = map_stellar_provider_error(StellarProviderError::SimulationFailed, "sim".to_owned());
    assert_eq!((e.code, e.retryable, e.provider), (BlockchainErrorCode::SubmissionRejected, false, "soroban"));
    let e = map_stellar_provider_error(StellarProviderError::RateLimited, "slow".to_owned());
    assert_eq!((e.code, e.retryable, e.provider), (BlockchainErrorCode::RateLimited, true, "stellar"));
    let e = map_stellar_provider_error(StellarProviderError::AccountMissing, "gone".to_owned()).with_external_code("404".to_owned());
    assert_eq!(e.code, BlockchainErrorCode::NotFound);
    assert_eq!(e.external_code.as_deref(), Some("404"));
    assert!(matches!(BlockchainFacadeError::from_blockchain(e), BlockchainFacadeError::NotFound));
    let e = BlockchainError::new(BlockchainErrorCode::InsufficientFunds, "poor".to_owned(), false, "stellar");
    assert!(matches!(BlockchainFacadeError::from_blockchain(e), BlockchainFacadeError::Rejected(m) if m == "poor"));
    assert!(matches!(
        BlockchainFacadeError::from_contribution(ContributionError::Conflict("c".to_owned())),
        BlockchainFacadeError::Conflict(m) if m == "c"
    ));
}

#[test]
fn wallet_provisioning_records() {
    let (pending, request) = pending_wallet(ProvisionUserWalletInput {
        owner_user_id: 8,
        label: Some("main".to_owned()),
        custody_model: WalletCustodyModel::NonCustodial,
    });
    assert_eq!(pending.address, "pending-provision");
    assert_eq!(request.wallet_id, pending.id);
    let provisioned = StellarSorobanAdapter::default().provision_wallet(request).unwrap();
    let stored = provisioned_account(pending, &provisioned);
    assert_eq!(stored.address, provisioned.stellar_account_id);
    let reference = wallet_reference(&stored, &provisioned, 5);
    assert_eq!(reference.reference_kind, ExternalReferenceKind::StellarAccountId);
    assert_eq!(text_of(&reference.metadata, "custody_model").as_deref(), Some("non_custodial"));
}

#[test]
fn contribution_submission_plans() {
    let input = SubmitContributionOnchainInput {
        contribution_id: 0x1234,
        idempotency_key: "op-2".to_owned(),
        signing_boundary: SigningBoundary::UserControlled { account_id: "G".to_owned() },
    };
    assert!(matches!(plan_contribution_submission(&input, None, None, None, None), Err(BlockchainFacadeError::NotFound)));
    assert!(matches!(
        plan_contribution_submission(&input, Some(contribution()), Some(&vault(None)), None, None),
        Err(BlockchainFacadeError::NotFound)
    ));
    let plan = plan_contribution_submission(&input, Some(contribution()), Some(&vault(Some("C-legacy"))), None, None).unwrap();
    assert_eq!(plan.mode, SubmissionMode::Submit);
    assert_eq!(plan.operation_id, "op-2");
    assert_eq!(plan.contract_reference.value, "C-legacy");
    assert_eq!(text_of(&plan.contract_reference.metadata, "source").as_deref(), Some("legacy_vault_column"));
    let existing = record(Some("h"));
    let reuse = plan_contribution_submission(&input, Some(contribution()), Some(&vault(Some("C"))), None, Some(&existing)).unwrap();
    assert_eq!(reuse.mode, SubmissionMode::Reuse);
    assert_eq!(reuse.operation_id, "op-1");

    let call = vault_call_request(&plan.contribution, &plan.contract_reference, input.signing_boundary.duplicate(), plan.operation_id);
    assert_eq!(call.method, "fund_vault");
    assert!(matches!(&call.args[0], ContractArgument::Text(t) if t == "00000000-0000-0000-0000-00000000abcd"));
    assert!(matches!(&call.args[1], ContractArgument::Integer(25_000)));
    assert!(matches!(&call.args[2], ContractArgument::Text(t) if t == "USDC"));

    let stored = ExternalReference {
        id: 1,
        entity_type: ExternalReferenceEntityType::SavingsVault,
        entity_id: 0xabcd,
        reference_kind: ExternalReferenceKind::SorobanContractId,
        value: "C-stored".to_owned(),
        metadata: JsonValue::Null,
        created_at: 0,
        updated_at: 0,
    };
    assert_eq!(find_contract_reference(Some(stored), &vault(Some("C-legacy"))).unwrap().value, "C-stored");
}

#[test]
fn submission_records_and_references() {
    let adapter = StellarSorobanAdapter::default();
    let submitted = adapter
        .submit_transaction(TransactionSubmissionRequest {
            operation_id: "op-3".to_owned(),
            prepared_transaction: adapter
                .prepare_vault_call(VaultContractCallRequest {
                    operation_id: "op-3".to_owned(),
                    contract_id: "C".to_owned(),
                    method: "fund_vault".to_owned(),
                    args: Vec::new(),
                    amount: None,
                    signing_boundary: SigningBoundary::UserControlled { account_id: "G".to_owned() },
                })
                .unwrap(),
            authorization: SigningBoundary::UserControlled { account_id: "G".to_owned() },
        })
        .unwrap();
    let contract = find_contract_reference(None, &vault(Some("C"))).unwrap();
    let rec = submission_record(&contribution(), &vault(Some("C")), &contract, "op-3".to_owned(), &submitted, 77);
    assert_eq!(rec.status, BlockchainTransactionStatus::Submitted);
    assert_eq!(rec.tx_hash.as_deref(), Some("stub-tx-op-3"));
    assert_eq!(rec.attempt_count, 1);
    assert_eq!(text_of(&rec.metadata, "amount_minor").as_deref(), Some("25000"));
    let reference = tx_hash_reference(0x1234, "stub-tx-op-3", 77);
    assert_eq!(reference.reference_kind, ExternalReferenceKind::TransactionHash);
    assert_eq!(reference.value, "stub-tx-op-3");
}

#[test]
fn reconciliation_follows_the_network() {
    let (r, a) = reconcile_record(record(Some("h")), status(TransactionState::Succeeded, false), 50);
    assert_eq!((r.status, a), (BlockchainTransactionStatus::Confirmed, ReconcileAction::Confirm));
    assert_eq!(r.last_error_code, None);
    assert_eq!(r.updated_at, 50);
    let (r, a) = reconcile_record(record(Some("h")), status(TransactionState::Failed, true), 50);
    assert_eq!((r.status, a), (BlockchainTransactionStatus::RetryScheduled, ReconcileAction::Keep));
    assert_eq!(r.next_retry_at, Some(50));
    assert_eq!(r.last_error_message.as_deref(), Some("boom"));
    let (r, a) = reconcile_record(record(Some("h")), status(TransactionState::Failed, false), 50);
    assert_eq!((r.status, a), (BlockchainTransactionStatus::Failed, ReconcileAction::Fail));
    assert_eq!(r.next_retry_at, None);
    let (r, a) = reconcile_record(record(Some("h")), status(TransactionState::Unknown, true), 50);
    assert_eq!((r.status, a), (BlockchainTransactionStatus::Submitted, ReconcileAction::Keep));
    assert_eq!(r.last_error_code.as_deref(), Some("old"));
    assert!(matches!(record_tx_hash(&record(None)), Err(BlockchainFacadeError::Conflict(m)) if m == "blockchain transaction record missing tx hash"));
    assert_eq!(record_tx_hash(&record(Some("h"))).unwrap(), "h");
    let settle = reconcile_settlement(0x1234, &record(Some("h")));
    assert_eq!(settle.external_reference.as_deref(), Some("h"));
    let actor = system_admin_actor(4);
    assert_eq!((actor.role, actor.session_id), (UserRole::PlatformAdmin, 0));
}
